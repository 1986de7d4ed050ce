pub mod ids;
pub mod mods;
pub mod pats;
pub mod projects;
pub mod reports;
pub mod teams;
pub mod users;
pub mod v2;
