pub mod collections;
pub mod follow;
pub mod minecraft;
pub mod moderation;
pub mod notifications;
pub mod oauth_clients;
pub mod organizations;
pub mod payouts;
pub mod project_creation;
pub mod projects;
pub mod reports;
pub mod statistics;
pub mod tags;
pub mod users;
pub mod version_file;
pub mod versions;
