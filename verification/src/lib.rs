pub mod models;
pub mod routes;
pub mod search;
pub mod util;
