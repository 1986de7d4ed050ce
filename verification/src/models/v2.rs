pub mod projects;
