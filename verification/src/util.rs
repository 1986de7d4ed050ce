pub mod access;
pub mod auth;
pub mod cors;
pub mod extract;
pub mod hash;
pub mod icons;
pub mod ip;
pub mod json;
pub mod keys;
pub mod multipart;
pub mod pairs;
pub mod pat;
pub mod ratelimit;
pub mod report;
pub mod routes;
pub mod sort;
pub mod split;
pub mod text;
pub mod text_sort;
pub mod webhook;
