pub mod app;
pub mod config;
pub mod dtos;
pub mod effects;
pub mod errors;
pub mod jql;
pub mod keys;
pub mod models;
pub mod text;
pub mod time;
