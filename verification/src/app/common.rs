pub mod database;
pub mod models;
pub mod utils;
