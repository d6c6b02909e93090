pub mod models;
pub mod pages;
pub mod utils;
