pub mod auth;
pub mod controllers;
pub mod database;
pub mod date;
pub mod forms;
pub mod matrix;
pub mod models;
pub mod utils;
