pub mod database;
pub mod errors;
pub mod types;
