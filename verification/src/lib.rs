pub mod error;
pub mod module;
pub mod service;
pub mod shared;
