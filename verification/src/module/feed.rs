pub mod article;
pub mod category;
pub mod controller;
pub mod dialect;
pub mod entities;
pub mod model;
pub mod sniff;
