pub mod feed;
