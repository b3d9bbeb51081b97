pub mod client;
pub mod error;
pub mod models;
pub mod response;
