pub mod client;
pub mod endpoint;
pub mod models;
pub mod register;
