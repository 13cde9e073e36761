pub mod cache;
pub mod config;
pub mod packets;
pub mod secrets;
