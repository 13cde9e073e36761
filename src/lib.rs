//! Credential acquisition and credential caching for a headless posting agent.
pub mod api;
pub mod cli;
pub mod data;
pub mod lifecycle;
