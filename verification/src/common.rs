//! Core layer: accounts, configuration, HTTP response handling, logs and paths.
pub mod accounts;
pub mod client;
pub mod config;
pub mod log;
pub mod paths;
pub mod shape;
