//! The authentication subsystem, leaves first.

pub mod config;
pub mod types;
pub mod tokens;
pub mod jwk;
pub mod auth;
pub mod token_manager;
