//! Key administration for an API proxy: key lifecycle with token quotas,
//! usage extraction from upstream responses, and request credential parsing.

pub mod admin;
pub mod admin_auth;
pub mod config;
pub mod datetime;
pub mod db;
pub mod error;
pub mod json;
pub mod keygen;
pub mod keys;
pub mod laws;
pub mod listing;
pub mod models;
pub mod proxy;
pub mod public_query;
pub mod text;
pub mod token_usage;
