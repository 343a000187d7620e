//! Verified core of an e-commerce backend.
pub mod bootstrap;
pub mod config;
pub mod contms;
pub mod errors;
pub mod list_request;
pub mod middleware;
pub mod payment;
pub mod query;
pub mod seed;
pub mod settings;
pub mod sql;
pub mod text;
pub mod update_sql;
pub mod values;
