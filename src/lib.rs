//! Session-based authentication core: password policy, error taxonomy,
//! session resolution and the register / login / logout flows, together with
//! the configuration checks of the service.
pub mod auth;
pub mod auth_flow;
pub mod clock;
pub mod config;
pub mod controller;
pub mod database;
pub mod error;
pub mod password_hash;
pub mod password_policy;
pub mod response;
pub mod session_token;
pub mod text;
pub mod types;

pub use error::Error;
