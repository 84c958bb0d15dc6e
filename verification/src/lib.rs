//! Registration, login and token authentication rules of a small auth service.
//!
//! The crate holds the service's logic: credential validation, the error model
//! and its HTTP mapping, the decisions of the register / login / authenticate
//! flows, the token key scheme, and the request tracer.
//! Database, Redis and HTTP plumbing live outside it.

pub mod text;
pub mod http;
pub mod error;
pub mod model;
pub mod validation;
pub mod config;
pub mod token;
pub mod service;
pub mod tracer;
pub mod credential_repo;
