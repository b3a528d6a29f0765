//! A small URL shortener: short identifiers, stored records, the use cases
//! that create, resolve and manage them, and the request logic around them.

pub mod short_url;
pub mod model;
pub mod error;
pub mod repository;
pub mod use_cases;
pub mod auth;
pub mod config;
pub mod file_repo;
pub mod storage;
pub mod http_api;
pub mod cli;
