//! A small user-management core: a validated service layer over a
//! storage-agnostic repository contract.
//!
//! The service validates incoming requests, hashes passwords before they
//! reach any storage backend, and maps every failure into a closed error
//! taxonomy. Storage backends implement [`repository::UserDbTrait`]; an
//! in-memory backend suitable for tests lives in [`mock_db`].

pub mod backend;
pub mod decimal;
pub mod errors;
pub mod http;
pub mod laws;
pub mod mock_db;
pub mod models;
pub mod repository;
pub mod service;
