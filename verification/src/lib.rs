//! A typed client library for a paperless-ngx document-management server.
//!
//! The crate models the client's decision logic: building a configured
//! client, forming authenticated requests, walking paginated listings,
//! gating mutating calls behind a dry-run flag, and interpreting task
//! status responses. Network transport and JSON decoding are left to the
//! caller, which hands decoded pages and response bodies back in.

pub mod client;
pub mod correspondent;
pub mod document;
pub mod errors;
pub mod page;
pub mod paginate;
pub mod task;
pub mod text;
