//! Error taxonomy and request instrumentation for a small GraphQL API.
//!
//! The crate holds the decisions of the service: how a domain error becomes an
//! outward error with a category code, what each stage of a request's life
//! writes into the access log record, and which log lines leave a request.
//! Transport, the GraphQL engine and the output stream are the caller's.

pub mod access_log;
pub mod debug;
pub mod errors;
pub mod field_error;
pub mod instrumentation;
pub mod json;
pub mod parameters;
pub mod text;
