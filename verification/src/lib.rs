//! Well-log record handling: versions and kinds of records, the schema
//! registry that validates them, errors and the HTTP-facing decisions.
pub mod text;
pub mod record;
pub mod error;
pub mod json;
pub mod schema;
pub mod validation;
pub mod model;
pub mod core_client;
pub mod extractors;
pub mod config;
pub mod schema_prefix;
