//! Records and their versions.
pub mod version;
pub mod record;
