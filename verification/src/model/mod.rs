//! Records of the service.
pub mod record;
