//! Validation of structured documents with location-annotated failure reports,
//! and resolution of a parsed configuration fragment into a typed configuration.

pub mod config;
pub mod format;
pub mod toml;
pub mod validation;
pub mod value;
