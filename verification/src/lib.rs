//! Configuration ingestion and validation for a BGP/BMP route-monitoring
//! service: an already-parsed INI-style mapping is turned into one fully
//! validated, immutable service configuration, or one descriptive error.
pub mod strutil;
pub mod numparse;
pub mod netaddr;
pub mod errors;
pub mod settings;
pub mod whois;
pub mod config;
pub mod laws;
