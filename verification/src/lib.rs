//! Validation and normalization of DK-BASIC input-mapping configuration
//! documents.
//!
//! A raw, partially-optional configuration document (the shape a user authors
//! in `mappings.toml`) is checked against range, enumeration and
//! cross-field consistency rules and turned into a fully-resolved
//! [`types::BongoSettings`] value, or a typed [`types::MappingsParseError`]
//! naming the first rule violated.

pub mod constants;
pub mod laws;
pub mod parse;
pub mod types;
