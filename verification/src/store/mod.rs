//! Persistence: the schema-versioned document and its recovery rules.

pub mod json;
