//! Storage of records.
pub mod pokemon;
