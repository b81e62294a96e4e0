//! A catalog of pokemon records: validated value objects, a storage
//! contract with an in-memory backend, and the use cases that tie them
//! together.
pub mod entities;
pub mod repositories;
pub mod domain;
pub mod setup;
pub mod laws;
