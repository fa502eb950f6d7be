//! The stored entities and, for each storage engine, their repository.

pub mod credentials;
pub mod sessions;
