//! Ergonomic wrappers around Discord objects.

pub mod types;
pub mod actions;
