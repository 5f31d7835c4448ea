//! Built-in permission checks and cache keys.

pub mod permissions;
pub mod cache;
