//! Plain-data wrappers around Discord users, channels, roles and message components.

pub mod channels;
pub mod roles;
pub mod users;
pub mod component;
