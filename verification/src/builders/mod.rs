//! Builders of rich message content.

pub mod embeds;
