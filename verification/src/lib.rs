//! A Discord bot framework: command parsing, argument conversion, command routing,
//! slash-command validation, error propagation and message builders.
//!
//! Each public function states what it returns in its contract, and each contract is
//! proved; the I/O shell (gateway, HTTP, async runtime) lives in the companion
//! application crate.

pub mod text;
pub mod commands;
pub mod wrappers;
pub mod numbers;
pub mod localizations;
pub mod interactions;
pub mod errors;
pub mod events;
pub mod builtin;
pub mod builders;
pub mod bot;
pub mod state;
pub mod handle;
