//! The bounds a bot's state must meet.

use vstd::prelude::*;

verus! {

/// The bounds of a bot's state: it is cloned into every handler and shared across tasks.
pub trait StateBound: Clone + Send + Sync + 'static {}

impl<T> StateBound for T where T: Clone + Send + Sync + 'static {}

} // verus!
