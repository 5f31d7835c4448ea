//! Errors of the bot's handle.

use vstd::prelude::*;

use crate::commands::errors::RuntimeError;
use crate::wrappers::types::users::User;

verus! {

/// An error returned by the bot's handle.
pub enum HandleError {
    /// An error occurred while calling the Discord API.
    Twilight(RuntimeError),
    /// The cache backend returned an error.
    Cache(RuntimeError),
}

/// What the bot's handle has learned while looking a user up.
pub enum UserLookupEvent {
    /// The lookup starts.
    Start,
    /// The cache answered: the user, or `None` when it does not hold them.
    CacheAnswered(Option<User>),
    /// The Discord API returned the user.
    Fetched(User),
    /// The cache stored the fetched user.
    Stored(User),
}

/// What the bot's handle does next while looking a user up.
pub enum UserLookupAction {
    /// Ask the cache for the user with this ID.
    QueryCache(u64),
    /// Fetch the user with this ID from the Discord API.
    Fetch(u64),
    /// Store the fetched user in the cache.
    Store(User),
    /// The lookup is over: this is the user.
    Done(User),
}

/// The next step of looking up the user `user_id` (any error of the cache or the API ends the
/// lookup with that error): the cache is asked first when there is one, the API is called
/// when the cache does not hold the user, and a fetched user is stored in the cache before
/// it is returned.
pub open spec fn spec_user_lookup_step(user_id: u64, has_cache: bool, event: UserLookupEvent) -> UserLookupAction {
    match event {
        UserLookupEvent::Start => if has_cache {
            UserLookupAction::QueryCache(user_id)
        } else {
            UserLookupAction::Fetch(user_id)
        },
        UserLookupEvent::CacheAnswered(Some(u)) => UserLookupAction::Done(u),
        UserLookupEvent::CacheAnswered(None) => UserLookupAction::Fetch(user_id),
        UserLookupEvent::Fetched(u) => if has_cache {
            UserLookupAction::Store(u)
        } else {
            UserLookupAction::Done(u)
        },
        UserLookupEvent::Stored(u) => UserLookupAction::Done(u),
    }
}

/// Returns the next step of looking up the user `user_id`, given what the last step gave.
pub fn user_lookup_step(user_id: u64, has_cache: bool, event: UserLookupEvent) -> (r: UserLookupAction)
    ensures
        r == spec_user_lookup_step(user_id, has_cache, event),
{
    match event {
        UserLookupEvent::Start => if has_cache {
            UserLookupAction::QueryCache(user_id)
        } else {
            UserLookupAction::Fetch(user_id)
        },
        UserLookupEvent::CacheAnswered(Some(u)) => UserLookupAction::Done(u),
        UserLookupEvent::CacheAnswered(None) => UserLookupAction::Fetch(user_id),
        UserLookupEvent::Fetched(u) => if has_cache {
            UserLookupAction::Store(u)
        } else {
            UserLookupAction::Done(u)
        },
        UserLookupEvent::Stored(u) => UserLookupAction::Done(u),
    }
}

} // verus!
