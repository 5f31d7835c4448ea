//! User types.

use vstd::prelude::*;

verus! {

/// A Discord user.
pub struct User {
    /// The user's ID.
    pub id: u64,
    /// The user's unique username.
    pub name: String,
    /// The user's display name, if they set one.
    pub name_global: Option<String>,
    /// The user's legacy discriminator (`0` for users without one).
    pub discriminator: u16,
    /// Whether the user is an application (a bot).
    pub is_app: bool,
    /// Whether the user's email is verified.
    pub is_verified: bool,
    /// Whether the user is an official Discord system user.
    pub is_system: bool,
}

impl User {
    /// The name shown for the user: their display name, or their username when they have
    /// no display name.
    pub open spec fn spec_name_display(&self) -> String {
        match self.name_global {
            Some(name) => name,
            None => self.name,
        }
    }

    /// Returns the name shown for the user: their display name, or their username when they
    /// have no display name.
    pub fn name_display(&self) -> (r: &String)
        ensures
            *r == self.spec_name_display(),
    {
        match &self.name_global {
            Some(name) => name,
            None => &self.name,
        }
    }
}

impl Clone for User {
    fn clone(&self) -> (r: Self)
        ensures
            r == *self,
    {
        User {
            id: self.id,
            name: self.name.clone(),
            name_global: match &self.name_global {
                Some(n) => Some(n.clone()),
                None => None,
            },
            discriminator: self.discriminator,
            is_app: self.is_app,
            is_verified: self.is_verified,
            is_system: self.is_system,
        }
    }
}

/// A user mentioned in a message, as the message event carries it.
pub struct UserMention {
    /// The user's ID.
    pub id: u64,
    /// The user's unique username.
    pub name: String,
    /// The user's legacy discriminator.
    pub discriminator: u16,
    /// Whether the user is an application (a bot).
    pub is_app: bool,
}

impl Clone for UserMention {
    fn clone(&self) -> (r: Self)
        ensures
            r == *self,
    {
        UserMention {
            id: self.id,
            name: self.name.clone(),
            discriminator: self.discriminator,
            is_app: self.is_app,
        }
    }
}

} // verus!
