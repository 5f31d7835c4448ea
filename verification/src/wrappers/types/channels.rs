//! Channel types.

use vstd::prelude::*;

verus! {

/// A Discord channel.
pub struct Channel {
    /// The channel's ID.
    pub id: u64,
    /// The channel's name (`Unnamed` for channels without one).
    pub name: String,
}

/// A channel mentioned in a message, as the message event carries it.
pub struct ChannelMention {
    /// The channel's ID.
    pub id: u64,
    /// The ID of the server the channel is in.
    pub guild_id: u64,
    /// The channel's name.
    pub name: String,
}

impl Clone for ChannelMention {
    fn clone(&self) -> (r: Self)
        ensures
            r == *self,
    {
        ChannelMention { id: self.id, guild_id: self.guild_id, name: self.name.clone() }
    }
}

} // verus!
