//! What the bot sends: messages, replies to interactions and deferred replies, as plain
//! values that the I/O shell hands to Discord.

use vstd::prelude::*;

use crate::wrappers::types::component::Component;

verus! {

/// The `EPHEMERAL` message flag: only the user who ran the command sees the message.
pub const EPHEMERAL_FLAG: u64 = 64;

/// The `IS_COMPONENTS_V2` message flag: the message is laid out with components.
pub const COMPONENTS_V2_FLAG: u64 = 32768;

/// A message to send to a channel.
pub struct MessageCreate {
    /// The channel to send the message to.
    pub channel_id: u64,
    /// The message's text.
    pub content: String,
    /// The message this one replies to, if any.
    pub replying_to: Option<u64>,
    /// The message's components, in order.
    pub components: Vec<Component>,
}

impl MessageCreate {
    /// A message with the given text to the given channel, replying to nothing, with no
    /// components.
    pub fn new(channel_id: u64, content: &str) -> (r: Self)
        ensures
            r.channel_id == channel_id,
            r.content@ == content@,
            r.replying_to is None,
            r.components@.len() == 0,
    {
        MessageCreate {
            channel_id,
            content: content.to_string(),
            replying_to: None,
            components: Vec::new(),
        }
    }

    /// Makes the message a reply to the given message.
    pub fn reply(self, message_id: u64) -> (r: Self)
        ensures
            r == (MessageCreate { replying_to: Some(message_id), ..self }),
    {
        let mut s = self;
        s.replying_to = Some(message_id);
        s
    }

    /// Adds a component after those already added.
    pub fn component(self, component: Component) -> (r: Self)
        ensures
            r.components@ == self.components@.push(component),
            r.channel_id == self.channel_id,
            r.content == self.content,
            r.replying_to == self.replying_to,
    {
        let mut s = self;
        s.components.push(component);
        s
    }
}

/// A reply to an interaction.
pub struct InteractionMessageReply {
    /// The reply's components, in order.
    pub components: Vec<Component>,
    /// Whether only the user who ran the command sees the reply.
    pub ephemeral: bool,
}

impl InteractionMessageReply {
    /// A visible reply with no components.
    pub fn new() -> (r: Self)
        ensures
            r.components@.len() == 0,
            !r.ephemeral,
    {
        InteractionMessageReply { components: Vec::new(), ephemeral: false }
    }

    /// Adds a component after those already added.
    pub fn component(self, component: Component) -> (r: Self)
        ensures
            r.components@ == self.components@.push(component),
            r.ephemeral == self.ephemeral,
    {
        let mut s = self;
        s.components.push(component);
        s
    }

    /// Makes the reply visible only to the user who ran the command.
    pub fn ephemeral(self) -> (r: Self)
        ensures
            r.components == self.components,
            r.ephemeral,
    {
        let mut s = self;
        s.ephemeral = true;
        s
    }

    /// The message flags the reply is sent with: ephemeral component messages for an
    /// ephemeral reply, none otherwise.
    pub fn flags(&self) -> (r: Option<u64>)
        ensures
            self.ephemeral ==> r == Some(EPHEMERAL_FLAG | COMPONENTS_V2_FLAG),
            !self.ephemeral ==> r is None,
    {
        if self.ephemeral {
            Some(EPHEMERAL_FLAG | COMPONENTS_V2_FLAG)
        } else {
            None
        }
    }

    /// The components the reply is sent with: none at all when it has none.
    pub fn into_components(self) -> (r: Option<Vec<Component>>)
        ensures
            self.components@.len() == 0 ==> r is None,
            self.components@.len() > 0 ==> r == Some(self.components),
    {
        if self.components.len() == 0 {
            None
        } else {
            Some(self.components)
        }
    }
}

/// A deferred reply to an interaction: Discord shows that the bot is thinking.
pub struct InteractionDeferReply {
    /// Whether only the user who ran the command sees the reply.
    pub ephemeral: bool,
}

impl InteractionDeferReply {
    /// A visible deferred reply.
    pub fn new() -> (r: Self)
        ensures
            !r.ephemeral,
    {
        InteractionDeferReply { ephemeral: false }
    }

    /// Makes the reply visible only to the user who ran the command.
    pub fn ephemeral(self) -> (r: Self)
        ensures
            r.ephemeral,
    {
        InteractionDeferReply { ephemeral: true }
    }

    /// The message flags the deferred reply is sent with: ephemeral for an ephemeral reply,
    /// none otherwise.
    pub fn flags(&self) -> (r: Option<u64>)
        ensures
            self.ephemeral ==> r == Some(EPHEMERAL_FLAG),
            !self.ephemeral ==> r is None,
    {
        if self.ephemeral {
            Some(EPHEMERAL_FLAG)
        } else {
            None
        }
    }
}

} // verus!
