//! Bot assembly: which built-in event handlers a bot installs for its commands, and the errors
//! running a bot can end with.

use vstd::prelude::*;

use crate::commands::slash::InvalidCommandError;
use crate::events::{EventFilter, EventHandler, EventHandlerBuilder, handlers_for};
use crate::commands::{
    CommandNode, flatten_message, flatten_slash, get_button_components, spec_flatten_message,
    spec_flatten_slash, spec_get_button_components,
};

verus! {

/// The event handlers a bot installs for itself, depending on the commands it was given.
#[derive(Debug, Clone, Copy, PartialEq, Eq, Structural)]
pub enum BuiltinHandler {
    /// Routes interactions to slash commands.
    SlashRouter,
    /// Routes interactions to message commands.
    MessageRouter,
    /// Routes interactions to button components.
    ButtonRouter,
    /// Registers the bot's application commands once the gateway is ready.
    Registration,
}

/// The built-in handlers a bot with these commands installs, in installation order: none when
/// it has no commands; otherwise the slash router if any slash command exists (groups
/// included), the message router if any message command exists, the button router if any
/// top-level button component exists, then the registration handler.
pub open spec fn spec_builtin_handlers(nodes: Seq<CommandNode>) -> Seq<BuiltinHandler> {
    if nodes.len() == 0 {
        Seq::empty()
    } else {
        let slash: Seq<BuiltinHandler> = if spec_flatten_slash(nodes).len() > 0 {
            seq![BuiltinHandler::SlashRouter]
        } else {
            Seq::empty()
        };
        let message: Seq<BuiltinHandler> = if spec_flatten_message(nodes).len() > 0 {
            seq![BuiltinHandler::MessageRouter]
        } else {
            Seq::empty()
        };
        let buttons: Seq<BuiltinHandler> = if spec_get_button_components(nodes).len() > 0 {
            seq![BuiltinHandler::ButtonRouter]
        } else {
            Seq::empty()
        };
        slash + message + buttons + seq![BuiltinHandler::Registration]
    }
}

/// Returns the built-in handlers a bot with these commands installs when it is built, in
/// installation order.
pub fn builtin_handlers(nodes: &[CommandNode]) -> (r: Vec<BuiltinHandler>)
    ensures
        r@ == spec_builtin_handlers(nodes@),
{
    let mut r: Vec<BuiltinHandler> = Vec::new();
    if nodes.len() == 0 {
        return r;
    }
    let has_slash_commands = flatten_slash(nodes).len() > 0;
    let has_message_commands = flatten_message(nodes).len() > 0;
    let has_button_components = get_button_components(nodes).len() > 0;
    if has_slash_commands {
        r.push(BuiltinHandler::SlashRouter);
    }
    if has_message_commands {
        r.push(BuiltinHandler::MessageRouter);
    }
    if has_button_components {
        r.push(BuiltinHandler::ButtonRouter);
    }
    r.push(BuiltinHandler::Registration);
    r
}

/// Errors that may occur while running, or attempting to run, a bot.
pub enum RunningError {
    /// One or more slash commands are invalid.
    InvalidSlashCommands(Vec<InvalidCommandError>),
}

/// The kind of event a built-in handler takes: interactions for the routers, the gateway's
/// `READY` for registration.
pub open spec fn builtin_event_kind(handler: BuiltinHandler) -> Seq<char> {
    match handler {
        BuiltinHandler::Registration => "READY"@,
        _ => "INTERACTION_CREATE"@,
    }
}

/// The built-in handlers, in order, that take events of kind `kind`.
pub open spec fn builtins_for(builtins: Seq<BuiltinHandler>, kind: Seq<char>) -> Seq<BuiltinHandler> {
    builtins.filter(|b: BuiltinHandler| builtin_event_kind(b) == kind)
}

/// Returns the built-in handlers, in order, that take events of kind `kind`.
pub fn builtins_for_event(builtins: &Vec<BuiltinHandler>, kind: &str) -> (r: Vec<BuiltinHandler>)
    ensures
        r@ == builtins_for(builtins@, kind@),
{
    let interaction = "INTERACTION_CREATE";
    let ready = "READY";
    let mut r: Vec<BuiltinHandler> = Vec::new();
    let mut i: usize = 0;
    while i < builtins.len()
        invariant
            i <= builtins.len(),
            r@ == builtins_for(builtins@.take(i as int), kind@),
            interaction@ == "INTERACTION_CREATE"@,
            ready@ == "READY"@,
        decreases builtins.len() - i,
    {
        let b = builtins[i];
        let takes = match b {
            BuiltinHandler::Registration => crate::text::str_eq(ready, kind),
            _ => crate::text::str_eq(interaction, kind),
        };
        proof {
            assert(builtins@.take(i + 1).drop_last() =~= builtins@.take(i as int));
            reveal_with_fuel(Seq::filter, 1);
        }
        if takes {
            r.push(b);
        }
        i += 1;
    }
    assert(builtins@.take(builtins@.len() as int) =~= builtins@);
    r
}

/// A bot under construction: its commands, event handlers, gateway intents and top-level
/// error handlers, and its state.
pub struct BotBuilder<S> {
    /// The commands, command groups and components, in order.
    pub interactions: Vec<CommandNode>,
    /// The event handlers, in order.
    pub on_events: Vec<EventHandler>,
    /// The state shared with every handler.
    pub state: S,
    /// The gateway intents, as a bit set.
    pub intents: u64,
    /// The top-level error handlers, in order.
    pub on_errors: Vec<usize>,
}

impl<S> BotBuilder<S> {
    /// Starts building a bot with the given state, no commands, no handlers and no intents.
    pub fn new(state: S) -> (r: Self)
        ensures
            r.interactions@.len() == 0,
            r.on_events@.len() == 0,
            r.state == state,
            r.intents == 0,
            r.on_errors@.len() == 0,
    {
        BotBuilder {
            interactions: Vec::new(),
            on_events: Vec::new(),
            state,
            intents: 0,
            on_errors: Vec::new(),
        }
    }

    /// Adds a command (or component) after those already added.
    pub fn command(self, command: CommandNode) -> (r: Self)
        ensures
            r.interactions@ == self.interactions@.push(command),
            r.on_events == self.on_events,
            r.state == self.state,
            r.intents == self.intents,
            r.on_errors == self.on_errors,
    {
        let mut s = self;
        s.interactions.push(command);
        s
    }

    /// Adds a command group after the commands already added.
    pub fn nest(self, group: CommandNode) -> (r: Self)
        ensures
            r.interactions@ == self.interactions@.push(group),
            r.on_events == self.on_events,
            r.state == self.state,
            r.intents == self.intents,
            r.on_errors == self.on_errors,
    {
        let mut s = self;
        s.interactions.push(group);
        s
    }

    /// Adds an event handler after those already added.
    pub fn on_event(self, handler: EventHandlerBuilder) -> (r: Self)
        ensures
            r.on_events@.len() == self.on_events@.len() + 1,
            r.on_events@.drop_last() == self.on_events@,
            r.on_events@.last().filter == handler.filter,
            r.on_events@.last().handler == handler.handler,
            r.on_events@.last().on_errors == handler.on_errors,
            r.interactions == self.interactions,
            r.state == self.state,
            r.intents == self.intents,
            r.on_errors == self.on_errors,
    {
        let mut s = self;
        s.on_events.push(handler.build());
        s
    }

    /// Adds gateway intents to those already requested.
    pub fn intents(self, intents: u64) -> (r: Self)
        ensures
            r.intents == self.intents | intents,
            r.interactions == self.interactions,
            r.on_events == self.on_events,
            r.state == self.state,
            r.on_errors == self.on_errors,
    {
        let mut s = self;
        s.intents = s.intents | intents;
        s
    }

    /// Adds a top-level error handler after those already added.
    pub fn on_error(self, handler: usize) -> (r: Self)
        ensures
            r.on_errors@ == self.on_errors@.push(handler),
            r.interactions == self.interactions,
            r.on_events == self.on_events,
            r.state == self.state,
            r.intents == self.intents,
    {
        let mut s = self;
        s.on_errors.push(handler);
        s
    }

    /// Builds the bot: everything set so far, and the built-in handlers its commands need
    /// (see [`spec_builtin_handlers`]), which run after the bot's own event handlers.
    pub fn build(self) -> (r: Bot<S>)
        ensures
            r.interactions == self.interactions,
            r.on_events == self.on_events,
            r.builtins@ == spec_builtin_handlers(self.interactions@),
            r.state == self.state,
            r.intents == self.intents,
            r.on_errors == self.on_errors,
    {
        let builtins = builtin_handlers(self.interactions.as_slice());
        Bot {
            interactions: self.interactions,
            on_events: self.on_events,
            builtins,
            state: self.state,
            intents: self.intents,
            on_errors: self.on_errors,
        }
    }
}

/// A bot: its commands, event handlers, the built-in handlers its commands need, its state,
/// its gateway intents and its top-level error handlers.
pub struct Bot<S> {
    /// The commands, command groups and components, in order.
    pub interactions: Vec<CommandNode>,
    /// The bot's own event handlers, in order.
    pub on_events: Vec<EventHandler>,
    /// The built-in handlers, in order; they run after the bot's own.
    pub builtins: Vec<BuiltinHandler>,
    /// The state shared with every handler.
    pub state: S,
    /// The gateway intents, as a bit set.
    pub intents: u64,
    /// The top-level error handlers, in order.
    pub on_errors: Vec<usize>,
}

impl<S> Bot<S> {
    /// The filters of the bot's own event handlers, in order.
    pub open spec fn filters(&self) -> Seq<EventFilter> {
        self.on_events@.map_values(|h: EventHandler| h.filter)
    }

    /// Returns the positions, in order, of the bot's own event handlers an event of kind
    /// `kind` reaches.
    pub fn handlers_for_event(&self, kind: &str) -> (r: Vec<usize>)
        ensures
            r@ == handlers_for(self.filters(), kind@),
    {
        let mut r: Vec<usize> = Vec::new();
        let mut i: usize = 0;
        while i < self.on_events.len()
            invariant
                i <= self.on_events.len(),
                r@ == handlers_for(self.filters().take(i as int), kind@),
            decreases self.on_events.len() - i,
        {
            assert(self.filters().take(i + 1).drop_last() =~= self.filters().take(i as int));
            assert(self.filters().take(i + 1).last() == self.on_events@[i as int].filter);
            if self.on_events[i].filter.is_handler_for_type(kind) {
                r.push(i);
            }
            i += 1;
            assert(r@ =~= handlers_for(self.filters().take(i as int), kind@));
        }
        assert(self.filters().take(self.filters().len() as int) =~= self.filters());
        r
    }
}

} // verus!
