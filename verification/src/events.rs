//! Event handlers and the choice of which of them an event reaches.

use vstd::prelude::*;

use crate::commands::errors::RuntimeError;

verus! {

/// The gateway connection was closed.
pub struct GatewayClose;

/// The gateway asked for a heartbeat.
pub struct GatewayHeartbeat;

/// The gateway acknowledged a heartbeat.
pub struct GatewayHeartbeatAck;

/// The gateway invalidated the session.
pub struct GatewayInvalidateSession;

/// The gateway asked the bot to reconnect.
pub struct GatewayReconnect;

/// The session was resumed.
pub struct Resumed;

/// Which events an event handler is for: every event, or the events of one kind (named
/// as the gateway names them, e.g. `MESSAGE_CREATE`).
pub enum EventFilter {
    /// Every event.
    All,
    /// The events of one kind.
    Kind(String),
}

/// Whether a handler with filter `filter` handles an event of kind `kind`.
pub open spec fn handles(filter: EventFilter, kind: Seq<char>) -> bool {
    match filter {
        EventFilter::All => true,
        EventFilter::Kind(k) => k@ == kind,
    }
}

impl EventFilter {
    /// Tests whether a handler with this filter handles an event of kind `kind`.
    pub fn is_handler_for_type(&self, kind: &str) -> (r: bool)
        ensures
            r == handles(*self, kind@),
    {
        match self {
            EventFilter::All => true,
            EventFilter::Kind(k) => crate::text::str_eq(k.as_str(), kind),
        }
    }
}

/// The positions, in order, of the handlers whose filter takes events of kind `kind`.
pub open spec fn handlers_for(filters: Seq<EventFilter>, kind: Seq<char>) -> Seq<usize>
    decreases filters.len(),
{
    if filters.len() == 0 {
        seq![]
    } else {
        handlers_for(filters.drop_last(), kind) + if handles(filters.last(), kind) {
            seq![(filters.len() - 1) as usize]
        } else {
            seq![]
        }
    }
}

/// Returns the positions, in order, of the event handlers an event of kind `kind`
/// reaches.
pub fn handlers_for_event(filters: &Vec<EventFilter>, kind: &str) -> (r: Vec<usize>)
    ensures
        r@ == handlers_for(filters@, kind@),
{
    let mut r: Vec<usize> = Vec::new();
    let mut i: usize = 0;
    while i < filters.len()
        invariant
            i <= filters.len(),
            r@ == handlers_for(filters@.take(i as int), kind@),
        decreases filters.len() - i,
    {
        assert(filters@.take(i + 1).drop_last() =~= filters@.take(i as int));
        if filters[i].is_handler_for_type(kind) {
            r.push(i);
        }
        i += 1;
        assert(r@ =~= handlers_for(filters@.take(i as int), kind@));
    }
    assert(filters@.take(filters@.len() as int) =~= filters@);
    r
}

/// Normalizes what an event handler returns into `Ok(())` or the error it raised.
pub trait IntoEventResult: Sized {
    /// The normalized result of this value.
    spec fn spec_event_result(&self) -> Result<(), RuntimeError>;

    /// Normalizes this value.
    fn into_event_result(self) -> (r: Result<(), RuntimeError>)
        ensures
            r == self.spec_event_result(),
    ;
}

impl IntoEventResult for () {
    open spec fn spec_event_result(&self) -> Result<(), RuntimeError> {
        Ok(())
    }

    fn into_event_result(self) -> (r: Result<(), RuntimeError>) {
        Ok(())
    }
}

impl<T> IntoEventResult for Result<T, RuntimeError> {
    open spec fn spec_event_result(&self) -> Result<(), RuntimeError> {
        match *self {
            Ok(_) => Ok(()),
            Err(e) => Err(e),
        }
    }

    fn into_event_result(self) -> (r: Result<(), RuntimeError>) {
        match self {
            Ok(_) => Ok(()),
            Err(e) => Err(e),
        }
    }
}

/// An event handler: the events it takes, the handler (by its index in the bot's table of
/// handler functions) and its own error handlers.
pub struct EventHandler {
    /// The events the handler takes.
    pub filter: EventFilter,
    /// The handler.
    pub handler: usize,
    /// The handler's own error handlers, in order.
    pub on_errors: Vec<usize>,
}

/// A builder of [`EventHandler`]s.
pub struct EventHandlerBuilder {
    /// The events the handler takes.
    pub filter: EventFilter,
    /// The handler.
    pub handler: usize,
    /// The handler's own error handlers, in order.
    pub on_errors: Vec<usize>,
}

impl EventHandlerBuilder {
    /// Adds an error handler after those already added.
    pub fn on_error(self, handler: usize) -> (r: Self)
        ensures
            r.on_errors@ == self.on_errors@.push(handler),
            r.filter == self.filter,
            r.handler == self.handler,
    {
        let mut s = self;
        s.on_errors.push(handler);
        s
    }

    /// Builds the event handler.
    pub fn build(self) -> (r: EventHandler)
        ensures
            r.filter == self.filter,
            r.handler == self.handler,
            r.on_errors == self.on_errors,
    {
        EventHandler { filter: self.filter, handler: self.handler, on_errors: self.on_errors }
    }
}

/// Builds event handlers for every event or for the events of one kind.
pub struct On;

impl On {
    /// A handler for every event.
    pub fn event(handler: usize) -> (r: EventHandlerBuilder)
        ensures
            r.filter == EventFilter::All,
            r.handler == handler,
            r.on_errors@.len() == 0,
    {
        EventHandlerBuilder { filter: EventFilter::All, handler, on_errors: Vec::new() }
    }

    /// A handler for the events of kind `kind`, named as the gateway names it.
    pub fn kind(kind: &str, handler: usize) -> (r: EventHandlerBuilder)
        ensures
            r.filter matches EventFilter::Kind(k) && k@ == kind@,
            r.handler == handler,
            r.on_errors@.len() == 0,
    {
        EventHandlerBuilder {
            filter: EventFilter::Kind(kind.to_owned()),
            handler,
            on_errors: Vec::new(),
        }
    }

    /// A handler for `MESSAGE_CREATE` events.
    pub fn message_create(handler: usize) -> (r: EventHandlerBuilder)
        ensures
            r.filter matches EventFilter::Kind(k) && k@ == "MESSAGE_CREATE"@,
            r.handler == handler,
            r.on_errors@.len() == 0,
    {
        On::kind("MESSAGE_CREATE", handler)
    }

    /// A handler for `INTERACTION_CREATE` events.
    pub fn interaction_create(handler: usize) -> (r: EventHandlerBuilder)
        ensures
            r.filter matches EventFilter::Kind(k) && k@ == "INTERACTION_CREATE"@,
            r.handler == handler,
            r.on_errors@.len() == 0,
    {
        On::kind("INTERACTION_CREATE", handler)
    }

    /// A handler for `READY` events.
    pub fn ready(handler: usize) -> (r: EventHandlerBuilder)
        ensures
            r.filter matches EventFilter::Kind(k) && k@ == "READY"@,
            r.handler == handler,
            r.on_errors@.len() == 0,
    {
        On::kind("READY", handler)
    }
}


/// An event reaches exactly the handlers whose filter takes its kind, each once and in the
/// order they were added: every position listed is a handler that takes the event, every
/// handler that takes it is listed, and the positions increase.
pub proof fn law_event_reaches_exactly_its_handlers(filters: Seq<EventFilter>, kind: Seq<char>)
    requires
        filters.len() <= usize::MAX,
    ensures
        forall|i: int|
            0 <= i < handlers_for(filters, kind).len() ==> {
                let p = #[trigger] handlers_for(filters, kind)[i];
                p < filters.len() && handles(filters[p as int], kind)
            },
        forall|p: int|
            0 <= p < filters.len() && handles(#[trigger] filters[p], kind) ==> handlers_for(
                filters,
                kind,
            ).contains(p as usize),
        forall|i: int, j: int|
            0 <= i < j < handlers_for(filters, kind).len() ==> handlers_for(filters, kind)[i]
                < handlers_for(filters, kind)[j],
    decreases filters.len(),
{
    if filters.len() > 0 {
        let d = filters.drop_last();
        law_event_reaches_exactly_its_handlers(d, kind);
        let before = handlers_for(d, kind);
        let r = handlers_for(filters, kind);
        let n = filters.len() - 1;
        assert(forall|p: int| 0 <= p < n ==> d[p] == filters[p]);
        let tail = if handles(filters.last(), kind) {
            seq![n as usize]
        } else {
            Seq::<usize>::empty()
        };
        assert(r == before + tail);
        assert(filters.last() == filters[n]);
        assert forall|i: int| 0 <= i < r.len() implies {
            let p = #[trigger] r[i];
            p < filters.len() && handles(filters[p as int], kind)
        } by {
            if i < before.len() {
                assert(r[i] == before[i]);
                assert(before[i] < d.len());
            } else {
                assert(r[i] == tail[i - before.len()]);
            }
        }
        assert forall|p: int| 0 <= p < filters.len() && handles(#[trigger] filters[p], kind)
            implies r.contains(p as usize) by {
            if p < n {
                assert(handles(d[p], kind));
                let k = choose|k: int| 0 <= k < before.len() && before[k] == p as usize;
                assert(r[k] == before[k]);
            } else {
                assert(r[before.len() as int] == p as usize);
            }
        }
        assert forall|i: int, j: int| 0 <= i < j < r.len() implies r[i] < r[j] by {
            if j < before.len() {
                assert(r[i] == before[i] && r[j] == before[j]);
            } else {
                assert(r[i] == before[i]);
                assert(before[i] < d.len());
                assert(r[j] == tail[j - before.len()]);
            }
        }
    }
}

} // verus!
