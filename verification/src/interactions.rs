//! Message components that trigger interactions, such as buttons.

use vstd::prelude::*;

use crate::commands::prefixed::routing::{copy_positions, layers_view};
use crate::commands::CommandNode;

verus! {

/// A button component with its handler.
pub struct ButtonComponent {
    /// The custom ID that identifies the button's clicks.
    pub custom_id: String,
    /// The position of the button's handler in the bot's handler table.
    pub handler: usize,
    /// The positions of the button's error handlers.
    pub on_errors: Vec<usize>,
    /// The positions of the button's permission checks.
    pub checks: Vec<usize>,
}

/// A builder of button components.
pub struct ButtonComponentBuilder {
    /// The custom ID that identifies the button's clicks.
    pub custom_id: String,
    /// The position of the button's handler.
    pub handler: usize,
    /// The positions of the button's error handlers.
    pub on_errors: Vec<usize>,
    /// The positions of the button's permission checks.
    pub checks: Vec<usize>,
}

impl ButtonComponentBuilder {
    /// A builder for a button with the given custom ID and handler.
    pub fn new(custom_id: &str, handler: usize) -> (r: ButtonComponentBuilder)
        ensures
            r.custom_id@ == custom_id@,
            r.handler == handler,
            r.on_errors@.len() == 0,
            r.checks@.len() == 0,
    {
        ButtonComponentBuilder {
            custom_id: custom_id.to_owned(),
            handler,
            on_errors: Vec::new(),
            checks: Vec::new(),
        }
    }

    /// Adds an error handler, run when the button's handler fails.
    pub fn on_error(self, handler: usize) -> (r: Self)
        ensures
            r.on_errors@ == self.on_errors@.push(handler),
            r == (ButtonComponentBuilder { on_errors: r.on_errors, ..self }),
    {
        let mut s = self;
        s.on_errors.push(handler);
        s
    }

    /// Adds a permission check, run before the button's handler.
    pub fn check(self, checker: usize) -> (r: Self)
        ensures
            r.checks@ == self.checks@.push(checker),
            r == (ButtonComponentBuilder { checks: r.checks, ..self }),
    {
        let mut s = self;
        s.checks.push(checker);
        s
    }

    /// Builds the button.
    pub fn build(self) -> (r: ButtonComponent)
        ensures
            r == (ButtonComponent {
                custom_id: self.custom_id,
                handler: self.handler,
                on_errors: self.on_errors,
                checks: self.checks,
            }),
    {
        ButtonComponent {
            custom_id: self.custom_id,
            handler: self.handler,
            on_errors: self.on_errors,
            checks: self.checks,
        }
    }
}

/// The position of the first top-level button component, from `k` on, whose custom ID
/// is `custom_id`.
pub open spec fn first_button(nodes: Seq<CommandNode>, custom_id: Seq<char>, k: int) -> Option<int>
    decreases nodes.len() - k,
{
    if k < 0 || k >= nodes.len() {
        None
    } else if nodes[k] matches CommandNode::ButtonComponent(b) && b.custom_id@ == custom_id {
        Some(k)
    } else {
        first_button(nodes, custom_id, k + 1)
    }
}

/// Finds the button a click is for: the first top-level button component whose custom
/// ID is the click's, with its own layer of error handlers (the bot's own come after
/// it); `None` when no button has that custom ID.
pub fn route_button_component<'a>(custom_id: &str, nodes: &'a [CommandNode]) -> (r: Option<
    (&'a ButtonComponent, Vec<Vec<usize>>),
>)
    ensures
        match first_button(nodes@, custom_id@, 0) {
            None => r is None,
            Some(k) => nodes@[k] matches CommandNode::ButtonComponent(b) && (r matches Some(m)
                && *m.0 == b && layers_view(m.1@) == seq![b.on_errors@]),
        },
{
    let mut k: usize = 0;
    while k < nodes.len()
        invariant
            k <= nodes.len(),
            first_button(nodes@, custom_id@, 0) == first_button(nodes@, custom_id@, k as int),
        decreases nodes.len() - k,
    {
        if let CommandNode::ButtonComponent(button) = &nodes[k] {
            if crate::text::str_eq(button.custom_id.as_str(), custom_id) {
                let mut layers: Vec<Vec<usize>> = Vec::new();
                layers.push(copy_positions(&button.on_errors));
                assert(layers_view(layers@) =~= seq![button.on_errors@]);
                return Some((button, layers));
            }
        }
        k += 1;
    }
    None
}


/// Whether `node` is a button component with the custom ID `custom_id`.
pub open spec fn is_button_for(node: CommandNode, custom_id: Seq<char>) -> bool {
    match node {
        CommandNode::ButtonComponent(b) => b.custom_id@ == custom_id,
        _ => false,
    }
}

/// A click is routed to the first top-level button with its custom ID: a button is found
/// whenever one has it, and the one found has it while no button before it does.
pub proof fn law_button_routing_picks_first(nodes: Seq<CommandNode>, custom_id: Seq<char>)
    ensures
        (exists|k: int| 0 <= k < nodes.len() && is_button_for(#[trigger] nodes[k], custom_id))
            ==> first_button(nodes, custom_id, 0) is Some,
        first_button(nodes, custom_id, 0) matches Some(k) ==> {
            &&& 0 <= k < nodes.len()
            &&& is_button_for(nodes[k], custom_id)
            &&& forall|j: int| 0 <= j < k ==> !is_button_for(#[trigger] nodes[j], custom_id)
        },
{
    lemma_first_button(nodes, custom_id, 0);
}

proof fn lemma_first_button(nodes: Seq<CommandNode>, custom_id: Seq<char>, start: int)
    requires
        0 <= start,
    ensures
        (exists|k: int| start <= k < nodes.len() && is_button_for(#[trigger] nodes[k], custom_id))
            ==> first_button(nodes, custom_id, start) is Some,
        first_button(nodes, custom_id, start) matches Some(k) ==> {
            &&& start <= k < nodes.len()
            &&& is_button_for(nodes[k], custom_id)
            &&& forall|j: int| start <= j < k ==> !is_button_for(#[trigger] nodes[j], custom_id)
        },
    decreases nodes.len() - start,
{
    if start < nodes.len() {
        lemma_first_button(nodes, custom_id, start + 1);
        if !is_button_for(nodes[start], custom_id) {
            if exists|k: int| start <= k < nodes.len() && is_button_for(#[trigger] nodes[k], custom_id) {
                let k = choose|k: int|
                    start <= k < nodes.len() && is_button_for(#[trigger] nodes[k], custom_id);
                assert(start + 1 <= k);
            }
        }
    }
}

} // verus!
