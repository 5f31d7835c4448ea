//! Finding the message command an interaction invokes.
//!
//! The first message command (depth-first, in order) with the invoked name is run,
//! together with the layers of error handlers that apply to it: the command's own, then
//! those of each enclosing group from the innermost out.

use vstd::prelude::*;

use crate::commands::message::{MessageCommand, MessageCommandGroup};
use crate::commands::prefixed::routing::{copy_positions, layers_view};
use crate::commands::{spec_flatten_message, CommandNode};

verus! {

/// The message command named `name` among `nodes` (the first, depth-first) and the
/// layers of error handlers that apply to it, innermost first.
pub open spec fn find_message(nodes: Seq<CommandNode>, name: Seq<char>) -> Option<
    (MessageCommand, Seq<Seq<usize>>),
>
    decreases nodes,
{
    if nodes.len() == 0 {
        None
    } else {
        let here = match nodes[0] {
            CommandNode::MessageCommand(c) => if c.name@ == name {
                Some((c, seq![c.on_errors@]))
            } else {
                None
            },
            CommandNode::MessageCommandGroup(g) => {
                proof {
                    assert(decreases_to!(nodes => g.children@));
                }
                match find_message(g.children@, name) {
                    Some(f) => Some((f.0, f.1.push(g.on_errors@))),
                    None => None,
                }
            },
            _ => None,
        };
        if here is Some {
            here
        } else {
            find_message(nodes.drop_first(), name)
        }
    }
}

/// Matches a message command against the invoked name.
pub fn match_command<'a>(name: &str, command: &'a MessageCommand) -> (r: Option<
    (&'a MessageCommand, Vec<Vec<usize>>),
>)
    ensures
        command.name@ == name@ ==> (r matches Some(m) && *m.0 == *command && layers_view(m.1@)
            == seq![command.on_errors@]),
        command.name@ != name@ ==> r is None,
{
    if crate::text::str_eq(command.name.as_str(), name) {
        let mut layers: Vec<Vec<usize>> = Vec::new();
        layers.push(copy_positions(&command.on_errors));
        assert(layers_view(layers@) =~= seq![command.on_errors@]);
        Some((command, layers))
    } else {
        None
    }
}

/// Matches a message command group against the invoked name: the first command of the
/// group (depth-first) with that name, with its layers of error handlers followed by the
/// group's own.
pub fn match_group<'a>(name: &str, group: &'a MessageCommandGroup) -> (r: Option<
    (&'a MessageCommand, Vec<Vec<usize>>),
>)
    ensures
        match find_message(group.children@, name@) {
            None => r is None,
            Some(f) => r matches Some(m) && *m.0 == f.0 && layers_view(m.1@) == f.1.push(
                group.on_errors@,
            ),
        },
    decreases group,
{
    proof {
        assert(decreases_to!(group => group.children@));
    }
    match route_message_command(name, group.children.as_slice()) {
        Some((command, layers)) => {
            let mut layers = layers;
            let ghost before = layers@;
            layers.push(copy_positions(&group.on_errors));
            assert(layers_view(layers@) =~= layers_view(before).push(group.on_errors@));
            Some((command, layers))
        },
        None => None,
    }
}

/// Finds the message command an interaction invokes by name: the first (depth-first, in
/// order) with that name, with the layers of error handlers that apply to it (the bot's
/// own come after them); `None` when no message command has the name.
pub fn route_message_command<'a>(name: &str, nodes: &'a [CommandNode]) -> (r: Option<
    (&'a MessageCommand, Vec<Vec<usize>>),
>)
    ensures
        match find_message(nodes@, name@) {
            None => r is None,
            Some(f) => r matches Some(m) && *m.0 == f.0 && layers_view(m.1@) == f.1,
        },
    decreases nodes@,
{
    let mut i: usize = 0;
    assert(nodes@.skip(0) =~= nodes@);
    while i < nodes.len()
        invariant
            i <= nodes.len(),
            find_message(nodes@, name@) == find_message(nodes@.skip(i as int), name@),
        decreases nodes.len() - i,
    {
        let ghost rest = nodes@.skip(i as int);
        assert(rest[0] == nodes@[i as int]);
        assert(rest.drop_first() =~= nodes@.skip(i + 1));
        let found = match &nodes[i] {
            CommandNode::MessageCommand(command) => match_command(name, command),
            CommandNode::MessageCommandGroup(group) => {
                proof {
                    assert(decreases_to!(nodes@ => *group));
                }
                match_group(name, group)
            },
            _ => None,
        };
        if found.is_some() {
            return found;
        }
        i += 1;
    }
    assert(nodes@.skip(i as int) =~= Seq::<CommandNode>::empty());
    None
}


/// The message commands a node contributes to the flattened list of the tree.
pub open spec fn message_commands_of_node(node: CommandNode) -> Seq<MessageCommand> {
    match node {
        CommandNode::MessageCommand(c) => seq![c],
        CommandNode::MessageCommandGroup(g) => spec_flatten_message(g.children@),
        _ => seq![],
    }
}

proof fn lemma_flatten_message_first(nodes: Seq<CommandNode>)
    requires
        nodes.len() > 0,
    ensures
        spec_flatten_message(nodes) == message_commands_of_node(nodes[0]) + spec_flatten_message(
            nodes.drop_first(),
        ),
    decreases nodes.len(),
{
    let d = nodes.drop_last();
    assert(spec_flatten_message(nodes) == spec_flatten_message(d) + message_commands_of_node(
        nodes[nodes.len() - 1],
    ));
    if nodes.len() == 1 {
        assert(d =~= Seq::<CommandNode>::empty());
        assert(nodes.drop_first() =~= Seq::<CommandNode>::empty());
        assert(spec_flatten_message(d) =~= Seq::<MessageCommand>::empty());
        assert(spec_flatten_message(nodes.drop_first()) =~= Seq::<MessageCommand>::empty());
        assert(spec_flatten_message(nodes) =~= message_commands_of_node(nodes[0])
            + spec_flatten_message(nodes.drop_first()));
    } else {
        lemma_flatten_message_first(d);
        assert(d[0] == nodes[0]);
        let r = nodes.drop_first();
        assert(d.drop_first() =~= r.drop_last());
        assert(r[r.len() - 1] == nodes[nodes.len() - 1]);
        assert(spec_flatten_message(r) == spec_flatten_message(r.drop_last())
            + message_commands_of_node(r[r.len() - 1]));
        assert(spec_flatten_message(nodes) =~= message_commands_of_node(nodes[0])
            + spec_flatten_message(nodes.drop_first()));
    }
}

/// Routing misses no message command: when some message command of the tree, at any depth
/// inside message command groups, has the name, the name is routed to a command.
pub proof fn law_routing_finds_every_message_command(
    nodes: Seq<CommandNode>,
    name: Seq<char>,
    k: int,
)
    requires
        0 <= k < spec_flatten_message(nodes).len(),
        spec_flatten_message(nodes)[k].name@ == name,
    ensures
        find_message(nodes, name) is Some,
    decreases nodes,
{
    lemma_flatten_message_first(nodes);
    let f0 = message_commands_of_node(nodes[0]);
    let rest = nodes.drop_first();
    if k < f0.len() {
        match nodes[0] {
            CommandNode::MessageCommand(c) => {
                assert(f0[k] == c);
            },
            CommandNode::MessageCommandGroup(g) => {
                assert(decreases_to!(nodes => g.children@));
                assert(spec_flatten_message(nodes)[k] == spec_flatten_message(g.children@)[k]);
                law_routing_finds_every_message_command(g.children@, name, k);
            },
            _ => {},
        }
    } else {
        assert(decreases_to!(nodes => rest));
        assert(spec_flatten_message(nodes)[k] == spec_flatten_message(rest)[k - f0.len()]);
        law_routing_finds_every_message_command(rest, name, k - f0.len());
    }
}

/// A name is routed to the first message command, in the order of the flattened tree
/// (depth-first, groups in place), with that name: the routed command is in the tree, has
/// the name, and no command before it does.
pub proof fn law_routing_picks_first_message_command(nodes: Seq<CommandNode>, name: Seq<char>)
    ensures
        find_message(nodes, name) matches Some(f) ==> exists|k: int|
            0 <= k < spec_flatten_message(nodes).len() && spec_flatten_message(nodes)[k] == f.0
                && f.0.name@ == name && forall|j: int|
                0 <= j < k ==> (#[trigger] spec_flatten_message(nodes)[j]).name@ != name,
    decreases nodes,
{
    if nodes.len() == 0 {
        return;
    }
    lemma_flatten_message_first(nodes);
    let flat = spec_flatten_message(nodes);
    let f0 = message_commands_of_node(nodes[0]);
    let rest = nodes.drop_first();
    assert(decreases_to!(nodes => rest));
    match nodes[0] {
        CommandNode::MessageCommand(c) => {
            if c.name@ == name {
                assert(flat[0] == c);
                return;
            }
        },
        CommandNode::MessageCommandGroup(g) => {
            assert(decreases_to!(nodes => g.children@));
            let sub = spec_flatten_message(g.children@);
            if let Some(f) = find_message(g.children@, name) {
                law_routing_picks_first_message_command(g.children@, name);
                let k = choose|k: int|
                    0 <= k < sub.len() && sub[k] == f.0 && f.0.name@ == name && forall|j: int|
                        0 <= j < k ==> (#[trigger] sub[j]).name@ != name;
                assert(flat[k] == sub[k]);
                assert forall|j: int| 0 <= j < k implies (#[trigger] flat[j]).name@ != name by {
                    assert(flat[j] == sub[j]);
                }
                return;
            } else {
                assert forall|j: int| 0 <= j < sub.len() implies (#[trigger] sub[j]).name@ != name by {
                    if sub[j].name@ == name {
                        law_routing_finds_every_message_command(g.children@, name, j);
                    }
                }
            }
        },
        _ => {},
    }
    assert(forall|j: int| 0 <= j < f0.len() ==> (#[trigger] f0[j]).name@ != name);
    assert(find_message(nodes, name) == find_message(rest, name));
    if let Some(f) = find_message(rest, name) {
        law_routing_picks_first_message_command(rest, name);
        let r = spec_flatten_message(rest);
        let k = choose|k: int|
            0 <= k < r.len() && r[k] == f.0 && f.0.name@ == name && forall|j: int|
                0 <= j < k ==> (#[trigger] r[j]).name@ != name;
        assert(flat[f0.len() + k] == r[k]);
        assert forall|j: int| 0 <= j < f0.len() + k implies (#[trigger] flat[j]).name@ != name by {
            if j < f0.len() {
                assert(flat[j] == f0[j]);
            } else {
                assert(flat[j] == r[j - f0.len()]);
            }
        }
    }
}

} // verus!
