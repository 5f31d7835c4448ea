//! Finding the prefixed command a message invokes.
//!
//! For each of the bot's prefixes in order, the message is split into a command name and
//! raw arguments; the first command (depth-first, in order) that the name identifies is
//! run, together with the layers of error handlers that apply to it: the command's own,
//! then those of each enclosing group from the innermost out.

use vstd::prelude::*;

use crate::commands::errors::{CommandError, RuntimeError};
use crate::commands::prefixed::parsing::{parse, parse_spec};
use crate::commands::prefixed::{identifies, PrefixedCommand, PrefixedCommandGroup};
use crate::commands::{spec_flatten_prefixed, CommandNode};
use crate::errors::DyncordError;

verus! {

/// The views of layers of error handlers.
pub open spec fn layers_view(layers: Seq<Vec<usize>>) -> Seq<Seq<usize>> {
    layers.map_values(|l: Vec<usize>| l@)
}

/// The command `name` invokes among `nodes` (the first, depth-first) and the layers of
/// error handlers that apply to it, innermost first.
pub open spec fn find_prefixed(nodes: Seq<CommandNode>, name: Seq<char>) -> Option<
    (PrefixedCommand, Seq<Seq<usize>>),
>
    decreases nodes,
{
    if nodes.len() == 0 {
        None
    } else {
        let here = match nodes[0] {
            CommandNode::PrefixedCommand(c) => if identifies(c, name) {
                Some((c, seq![c.on_errors@]))
            } else {
                None
            },
            CommandNode::PrefixedCommandGroup(g) => {
                proof {
                    assert(decreases_to!(nodes => g.children@));
                }
                match find_prefixed(g.children@, name) {
                    Some(f) => Some((f.0, f.1.push(g.on_errors@))),
                    None => None,
                }
            },
            _ => None,
        };
        if here is Some {
            here
        } else {
            find_prefixed(nodes.drop_first(), name)
        }
    }
}

/// Copies a list of handler positions.
pub fn copy_positions(v: &Vec<usize>) -> (r: Vec<usize>)
    ensures
        r@ == v@,
{
    let mut r: Vec<usize> = Vec::new();
    let mut k: usize = 0;
    while k < v.len()
        invariant
            k <= v.len(),
            r@ == v@.take(k as int),
        decreases v.len() - k,
    {
        r.push(v[k]);
        k += 1;
        assert(r@ =~= v@.take(k as int));
    }
    assert(v@.take(v@.len() as int) =~= v@);
    r
}

/// Appends the bot's own error handlers, the outermost layer, to the layers that apply to
/// a command, a button or an event handler.
pub fn with_bot_layer(layers: Vec<Vec<usize>>, bot_on_errors: &Vec<usize>) -> (r: Vec<Vec<usize>>)
    ensures
        layers_view(r@) == layers_view(layers@).push(bot_on_errors@),
{
    let mut r = layers;
    let ghost before = r@;
    r.push(copy_positions(bot_on_errors));
    assert(layers_view(r@) =~= layers_view(before).push(bot_on_errors@));
    r
}

/// Matches a command against the name a message invokes: the command and its own layer
/// of error handlers when the name is the command's name or one of its aliases.
pub fn match_command<'a>(name: &str, command: &'a PrefixedCommand) -> (r: Option<
    (&'a PrefixedCommand, Vec<Vec<usize>>),
>)
    ensures
        identifies(*command, name@) ==> (r matches Some(m) && *m.0 == *command && layers_view(
            m.1@,
        ) == seq![command.on_errors@]),
        !identifies(*command, name@) ==> r is None,
{
    if command.is_identified_by(name) {
        let mut layers: Vec<Vec<usize>> = Vec::new();
        layers.push(copy_positions(&command.on_errors));
        assert(layers_view(layers@) =~= seq![command.on_errors@]);
        Some((command, layers))
    } else {
        None
    }
}

/// Matches a group against the name a message invokes: the first command of the group
/// (depth-first) that the name identifies, with its layers of error handlers followed by
/// the group's own.
pub fn match_group<'a>(name: &str, group: &'a PrefixedCommandGroup) -> (r: Option<
    (&'a PrefixedCommand, Vec<Vec<usize>>),
>)
    ensures
        match find_prefixed(group.children@, name@) {
            None => r is None,
            Some(f) => r matches Some(m) && *m.0 == f.0 && layers_view(m.1@) == f.1.push(
                group.on_errors@,
            ),
        },
    decreases group,
{
    proof {
        assert(decreases_to!(group => group.children@));
    }
    match find_command(name, group.children.as_slice()) {
        Some((command, layers)) => {
            let mut layers = layers;
            let ghost before = layers@;
            layers.push(copy_positions(&group.on_errors));
            assert(layers_view(layers@) =~= layers_view(before).push(group.on_errors@));
            Some((command, layers))
        },
        None => None,
    }
}

/// Finds the first command (depth-first, in order) among `nodes` that `name` invokes,
/// with the layers of error handlers that apply to it.
pub fn find_command<'a>(name: &str, nodes: &'a [CommandNode]) -> (r: Option<
    (&'a PrefixedCommand, Vec<Vec<usize>>),
>)
    ensures
        match find_prefixed(nodes@, name@) {
            None => r is None,
            Some(f) => r matches Some(m) && *m.0 == f.0 && layers_view(m.1@) == f.1,
        },
    decreases nodes@,
{
    let mut i: usize = 0;
    assert(nodes@.skip(0) =~= nodes@);
    while i < nodes.len()
        invariant
            i <= nodes.len(),
            find_prefixed(nodes@, name@) == find_prefixed(nodes@.skip(i as int), name@),
        decreases nodes.len() - i,
    {
        let ghost rest = nodes@.skip(i as int);
        assert(rest[0] == nodes@[i as int]);
        assert(rest.drop_first() =~= nodes@.skip(i + 1));
        let found = match &nodes[i] {
            CommandNode::PrefixedCommand(command) => match_command(name, command),
            CommandNode::PrefixedCommandGroup(group) => {
                proof {
                    assert(decreases_to!(nodes@ => *group));
                }
                match_group(name, group)
            },
            _ => None,
        };
        if found.is_some() {
            return found;
        }
        i += 1;
    }
    proof {
        found_none(nodes@, name@, i as int);
    }
    None
}

proof fn found_none(nodes: Seq<CommandNode>, name: Seq<char>, i: int)
    requires
        i == nodes.len(),
        find_prefixed(nodes, name) == find_prefixed(nodes.skip(i), name),
    ensures
        find_prefixed(nodes, name) is None,
{
    assert(nodes.skip(i) =~= Seq::<CommandNode>::empty());
}

/// The parts of the message a prefix splits out, when the message invokes a command
/// with that prefix.
pub open spec fn prefix_matches(prefix: Seq<char>, content: Seq<char>, nodes: Seq<CommandNode>) -> bool {
    parse_spec(prefix, content) matches Some(parts) && find_prefixed(nodes, parts.0) is Some
}

/// The position of the first prefix, from `p` on, with which the message invokes a
/// command.
pub open spec fn first_matching_prefix(
    prefixes: Seq<String>,
    content: Seq<char>,
    nodes: Seq<CommandNode>,
    p: int,
) -> Option<int>
    decreases prefixes.len() - p,
{
    if p < 0 || p >= prefixes.len() {
        None
    } else if prefix_matches(prefixes[p]@, content, nodes) {
        Some(p)
    } else {
        first_matching_prefix(prefixes, content, nodes, p + 1)
    }
}

/// The prefixed command a message invokes, and how.
pub struct PrefixedRoute<'a> {
    /// The prefix the message starts with.
    pub prefix: String,
    /// The name used to invoke the command.
    pub command_name: String,
    /// The raw arguments passed to the command.
    pub command_args: String,
    /// The command to run.
    pub command: &'a PrefixedCommand,
    /// The layers of error handlers that apply to the command, innermost first (the
    /// bot's own error handlers come after them).
    pub error_layers: Vec<Vec<usize>>,
}

/// Finds the command a message invokes: the first prefix (in order) with which the
/// message names a command, and the first such command (depth-first); `None` when the
/// message invokes no command.
pub fn route_prefixed_command<'a>(
    prefixes: &Vec<String>,
    content: &str,
    commands: &'a [CommandNode],
) -> (r: Option<PrefixedRoute<'a>>)
    ensures
        match first_matching_prefix(prefixes@, content@, commands@, 0) {
            None => r is None,
            Some(p) => {
                let parts = parse_spec(prefixes@[p]@, content@).unwrap();
                let f = find_prefixed(commands@, parts.0).unwrap();
                &&& r matches Some(route)
                &&& route.prefix@ == prefixes@[p]@
                &&& route.command_name@ == parts.0
                &&& route.command_args@ == parts.1
                &&& *route.command == f.0
                &&& layers_view(route.error_layers@) == f.1
            },
        },
{
    let mut p: usize = 0;
    while p < prefixes.len()
        invariant
            p <= prefixes.len(),
            first_matching_prefix(prefixes@, content@, commands@, 0) == first_matching_prefix(
                prefixes@,
                content@,
                commands@,
                p as int,
            ),
        decreases prefixes.len() - p,
    {
        let prefix = prefixes[p].as_str();
        if let Some(parts) = parse(prefix, content) {
            if let Some((command, error_layers)) = find_command(parts.command_name, commands) {
                return Some(
                    PrefixedRoute {
                        prefix: parts.prefix.to_owned(),
                        command_name: parts.command_name.to_owned(),
                        command_args: parts.command_args.to_owned(),
                        command,
                        error_layers,
                    },
                );
            }
        }
        p += 1;
    }
    None
}

/// What a message leads to, once the prefix getter has answered.
pub enum PrefixedDispatch<'a> {
    /// The prefix getter failed: no command runs, and the error goes to the bot's own
    /// error handlers alone.
    PrefixesFailed(DyncordError, Vec<Vec<usize>>),
    /// The message invokes a command: it is run, and an error it returns goes through the
    /// given layers of error handlers (the command's, its groups' from the innermost out,
    /// then the bot's).
    Run(PrefixedRoute<'a>, Vec<Vec<usize>>),
    /// The message invokes no command.
    Nothing,
}

/// Decides what a message does given what the prefix getter returned: a failure is
/// reported to the bot's own error handlers as a prefixes error; otherwise the message is
/// routed, and a routed command gets the bot's layer after its own.
pub fn dispatch_prefixed<'a>(
    prefixes: Result<Vec<String>, RuntimeError>,
    content: &str,
    commands: &'a [CommandNode],
    bot_on_errors: &Vec<usize>,
) -> (r: PrefixedDispatch<'a>)
    ensures
        match prefixes {
            Err(e) => r matches PrefixedDispatch::PrefixesFailed(error, layers) && error
                == DyncordError::Command(CommandError::Prefixes(e)) && layers_view(layers@)
                == seq![bot_on_errors@],
            Ok(ps) => match first_matching_prefix(ps@, content@, commands@, 0) {
                None => r is Nothing,
                Some(p) => {
                    let parts = parse_spec(ps@[p]@, content@).unwrap();
                    let f = find_prefixed(commands@, parts.0).unwrap();
                    &&& r matches PrefixedDispatch::Run(route, layers)
                    &&& route.prefix@ == ps@[p]@
                    &&& route.command_name@ == parts.0
                    &&& route.command_args@ == parts.1
                    &&& *route.command == f.0
                    &&& layers_view(route.error_layers@) == f.1
                    &&& layers_view(layers@) == f.1.push(bot_on_errors@)
                },
            },
        },
{
    match prefixes {
        Err(e) => {
            let layers = with_bot_layer(Vec::new(), bot_on_errors);
            assert(layers_view(Seq::<Vec<usize>>::empty()) =~= Seq::<Seq<usize>>::empty());
            assert(Seq::<Seq<usize>>::empty().push(bot_on_errors@) =~= seq![bot_on_errors@]);
            PrefixedDispatch::PrefixesFailed(DyncordError::Command(CommandError::Prefixes(e)), layers)
        },
        Ok(ps) => match route_prefixed_command(&ps, content, commands) {
            None => PrefixedDispatch::Nothing,
            Some(route) => {
                let mut own: Vec<Vec<usize>> = Vec::new();
                let mut k: usize = 0;
                while k < route.error_layers.len()
                    invariant
                        k <= route.error_layers.len(),
                        own@.len() == k,
                        forall|j: int| 0 <= j < k ==> (#[trigger] own@[j])@ == route.error_layers@[j]@,
                    decreases route.error_layers.len() - k,
                {
                    own.push(copy_positions(&route.error_layers[k]));
                    k += 1;
                }
                assert(layers_view(own@) =~= layers_view(route.error_layers@));
                let layers = with_bot_layer(own, bot_on_errors);
                PrefixedDispatch::Run(route, layers)
            },
        },
    }
}

/// The command a name routes to answers to that name (it is the command's name or one of its
/// aliases), its own error handlers form the innermost layer, and there is one more layer
/// for each enclosing group.
pub proof fn law_routed_command_answers_to_name(nodes: Seq<CommandNode>, name: Seq<char>)
    requires
        find_prefixed(nodes, name) is Some,
    ensures
        identifies(find_prefixed(nodes, name).unwrap().0, name),
        find_prefixed(nodes, name).unwrap().1.len() >= 1,
        find_prefixed(nodes, name).unwrap().1[0] == find_prefixed(nodes, name).unwrap().0.on_errors@,
    decreases nodes,
{
    if nodes.len() > 0 {
        match nodes[0] {
            CommandNode::PrefixedCommandGroup(g) => {
                assert(decreases_to!(nodes => g.children@));
                if find_prefixed(g.children@, name) is Some {
                    law_routed_command_answers_to_name(g.children@, name);
                    return;
                }
            },
            _ => {},
        }
        let here_none = match nodes[0] {
            CommandNode::PrefixedCommand(c) => !identifies(c, name),
            CommandNode::PrefixedCommandGroup(g) => find_prefixed(g.children@, name) is None,
            _ => true,
        };
        if here_none {
            assert(decreases_to!(nodes => nodes.drop_first()));
            law_routed_command_answers_to_name(nodes.drop_first(), name);
        }
    }
}

/// Routing looks at the prefixes in order: a message is routed with a prefix only when no
/// earlier prefix invokes a command.
pub proof fn law_first_matching_prefix_wins(
    prefixes: Seq<String>,
    content: Seq<char>,
    nodes: Seq<CommandNode>,
)
    requires
        first_matching_prefix(prefixes, content, nodes, 0) is Some,
    ensures
        ({
            let p = first_matching_prefix(prefixes, content, nodes, 0).unwrap();
            &&& 0 <= p < prefixes.len()
            &&& prefix_matches(prefixes[p]@, content, nodes)
            &&& forall|q: int| 0 <= q < p ==> !prefix_matches(#[trigger] prefixes[q]@, content, nodes)
        }),
{
    lemma_first_matching_prefix(prefixes, content, nodes, 0);
}

proof fn lemma_first_matching_prefix(
    prefixes: Seq<String>,
    content: Seq<char>,
    nodes: Seq<CommandNode>,
    start: int,
)
    requires
        0 <= start,
    ensures
        first_matching_prefix(prefixes, content, nodes, start) matches Some(p) ==> {
            &&& start <= p < prefixes.len()
            &&& prefix_matches(prefixes[p]@, content, nodes)
            &&& forall|q: int|
                start <= q < p ==> !prefix_matches(#[trigger] prefixes[q]@, content, nodes)
        },
    decreases prefixes.len() - start,
{
    if start < prefixes.len() && !prefix_matches(prefixes[start]@, content, nodes) {
        lemma_first_matching_prefix(prefixes, content, nodes, start + 1);
    }
}

/// Groups do not change which command a name runs: a group standing alone routes a name to
/// the command its children route it to, and only adds the group's error handlers as one
/// more layer.
pub proof fn law_groups_do_not_change_routing(group: PrefixedCommandGroup, name: Seq<char>)
    ensures
        ({
            let alone = find_prefixed(seq![CommandNode::PrefixedCommandGroup(group)], name);
            match find_prefixed(group.children@, name) {
                None => alone is None,
                Some(f) => alone == Some((f.0, f.1.push(group.on_errors@))),
            }
        }),
{
    let nodes = seq![CommandNode::PrefixedCommandGroup(group)];
    assert(nodes[0] == CommandNode::PrefixedCommandGroup(group));
    assert(nodes.drop_first() =~= Seq::<CommandNode>::empty());
    assert(find_prefixed(Seq::<CommandNode>::empty(), name) is None);
}


/// The prefixed commands a node contributes to the flattened list of the tree.
pub open spec fn prefixed_of_node(node: CommandNode) -> Seq<PrefixedCommand> {
    match node {
        CommandNode::PrefixedCommand(c) => seq![c],
        CommandNode::PrefixedCommandGroup(g) => spec_flatten_prefixed(g.children@),
        _ => seq![],
    }
}

proof fn lemma_flatten_prefixed_first(nodes: Seq<CommandNode>)
    requires
        nodes.len() > 0,
    ensures
        spec_flatten_prefixed(nodes) == prefixed_of_node(nodes[0]) + spec_flatten_prefixed(
            nodes.drop_first(),
        ),
    decreases nodes.len(),
{
    let d = nodes.drop_last();
    assert(spec_flatten_prefixed(nodes) == spec_flatten_prefixed(d) + prefixed_of_node(
        nodes[nodes.len() - 1],
    ));
    if nodes.len() == 1 {
        assert(d =~= Seq::<CommandNode>::empty());
        assert(nodes.drop_first() =~= Seq::<CommandNode>::empty());
        assert(spec_flatten_prefixed(d) =~= Seq::<PrefixedCommand>::empty());
        assert(spec_flatten_prefixed(nodes.drop_first()) =~= Seq::<PrefixedCommand>::empty());
        assert(spec_flatten_prefixed(nodes) =~= prefixed_of_node(nodes[0])
            + spec_flatten_prefixed(nodes.drop_first()));
    } else {
        lemma_flatten_prefixed_first(d);
        assert(d[0] == nodes[0]);
        let r = nodes.drop_first();
        assert(d.drop_first() =~= r.drop_last());
        assert(r[r.len() - 1] == nodes[nodes.len() - 1]);
        assert(spec_flatten_prefixed(r) == spec_flatten_prefixed(r.drop_last()) + prefixed_of_node(
            r[r.len() - 1],
        ));
        assert(spec_flatten_prefixed(nodes) =~= prefixed_of_node(nodes[0])
            + spec_flatten_prefixed(nodes.drop_first()));
    }
}

/// Routing misses no command: when some prefixed command of the tree, at any depth inside
/// prefixed command groups, answers to the name, the name is routed to a command.
pub proof fn law_routing_finds_every_prefixed_command(
    nodes: Seq<CommandNode>,
    name: Seq<char>,
    k: int,
)
    requires
        0 <= k < spec_flatten_prefixed(nodes).len(),
        identifies(spec_flatten_prefixed(nodes)[k], name),
    ensures
        find_prefixed(nodes, name) is Some,
    decreases nodes,
{
    lemma_flatten_prefixed_first(nodes);
    let f0 = prefixed_of_node(nodes[0]);
    let rest = nodes.drop_first();
    if k < f0.len() {
        match nodes[0] {
            CommandNode::PrefixedCommand(c) => {
                assert(f0[k] == c);
            },
            CommandNode::PrefixedCommandGroup(g) => {
                assert(decreases_to!(nodes => g.children@));
                assert(spec_flatten_prefixed(nodes)[k] == spec_flatten_prefixed(g.children@)[k]);
                law_routing_finds_every_prefixed_command(g.children@, name, k);
            },
            _ => {},
        }
    } else {
        assert(decreases_to!(nodes => rest));
        assert(spec_flatten_prefixed(nodes)[k] == spec_flatten_prefixed(rest)[k - f0.len()]);
        law_routing_finds_every_prefixed_command(rest, name, k - f0.len());
    }
}

/// A name is routed to the first command, in the order of the flattened tree (depth-first,
/// groups in place), that answers to it: the routed command is in the tree, answers to the
/// name, and no command before it does.
pub proof fn law_routing_picks_first_prefixed_command(nodes: Seq<CommandNode>, name: Seq<char>)
    ensures
        find_prefixed(nodes, name) matches Some(f) ==> exists|k: int|
            0 <= k < spec_flatten_prefixed(nodes).len() && spec_flatten_prefixed(nodes)[k] == f.0
                && identifies(f.0, name) && forall|j: int|
                0 <= j < k ==> !identifies(#[trigger] spec_flatten_prefixed(nodes)[j], name),
    decreases nodes,
{
    if nodes.len() == 0 {
        return;
    }
    lemma_flatten_prefixed_first(nodes);
    let flat = spec_flatten_prefixed(nodes);
    let f0 = prefixed_of_node(nodes[0]);
    let rest = nodes.drop_first();
    assert(decreases_to!(nodes => rest));
    match nodes[0] {
        CommandNode::PrefixedCommand(c) => {
            if identifies(c, name) {
                assert(flat[0] == c);
                return;
            }
        },
        CommandNode::PrefixedCommandGroup(g) => {
            assert(decreases_to!(nodes => g.children@));
            let sub = spec_flatten_prefixed(g.children@);
            if let Some(f) = find_prefixed(g.children@, name) {
                law_routing_picks_first_prefixed_command(g.children@, name);
                let k = choose|k: int|
                    0 <= k < sub.len() && sub[k] == f.0 && identifies(f.0, name) && forall|j: int|
                        0 <= j < k ==> !identifies(#[trigger] sub[j], name);
                assert(flat[k] == sub[k]);
                assert forall|j: int| 0 <= j < k implies !identifies(#[trigger] flat[j], name) by {
                    assert(flat[j] == sub[j]);
                }
                return;
            } else {
                assert forall|j: int| 0 <= j < sub.len() implies !identifies(#[trigger] sub[j], name) by {
                    if identifies(sub[j], name) {
                        law_routing_finds_every_prefixed_command(g.children@, name, j);
                    }
                }
            }
        },
        _ => {},
    }
    assert(forall|j: int| 0 <= j < f0.len() ==> !identifies(#[trigger] f0[j], name));
    assert(find_prefixed(nodes, name) == find_prefixed(rest, name));
    if let Some(f) = find_prefixed(rest, name) {
        law_routing_picks_first_prefixed_command(rest, name);
        let r = spec_flatten_prefixed(rest);
        let k = choose|k: int|
            0 <= k < r.len() && r[k] == f.0 && identifies(f.0, name) && forall|j: int|
                0 <= j < k ==> !identifies(#[trigger] r[j], name);
        assert(flat[f0.len() + k] == r[k]);
        assert forall|j: int| 0 <= j < f0.len() + k implies !identifies(#[trigger] flat[j], name) by {
            if j < f0.len() {
                assert(flat[j] == f0[j]);
            } else {
                assert(flat[j] == r[j - f0.len()]);
            }
        }
    }
}

} // verus!
