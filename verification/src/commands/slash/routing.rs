//! Finding the slash command an interaction invokes.

use vstd::prelude::*;

use crate::commands::slash::SlashCommand;
use crate::commands::{flatten_slash, spec_flatten_slash, CommandNode};

verus! {

/// The position of the first command named `name` in `commands`.
pub open spec fn first_named(commands: Seq<SlashCommand>, name: Seq<char>, k: int) -> Option<int>
    decreases commands.len() - k,
{
    if k < 0 || k >= commands.len() {
        None
    } else if commands[k].name@ == name {
        Some(k)
    } else {
        first_named(commands, name, k + 1)
    }
}

/// Finds the slash command an interaction invokes: the first command named `name` among
/// the flattened slash commands of the tree.
pub fn route_slash_command<'a>(name: &str, nodes: &'a [CommandNode]) -> (r: Option<&'a SlashCommand>)
    ensures
        match first_named(spec_flatten_slash(nodes@), name@, 0) {
            None => r is None,
            Some(k) => r matches Some(c) && *c == spec_flatten_slash(nodes@)[k],
        },
{
    let commands = flatten_slash(nodes);
    let ghost flat = spec_flatten_slash(nodes@);
    assert(commands@.len() == flat.len() && forall|j: int|
        0 <= j < flat.len() ==> *commands@[j] == flat[j]) by {
        assert forall|j: int| 0 <= j < flat.len() implies *commands@[j] == flat[j] by {
            assert(commands@.map_values(|c: &SlashCommand| *c)[j] == *commands@[j]);
        }
    }
    let mut k: usize = 0;
    while k < commands.len()
        invariant
            k <= commands.len(),
            commands@.len() == flat.len(),
            flat == spec_flatten_slash(nodes@),
            forall|j: int| 0 <= j < flat.len() ==> *commands@[j] == flat[j],
            first_named(flat, name@, 0) == first_named(flat, name@, k as int),
        decreases commands.len() - k,
    {
        if crate::text::str_eq(commands[k].name.as_str(), name) {
            assert(flat[k as int].name@ == name@);
            assert(first_named(flat, name@, k as int) == Some(k as int));
            return Some(commands[k]);
        }
        k += 1;
    }
    None
}


/// A name is routed to the first command with that name: a command is found whenever one
/// has the name, and the one found has the name while no command before it does.
pub proof fn law_slash_routing_picks_first_named(commands: Seq<SlashCommand>, name: Seq<char>)
    ensures
        (exists|k: int| 0 <= k < commands.len() && (#[trigger] commands[k]).name@ == name)
            ==> first_named(commands, name, 0) is Some,
        first_named(commands, name, 0) matches Some(k) ==> {
            &&& 0 <= k < commands.len()
            &&& commands[k].name@ == name
            &&& forall|j: int| 0 <= j < k ==> (#[trigger] commands[j]).name@ != name
        },
{
    lemma_first_named(commands, name, 0);
}

proof fn lemma_first_named(commands: Seq<SlashCommand>, name: Seq<char>, start: int)
    requires
        0 <= start,
    ensures
        (exists|k: int| start <= k < commands.len() && (#[trigger] commands[k]).name@ == name)
            ==> first_named(commands, name, start) is Some,
        first_named(commands, name, start) matches Some(k) ==> {
            &&& start <= k < commands.len()
            &&& commands[k].name@ == name
            &&& forall|j: int| start <= j < k ==> (#[trigger] commands[j]).name@ != name
        },
    decreases commands.len() - start,
{
    if start < commands.len() {
        lemma_first_named(commands, name, start + 1);
        if commands[start].name@ != name {
            if exists|k: int| start <= k < commands.len() && (#[trigger] commands[k]).name@ == name {
                let k = choose|k: int|
                    start <= k < commands.len() && (#[trigger] commands[k]).name@ == name;
                assert(k != start);
                assert(start + 1 <= k);
            }
        }
    }
}

} // verus!
