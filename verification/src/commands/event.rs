//! The first-generation routing of messages to commands: by exact command name, with no
//! aliases and no groups.

use vstd::prelude::*;

use crate::commands::prefixed::parsing::{parse, parse_spec};

verus! {

/// The position of the first command named `name` among `names`, from `k` on.
pub open spec fn first_with_name(names: Seq<String>, name: Seq<char>, k: int) -> Option<int>
    decreases names.len() - k,
{
    if k < 0 || k >= names.len() {
        None
    } else if names[k]@ == name {
        Some(k)
    } else {
        first_with_name(names, name, k + 1)
    }
}

/// The prefix and the command a message invokes: the first prefix (from `p` on) with which
/// the message's command name is the name of some command, and the first such command.
pub open spec fn message_route(prefixes: Seq<String>, content: Seq<char>, names: Seq<String>, p: int) -> Option<
    (int, int),
>
    decreases prefixes.len() - p,
{
    if p < 0 || p >= prefixes.len() {
        None
    } else {
        match parse_spec(prefixes[p]@, content) {
            Some(parts) => match first_with_name(names, parts.0, 0) {
                Some(c) => Some((p, c)),
                None => message_route(prefixes, content, names, p + 1),
            },
            None => message_route(prefixes, content, names, p + 1),
        }
    }
}

fn find_name(names: &Vec<String>, name: &str) -> (r: Option<usize>)
    ensures
        match first_with_name(names@, name@, 0) {
            None => r is None,
            Some(k) => r == Some(k as usize),
        },
{
    let mut k: usize = 0;
    while k < names.len()
        invariant
            k <= names.len(),
            first_with_name(names@, name@, 0) == first_with_name(names@, name@, k as int),
        decreases names.len() - k,
    {
        if crate::text::str_eq(names[k].as_str(), name) {
            return Some(k);
        }
        k += 1;
    }
    None
}

/// Finds the command a message invokes: for each prefix in order, the message is split into
/// a command name and raw arguments, and the first command with exactly that name is run;
/// returns the positions of the prefix and of the command.
pub fn route_message(prefixes: &Vec<String>, content: &str, command_names: &Vec<String>) -> (r: Option<
    (usize, usize),
>)
    ensures
        match message_route(prefixes@, content@, command_names@, 0) {
            None => r is None,
            Some((p, c)) => r == Some((p as usize, c as usize)),
        },
{
    let mut p: usize = 0;
    while p < prefixes.len()
        invariant
            p <= prefixes.len(),
            message_route(prefixes@, content@, command_names@, 0) == message_route(
                prefixes@,
                content@,
                command_names@,
                p as int,
            ),
        decreases prefixes.len() - p,
    {
        match parse(prefixes[p].as_str(), content) {
            Some(parts) => match find_name(command_names, parts.command_name) {
                Some(c) => {
                    return Some((p, c));
                },
                None => {},
            },
            None => {},
        }
        p += 1;
    }
    None
}

} // verus!
