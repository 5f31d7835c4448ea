//! Splitting a message into its prefix, command name and raw arguments.

use vstd::prelude::*;

use crate::text::chars_of;

verus! {

/// The parts of a prefixed command invocation.
pub struct CommandParts<'a> {
    /// The prefix the message starts with.
    pub prefix: &'a str,
    /// The command's name: the text after the prefix up to the first space.
    pub command_name: &'a str,
    /// The raw arguments: the text after that first space (empty without one).
    pub command_args: &'a str,
}

/// The index of the first occurrence of `c` in `s` at or after `i`.
pub open spec fn find_char(s: Seq<char>, c: char, i: int) -> Option<int>
    decreases s.len() - i,
{
    if i >= s.len() {
        None
    } else if s[i] == c {
        Some(i)
    } else {
        find_char(s, c, i + 1)
    }
}

/// The command name and raw arguments of `message` when it starts with `prefix`.
pub open spec fn parse_spec(prefix: Seq<char>, message: Seq<char>) -> Option<
    (Seq<char>, Seq<char>),
> {
    if prefix.is_prefix_of(message) {
        let rest = message.skip(prefix.len() as int);
        match find_char(rest, ' ', 0) {
            Some(k) => Some((rest.take(k), rest.skip(k + 1))),
            None => Some((rest, Seq::<char>::empty())),
        }
    } else {
        None
    }
}

/// The first occurrence of `c` found from `i` lies at or after `i` and holds `c`.
pub proof fn lemma_find_char_bounds(s: Seq<char>, c: char, i: int)
    requires
        0 <= i,
    ensures
        find_char(s, c, i) matches Some(k) ==> i <= k < s.len() && s[k] == c,
    decreases s.len() - i,
{
    if i < s.len() && s[i] != c {
        lemma_find_char_bounds(s, c, i + 1);
    }
}

/// Parses a message into its command parts, if the message starts with the given prefix.
///
/// For example, if the prefix is `.` and the message is `.echo Hello, world!`, the parts are
/// the prefix `.`, the command name `echo` and the raw arguments `Hello, world!`.
pub fn parse<'a, 'b>(prefix: &'a str, message: &'b str) -> (r: Option<CommandParts<'b>>) where
    'a: 'b,

    ensures
        match parse_spec(prefix@, message@) {
            None => r is None,
            Some(p) => r matches Some(parts) && parts.prefix@ == prefix@
                && parts.command_name@ == p.0 && parts.command_args@ == p.1,
        },
{
    let pchars = chars_of(prefix);
    let mchars = chars_of(message);
    if pchars.len() > mchars.len() {
        return None;
    }
    let mut k: usize = 0;
    while k < pchars.len()
        invariant
            k <= pchars.len() <= mchars.len(),
            pchars@ == prefix@,
            mchars@ == message@,
            forall|j: int| 0 <= j < k ==> pchars@[j] == mchars@[j],
        decreases pchars.len() - k,
    {
        if pchars[k] != mchars[k] {
            proof {
                if prefix@.is_prefix_of(message@) {
                    assert(message@.take(prefix@.len() as int)[k as int] == message@[k as int]);
                }
            }
            return None;
        }
        k += 1;
    }
    assert(prefix@.is_prefix_of(message@));
    let start = pchars.len();
    let ghost rest = message@.skip(start as int);
    let mut j: usize = start;
    while j < mchars.len() && mchars[j] != ' '
        invariant
            start <= j <= mchars.len(),
            mchars@ == message@,
            start <= message@.len(),
            rest == message@.skip(start as int),
            find_char(rest, ' ', 0) == find_char(rest, ' ', (j - start) as int),
        decreases mchars.len() - j,
    {
        j += 1;
    }
    proof {
        lemma_find_char_bounds(rest, ' ', 0);
    }
    if j < mchars.len() {
        let command_name = message.substring_char(start, j);
        let command_args = message.substring_char(j + 1, mchars.len());
        assert(command_name@ =~= rest.take((j - start) as int));
        assert(command_args@ =~= rest.skip((j - start) as int + 1));
        Some(CommandParts { prefix, command_name, command_args })
    } else {
        let command_name = message.substring_char(start, mchars.len());
        let command_args = message.substring_char(mchars.len(), mchars.len());
        assert(command_name@ =~= rest);
        assert(command_args@ =~= Seq::<char>::empty());
        Some(CommandParts { prefix, command_name, command_args })
    }
}

/// A message that parses with a prefix is made of that prefix, the command name (which holds
/// no space) and, when a space follows the name, that space and the raw arguments; without
/// such a space the raw arguments are empty.
pub proof fn law_parse_reassembles_message(prefix: Seq<char>, message: Seq<char>)
    requires
        parse_spec(prefix, message) is Some,
    ensures
        ({
            let (name, args) = parse_spec(prefix, message).unwrap();
            &&& !name.contains(' ')
            &&& (message == prefix + name + seq![' '] + args || (message == prefix + name
                && args.len() == 0))
        }),
{
    let rest = message.skip(prefix.len() as int);
    assert(message =~= prefix + rest);
    lemma_find_char_bounds(rest, ' ', 0);
    lemma_find_char_first(rest, ' ', 0);
    match find_char(rest, ' ', 0) {
        Some(k) => {
            assert(rest =~= rest.take(k) + seq![' '] + rest.skip(k + 1));
            assert(message =~= prefix + rest.take(k) + seq![' '] + rest.skip(k + 1));
            assert forall|j: int| 0 <= j < rest.take(k).len() implies rest.take(k)[j] != ' ' by {
                assert(rest.take(k)[j] == rest[j]);
            }
        },
        None => {
            assert forall|j: int| 0 <= j < rest.len() implies rest[j] != ' ' by {}
        },
    }
}

/// No occurrence of `c` lies between `i` and the first one found from `i` (or the end).
pub proof fn lemma_find_char_first(s: Seq<char>, c: char, i: int)
    requires
        0 <= i,
    ensures
        forall|j: int|
            i <= j < s.len() && (find_char(s, c, i) matches Some(k) ==> j < k) ==> s[j] != c,
    decreases s.len() - i,
{
    if i < s.len() && s[i] != c {
        lemma_find_char_first(s, c, i + 1);
    }
}

} // verus!
