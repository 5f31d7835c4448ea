//! The first-generation argument readers: one argument is the text up to the next space.
//!
//! These readers split the raw arguments at the first space after the leading white space,
//! with no quoting; the command tokenizer in [`crate::commands::prefixed::arguments`]
//! supersedes them for prefixed commands.

use vstd::prelude::*;

use crate::commands::prefixed::arguments::{bool_word, lemma_leading_whitespace_prefix, read_bool_word};
use crate::commands::prefixed::parsing::{find_char, lemma_find_char_bounds};
use crate::numbers::{parse_signed, parse_signed_between, parse_unsigned, parse_unsigned_up_to};
use crate::text::{chars_of, count_leading_whitespace, is_whitespace, trim_start};

verus! {

/// An error occurred while parsing an argument for a command.
#[derive(Debug, Clone, Copy, PartialEq, Eq, Structural)]
pub enum ParsingError {
    /// The argument provided is invalid.
    InvalidArgument,
    /// Not enough arguments were provided.
    MissingArgument,
}

/// The argument read from `args` and the raw arguments that remain: leading white space is
/// skipped and the text is cut at the first space; without a space the whole of `args`
/// (leading white space included) is the argument, and an empty `args` has none.
pub open spec fn split_argument_spec(args: Seq<char>) -> Option<(Seq<char>, Seq<char>)> {
    let t = trim_start(args);
    match find_char(t, ' ', 0) {
        Some(k) => Some((t.take(k), t.skip(k + 1))),
        None => if args.len() == 0 {
            None
        } else {
            Some((args, Seq::<char>::empty()))
        },
    }
}

/// A word after any white space is read as the argument, up to the first space: with a
/// space after the word, the remaining text is what follows that space; without one, the
/// whole text (its leading white space included) is the argument and nothing remains.
///
/// For example `  hello world` gives `hello` and leaves `world`.
pub proof fn law_first_word_is_split_off(ws: Seq<char>, w: Seq<char>, rest: Seq<char>)
    requires
        forall|i: int| 0 <= i < ws.len() ==> is_whitespace(#[trigger] ws[i]),
        w.len() > 0,
        !w.contains(' '),
        !is_whitespace(w[0]),
    ensures
        split_argument_spec(ws + w + seq![' '] + rest) == Some((w, rest)),
        split_argument_spec(ws + w) == Some((ws + w, Seq::<char>::empty())),
{
    let t = w + seq![' '] + rest;
    assert(ws + w + seq![' '] + rest =~= ws + t);
    assert(t[0] == w[0]);
    lemma_leading_whitespace_prefix(ws, t);
    assert(trim_start(ws + t) =~= t);
    assert forall|j: int| 0 <= j < w.len() implies t[j] != ' ' by {
        assert(t[j] == w[j]);
        if w[j] == ' ' {
            assert(w.contains(' '));
        }
    }
    lemma_find_char_at(t, ' ', 0, w.len() as int);
    assert(t.take(w.len() as int) =~= w);
    assert(t.skip(w.len() + 1int) =~= rest);
    lemma_leading_whitespace_prefix(ws, w);
    assert(trim_start(ws + w) =~= w);
    assert forall|j: int| 0 <= j < w.len() implies w[j] != ' ' by {
        if w[j] == ' ' {
            assert(w.contains(' '));
        }
    }
    lemma_find_char_at(w, ' ', 0, w.len() as int);
    assert((ws + w).len() > 0);
}

/// The search for `c` from `i` stops at the first occurrence `k`, or finds nothing when
/// `k` is the end.
proof fn lemma_find_char_at(s: Seq<char>, c: char, i: int, k: int)
    requires
        0 <= i <= k <= s.len(),
        k == s.len() || s[k] == c,
        forall|j: int| i <= j < k ==> s[j] != c,
    ensures
        find_char(s, c, i) == (if k == s.len() {
            None
        } else {
            Some(k)
        }),
    decreases k - i,
{
    if i < k {
        lemma_find_char_at(s, c, i + 1, k);
    }
}

/// Reads a string argument: the text up to the first space after the leading white space.
///
/// For example `hello world` gives `hello` and leaves `world`; `hello` gives `hello` and
/// leaves nothing. Fails with [`ParsingError::MissingArgument`] when `args` is empty.
pub fn string_argument(args: &str) -> (r: Result<(String, String), ParsingError>)
    ensures
        match split_argument_spec(args@) {
            None => r == Err::<(String, String), ParsingError>(ParsingError::MissingArgument),
            Some(p) => r matches Ok(v) && v.0@ == p.0 && v.1@ == p.1,
        },
{
    let chars = chars_of(args);
    let n = count_leading_whitespace(chars.as_slice());
    let ghost t = trim_start(args@);
    assert(args@.skip(n as int) =~= t);
    let mut j: usize = n;
    while j < chars.len() && chars[j] != ' '
        invariant
            n <= j <= chars.len(),
            chars@ == args@,
            n <= args@.len(),
            t == args@.skip(n as int),
            find_char(t, ' ', 0) == find_char(t, ' ', (j - n) as int),
        decreases chars.len() - j,
    {
        j += 1;
    }
    proof {
        lemma_find_char_bounds(t, ' ', 0);
    }
    if j < chars.len() {
        let argument = args.substring_char(n, j);
        let remaining = args.substring_char(j + 1, chars.len());
        assert(argument@ =~= t.take((j - n) as int));
        assert(remaining@ =~= t.skip((j - n) as int + 1));
        Ok((argument.to_owned(), remaining.to_owned()))
    } else if chars.len() == 0 {
        Err(ParsingError::MissingArgument)
    } else {
        Ok((args.to_owned(), String::new()))
    }
}

/// Takes all remaining raw arguments as a single string argument.
pub struct GreedyString(pub String);

/// Reads a [`GreedyString`]: all of `args` without its leading white space; nothing remains.
pub fn greedy_string_argument(args: &str) -> (r: (GreedyString, String))
    ensures
        r.0.0@ == trim_start(args@),
        r.1@ == Seq::<char>::empty(),
{
    let chars = chars_of(args);
    let n = count_leading_whitespace(chars.as_slice());
    let trimmed = args.substring_char(n, chars.len());
    assert(trimmed@ =~= trim_start(args@));
    (GreedyString(trimmed.to_owned()), String::new())
}

/// Reads a `char` argument: a string argument made of exactly one character;
/// [`ParsingError::InvalidArgument`] otherwise.
pub fn char_argument(args: &str) -> (r: Result<(char, String), ParsingError>)
    ensures
        match split_argument_spec(args@) {
            None => r == Err::<(char, String), ParsingError>(ParsingError::MissingArgument),
            Some(p) => if p.0.len() == 1 {
                r matches Ok(x) && x.0 == p.0[0] && x.1@ == p.1
            } else {
                r == Err::<(char, String), ParsingError>(ParsingError::InvalidArgument)
            },
        },
{
    let (arg, remaining) = match string_argument(args) {
        Ok(v) => v,
        Err(e) => {
            return Err(e);
        },
    };
    let chars = chars_of(arg.as_str());
    if chars.len() == 1 {
        Ok((chars[0], remaining))
    } else {
        Err(ParsingError::InvalidArgument)
    }
}

/// Reads a `bool` argument: one of the words of [`bool_word`], in any case;
/// [`ParsingError::InvalidArgument`] for any other word.
pub fn bool_argument(args: &str) -> (r: Result<(bool, String), ParsingError>)
    ensures
        match split_argument_spec(args@) {
            None => r == Err::<(bool, String), ParsingError>(ParsingError::MissingArgument),
            Some(p) => match bool_word(p.0) {
                Some(b) => r matches Ok(x) && x.0 == b && x.1@ == p.1,
                None => r == Err::<(bool, String), ParsingError>(ParsingError::InvalidArgument),
            },
        },
{
    let (arg, remaining) = match string_argument(args) {
        Ok(v) => v,
        Err(e) => {
            return Err(e);
        },
    };
    let chars = chars_of(arg.as_str());
    match read_bool_word(chars.as_slice()) {
        Some(b) => Ok((b, remaining)),
        None => Err(ParsingError::InvalidArgument),
    }
}

/// Makes an argument optional: a successfully read argument `a` with remaining text `r`
/// gives `(Some(a), r)`; a failure gives `None` and leaves the raw arguments untouched.
pub fn optional_argument<T>(result: Result<(T, String), ParsingError>, args: String) -> (r: (
    Option<T>,
    String,
))
    ensures
        match result {
            Ok(p) => r.0 == Some(p.0) && r.1 == p.1,
            Err(_) => r.0 is None && r.1 == args,
        },
{
    match result {
        Ok((argument, remaining)) => (Some(argument), remaining),
        Err(_) => (None, args),
    }
}

/// The integer argument read from `args` when it lies between `min` and `max`: the string
/// argument read as an integer; [`ParsingError::MissingArgument`] when there is no argument
/// and [`ParsingError::InvalidArgument`] when it is not an integer in range.
pub open spec fn integer_argument_spec(args: Seq<char>, min: int, max: int) -> Result<
    (int, Seq<char>),
    ParsingError,
> {
    match split_argument_spec(args) {
        None => Err(ParsingError::MissingArgument),
        Some(p) => match (if min < 0 {
            parse_signed(p.0, min, max)
        } else {
            parse_unsigned(p.0, max)
        }) {
            Some(v) => Ok((v, p.1)),
            None => Err(ParsingError::InvalidArgument),
        },
    }
}

fn unsigned_argument(args: &str, max: u128) -> (r: Result<(u128, String), ParsingError>)
    ensures
        match integer_argument_spec(args@, 0, max as int) {
            Ok(p) => r matches Ok(x) && x.0 as int == p.0 && x.1@ == p.1,
            Err(e) => r == Err::<(u128, String), ParsingError>(e),
        },
{
    let (arg, remaining) = match string_argument(args) {
        Ok(v) => v,
        Err(e) => {
            return Err(e);
        },
    };
    let chars = chars_of(arg.as_str());
    match parse_unsigned_up_to(chars.as_slice(), max) {
        Some(num) => Ok((num, remaining)),
        None => Err(ParsingError::InvalidArgument),
    }
}

fn signed_argument(args: &str, min: i128, max: i128) -> (r: Result<(i128, String), ParsingError>)
    requires
        min < 0 <= max,
    ensures
        match integer_argument_spec(args@, min as int, max as int) {
            Ok(p) => r matches Ok(x) && x.0 as int == p.0 && x.1@ == p.1,
            Err(e) => r == Err::<(i128, String), ParsingError>(e),
        },
        r matches Ok(x) ==> min <= x.0 <= max,
{
    let (arg, remaining) = match string_argument(args) {
        Ok(v) => v,
        Err(e) => {
            return Err(e);
        },
    };
    let chars = chars_of(arg.as_str());
    match parse_signed_between(chars.as_slice(), min, max) {
        Some(num) => Ok((num, remaining)),
        None => Err(ParsingError::InvalidArgument),
    }
}

/// Reads a `i8` argument: a decimal integer in the range of `i8`.
pub fn i8_argument(args: &str) -> (r: Result<(i8, String), ParsingError>)
    ensures
        match integer_argument_spec(args@, i8::MIN as int, i8::MAX as int) {
            Ok(p) => r matches Ok(x) && x.0 as int == p.0 && x.1@ == p.1,
            Err(e) => r == Err::<(i8, String), ParsingError>(e),
        },
{
    match signed_argument(args, i8::MIN as i128, i8::MAX as i128) {
        Ok((num, remaining)) => Ok((num as i8, remaining)),
        Err(e) => Err(e),
    }
}

/// Reads a `i16` argument: a decimal integer in the range of `i16`.
pub fn i16_argument(args: &str) -> (r: Result<(i16, String), ParsingError>)
    ensures
        match integer_argument_spec(args@, i16::MIN as int, i16::MAX as int) {
            Ok(p) => r matches Ok(x) && x.0 as int == p.0 && x.1@ == p.1,
            Err(e) => r == Err::<(i16, String), ParsingError>(e),
        },
{
    match signed_argument(args, i16::MIN as i128, i16::MAX as i128) {
        Ok((num, remaining)) => Ok((num as i16, remaining)),
        Err(e) => Err(e),
    }
}

/// Reads a `i32` argument: a decimal integer in the range of `i32`.
pub fn i32_argument(args: &str) -> (r: Result<(i32, String), ParsingError>)
    ensures
        match integer_argument_spec(args@, i32::MIN as int, i32::MAX as int) {
            Ok(p) => r matches Ok(x) && x.0 as int == p.0 && x.1@ == p.1,
            Err(e) => r == Err::<(i32, String), ParsingError>(e),
        },
{
    match signed_argument(args, i32::MIN as i128, i32::MAX as i128) {
        Ok((num, remaining)) => Ok((num as i32, remaining)),
        Err(e) => Err(e),
    }
}

/// Reads a `i64` argument: a decimal integer in the range of `i64`.
pub fn i64_argument(args: &str) -> (r: Result<(i64, String), ParsingError>)
    ensures
        match integer_argument_spec(args@, i64::MIN as int, i64::MAX as int) {
            Ok(p) => r matches Ok(x) && x.0 as int == p.0 && x.1@ == p.1,
            Err(e) => r == Err::<(i64, String), ParsingError>(e),
        },
{
    match signed_argument(args, i64::MIN as i128, i64::MAX as i128) {
        Ok((num, remaining)) => Ok((num as i64, remaining)),
        Err(e) => Err(e),
    }
}

/// Reads a `i128` argument: a decimal integer in the range of `i128`.
pub fn i128_argument(args: &str) -> (r: Result<(i128, String), ParsingError>)
    ensures
        match integer_argument_spec(args@, i128::MIN as int, i128::MAX as int) {
            Ok(p) => r matches Ok(x) && x.0 as int == p.0 && x.1@ == p.1,
            Err(e) => r == Err::<(i128, String), ParsingError>(e),
        },
{
    match signed_argument(args, i128::MIN as i128, i128::MAX as i128) {
        Ok((num, remaining)) => Ok((num, remaining)),
        Err(e) => Err(e),
    }
}

/// Reads a `isize` argument: a decimal integer in the range of `isize`.
pub fn isize_argument(args: &str) -> (r: Result<(isize, String), ParsingError>)
    ensures
        match integer_argument_spec(args@, isize::MIN as int, isize::MAX as int) {
            Ok(p) => r matches Ok(x) && x.0 as int == p.0 && x.1@ == p.1,
            Err(e) => r == Err::<(isize, String), ParsingError>(e),
        },
{
    match signed_argument(args, isize::MIN as i128, isize::MAX as i128) {
        Ok((num, remaining)) => Ok((num as isize, remaining)),
        Err(e) => Err(e),
    }
}

/// Reads a `u8` argument: a decimal integer in the range of `u8`.
pub fn u8_argument(args: &str) -> (r: Result<(u8, String), ParsingError>)
    ensures
        match integer_argument_spec(args@, 0, u8::MAX as int) {
            Ok(p) => r matches Ok(x) && x.0 as int == p.0 && x.1@ == p.1,
            Err(e) => r == Err::<(u8, String), ParsingError>(e),
        },
{
    match unsigned_argument(args, u8::MAX as u128) {
        Ok((num, remaining)) => Ok((num as u8, remaining)),
        Err(e) => Err(e),
    }
}

/// Reads a `u16` argument: a decimal integer in the range of `u16`.
pub fn u16_argument(args: &str) -> (r: Result<(u16, String), ParsingError>)
    ensures
        match integer_argument_spec(args@, 0, u16::MAX as int) {
            Ok(p) => r matches Ok(x) && x.0 as int == p.0 && x.1@ == p.1,
            Err(e) => r == Err::<(u16, String), ParsingError>(e),
        },
{
    match unsigned_argument(args, u16::MAX as u128) {
        Ok((num, remaining)) => Ok((num as u16, remaining)),
        Err(e) => Err(e),
    }
}

/// Reads a `u32` argument: a decimal integer in the range of `u32`.
pub fn u32_argument(args: &str) -> (r: Result<(u32, String), ParsingError>)
    ensures
        match integer_argument_spec(args@, 0, u32::MAX as int) {
            Ok(p) => r matches Ok(x) && x.0 as int == p.0 && x.1@ == p.1,
            Err(e) => r == Err::<(u32, String), ParsingError>(e),
        },
{
    match unsigned_argument(args, u32::MAX as u128) {
        Ok((num, remaining)) => Ok((num as u32, remaining)),
        Err(e) => Err(e),
    }
}

/// Reads a `u64` argument: a decimal integer in the range of `u64`.
pub fn u64_argument(args: &str) -> (r: Result<(u64, String), ParsingError>)
    ensures
        match integer_argument_spec(args@, 0, u64::MAX as int) {
            Ok(p) => r matches Ok(x) && x.0 as int == p.0 && x.1@ == p.1,
            Err(e) => r == Err::<(u64, String), ParsingError>(e),
        },
{
    match unsigned_argument(args, u64::MAX as u128) {
        Ok((num, remaining)) => Ok((num as u64, remaining)),
        Err(e) => Err(e),
    }
}

/// Reads a `u128` argument: a decimal integer in the range of `u128`.
pub fn u128_argument(args: &str) -> (r: Result<(u128, String), ParsingError>)
    ensures
        match integer_argument_spec(args@, 0, u128::MAX as int) {
            Ok(p) => r matches Ok(x) && x.0 as int == p.0 && x.1@ == p.1,
            Err(e) => r == Err::<(u128, String), ParsingError>(e),
        },
{
    match unsigned_argument(args, u128::MAX as u128) {
        Ok((num, remaining)) => Ok((num, remaining)),
        Err(e) => Err(e),
    }
}

/// Reads a `usize` argument: a decimal integer in the range of `usize`.
pub fn usize_argument(args: &str) -> (r: Result<(usize, String), ParsingError>)
    ensures
        match integer_argument_spec(args@, 0, usize::MAX as int) {
            Ok(p) => r matches Ok(x) && x.0 as int == p.0 && x.1@ == p.1,
            Err(e) => r == Err::<(usize, String), ParsingError>(e),
        },
{
    match unsigned_argument(args, usize::MAX as u128) {
        Ok((num, remaining)) => Ok((num as usize, remaining)),
        Err(e) => Err(e),
    }
}

} // verus!
