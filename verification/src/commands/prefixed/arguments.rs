//! Conversion of raw command text into typed command arguments.
//!
//! The first argument of a command is read with a small tokenizer that knows four kinds
//! of tokens: unquoted words, single-quoted strings, double-quoted strings and runs of
//! spaces. Quoted strings support backslash escapes; a quote that is never closed makes
//! the token an unquoted word again.

use vstd::prelude::*;

use twilight_mention::ParseMention;
use twilight_model::id::marker::{ChannelMarker, RoleMarker, UserMarker};
use twilight_model::id::Id;

use crate::commands::errors::ArgumentError;
use crate::numbers::{parse_signed, parse_signed_between, parse_unsigned, parse_unsigned_up_to};
use crate::wrappers::types::channels::ChannelMention;
use crate::wrappers::types::roles::RoleMention;
use crate::wrappers::types::users::UserMention;
use crate::text::{
    chars_of, count_leading_whitespace, is_whitespace, leading_whitespace, push_char, trim_start,
};

verus! {

// ---------------------------------------------------------------------------
// Specification of the tokenizer
// ---------------------------------------------------------------------------

/// The characters a backslash escapes inside an unquoted word.
pub open spec fn word_escapable(c: char) -> bool {
    c == '\'' || c == '"' || c == '\\'
}

/// What an escape sequence `\c` contributes to a token's value: `c` alone when it is
/// escapable, otherwise the backslash and `c`.
pub open spec fn escape_value(c: char, escapable: bool) -> Seq<char> {
    if escapable {
        seq![c]
    } else {
        seq!['\\', c]
    }
}

/// The value of the unquoted word that starts at index `i`, and the index one past its
/// last character. The word ends at the first unescaped space or at the end of `chars`;
/// a backslash with nothing after it stands for itself.
pub open spec fn word_scan(chars: Seq<char>, i: int) -> (Seq<char>, int)
    decreases chars.len() - i,
{
    if i >= chars.len() || chars[i] == ' ' {
        (seq![], i)
    } else if chars[i] == '\\' {
        if i + 1 < chars.len() {
            let rest = word_scan(chars, i + 2);
            (escape_value(chars[i + 1], word_escapable(chars[i + 1])) + rest.0, rest.1)
        } else {
            (seq!['\\'], i + 1)
        }
    } else {
        let rest = word_scan(chars, i + 1);
        (seq![chars[i]] + rest.0, rest.1)
    }
}

/// The value of a string quoted by `q` whose content starts at index `i`, and the index
/// one past the closing quote; `None` when the quote is never closed.
pub open spec fn quote_scan(chars: Seq<char>, i: int, q: char) -> Option<(Seq<char>, int)>
    decreases chars.len() - i,
{
    if i >= chars.len() {
        None
    } else if chars[i] == '\\' {
        if i + 1 < chars.len() {
            match quote_scan(chars, i + 2, q) {
                Some(rest) => Some(
                    (
                        escape_value(chars[i + 1], chars[i + 1] == '\\' || chars[i + 1] == q)
                            + rest.0,
                        rest.1,
                    ),
                ),
                None => None,
            }
        } else {
            None
        }
    } else if chars[i] == q {
        Some((seq![], i + 1))
    } else {
        match quote_scan(chars, i + 1, q) {
            Some(rest) => Some((seq![chars[i]] + rest.0, rest.1)),
            None => None,
        }
    }
}

/// The index one past the run of spaces that starts at `i`.
pub open spec fn space_scan(chars: Seq<char>, i: int) -> int
    decreases chars.len() - i,
{
    if i >= chars.len() || chars[i] != ' ' {
        i
    } else {
        space_scan(chars, i + 1)
    }
}

/// The kinds of tokens.
#[derive(Debug, Clone, Copy, PartialEq, Eq)]
pub enum TokenKind {
    /// An unquoted word.
    String,
    /// A single-quote-quoted string.
    InSingleQuote,
    /// A double-quote-quoted string.
    InDoubleQuote,
    /// One or more spaces.
    Spaces,
}

/// The token a quote character `q` at index `i` starts: the quoted string if the quote is
/// closed, otherwise an unquoted word starting at the quote.
pub open spec fn quoted_token(chars: Seq<char>, i: int, q: char, kind: TokenKind) -> (
    TokenKind,
    Seq<char>,
    int,
) {
    match quote_scan(chars, i + 1, q) {
        Some(r) => (kind, r.0, r.1),
        None => (TokenKind::String, word_scan(chars, i).0, word_scan(chars, i).1),
    }
}

/// The first token of `chars`: its kind, its value and the index one past its last
/// character; `None` for an empty input.
pub open spec fn first_token(chars: Seq<char>) -> Option<(TokenKind, Seq<char>, int)> {
    if chars.len() == 0 {
        None
    } else if chars[0] == ' ' {
        let end = space_scan(chars, 0);
        Some((TokenKind::Spaces, Seq::new(end as nat, |k: int| ' '), end))
    } else if chars[0] == '\'' {
        Some(quoted_token(chars, 0, '\'', TokenKind::InSingleQuote))
    } else if chars[0] == '"' {
        Some(quoted_token(chars, 0, '"', TokenKind::InDoubleQuote))
    } else {
        Some((TokenKind::String, word_scan(chars, 0).0, word_scan(chars, 0).1))
    }
}

// ---------------------------------------------------------------------------
// Lemmas
// ---------------------------------------------------------------------------

proof fn lemma_word_scan_end(chars: Seq<char>, i: int)
    ensures
        word_scan(chars, i).1 >= i,
        i < chars.len() && chars[i] != ' ' ==> word_scan(chars, i).1 > i,
        i <= chars.len() ==> word_scan(chars, i).1 <= chars.len(),
    decreases chars.len() - i,
{
    if i >= chars.len() || chars[i] == ' ' {
    } else if chars[i] == '\\' {
        if i + 1 < chars.len() {
            lemma_word_scan_end(chars, i + 2);
        }
    } else {
        lemma_word_scan_end(chars, i + 1);
    }
}

proof fn lemma_quote_scan_end(chars: Seq<char>, i: int, q: char)
    ensures
        quote_scan(chars, i, q) matches Some(r) ==> i < r.1 <= chars.len(),
    decreases chars.len() - i,
{
    if i >= chars.len() {
    } else if chars[i] == '\\' {
        if i + 1 < chars.len() {
            lemma_quote_scan_end(chars, i + 2, q);
        }
    } else if chars[i] == q {
    } else {
        lemma_quote_scan_end(chars, i + 1, q);
    }
}

proof fn lemma_space_scan_end(chars: Seq<char>, i: int)
    ensures
        space_scan(chars, i) >= i,
        i <= chars.len() ==> space_scan(chars, i) <= chars.len(),
        forall|k: int| i <= k < space_scan(chars, i) ==> chars[k] == ' ',
    decreases chars.len() - i,
{
    if i >= chars.len() || chars[i] != ' ' {
    } else {
        lemma_space_scan_end(chars, i + 1);
    }
}

/// Whether `w` can stand as an unquoted word that reads back as itself: it is not empty,
/// holds no space and no backslash, and does not start with a quote.
pub open spec fn plain_word(w: Seq<char>) -> bool {
    &&& w.len() > 0
    &&& !w.contains(' ')
    &&& !w.contains('\\')
    &&& w[0] != '\''
    &&& w[0] != '"'
}

/// An unquoted word with no space, backslash or leading quote reads back as itself, up to
/// the space that follows it or the end of the text.
pub proof fn law_plain_word_reads_back(w: Seq<char>, rest: Seq<char>)
    requires
        plain_word(w),
        rest.len() == 0 || rest[0] == ' ',
    ensures
        first_token(w + rest) == Some((TokenKind::String, w, w.len() as int)),
{
    let c = w + rest;
    lemma_word_reads_back(w, rest, 0);
    assert(c[0] == w[0]);
    assert(w.skip(0) =~= w);
}

proof fn lemma_word_reads_back(w: Seq<char>, rest: Seq<char>, i: int)
    requires
        0 <= i <= w.len(),
        !w.contains(' '),
        !w.contains('\\'),
        rest.len() == 0 || rest[0] == ' ',
    ensures
        word_scan(w + rest, i) == (w.skip(i), w.len() as int),
    decreases w.len() - i,
{
    let c = w + rest;
    if i == w.len() {
        assert(w.skip(i) =~= Seq::<char>::empty());
    } else {
        assert(c[i] == w[i]);
        assert(c[i] != ' ') by {
            if c[i] == ' ' {
                assert(w.contains(' '));
            }
        }
        assert(c[i] != '\\') by {
            if c[i] == '\\' {
                assert(w.contains('\\'));
            }
        }
        lemma_word_reads_back(w, rest, i + 1);
        assert(w.skip(i) =~= seq![w[i]] + w.skip(i + 1));
    }
}

/// A string quoted by `q` that holds neither `q` nor a backslash reads back as itself, with
/// the token's kind given by the quote.
pub proof fn law_quoted_string_reads_back(s: Seq<char>, q: char, rest: Seq<char>)
    requires
        q == '\'' || q == '"',
        !s.contains(q),
        !s.contains('\\'),
    ensures
        first_token(seq![q] + s + seq![q] + rest) == Some(
            (
                if q == '\'' {
                    TokenKind::InSingleQuote
                } else {
                    TokenKind::InDoubleQuote
                },
                s,
                s.len() + 2int,
            ),
        ),
{
    let c = seq![q] + s + seq![q] + rest;
    lemma_quoted_reads_back(s, q, rest, 1);
    assert(s.skip(0) =~= s);
    assert(c[0] == q);
}

proof fn lemma_quoted_reads_back(s: Seq<char>, q: char, rest: Seq<char>, i: int)
    requires
        1 <= i <= s.len() + 1,
        q != '\\',
        !s.contains(q),
        !s.contains('\\'),
    ensures
        quote_scan(seq![q] + s + seq![q] + rest, i, q) == Some((s.skip(i - 1), s.len() + 2int)),
    decreases s.len() + 1 - i,
{
    let c = seq![q] + s + seq![q] + rest;
    assert(c.len() == s.len() + 2 + rest.len());
    if i == s.len() + 1 {
        assert(c[i] == q);
        assert(s.skip(i - 1) =~= Seq::<char>::empty());
    } else {
        assert(c[i] == s[i - 1]);
        assert(c[i] != q) by {
            if c[i] == q {
                assert(s.contains(q));
            }
        }
        assert(c[i] != '\\') by {
            if c[i] == '\\' {
                assert(s.contains('\\'));
            }
        }
        lemma_quoted_reads_back(s, q, rest, i + 1);
        assert(s.skip(i - 1) =~= seq![s[i - 1]] + s.skip(i));
    }
}

/// Inside a string quoted by `q`, an escaped quote `\q` and an escaped backslash `\\` each
/// stand for the escaped character alone: the backslash is dropped and the string does
/// not end there.
///
/// For example `"say \"hi\""` reads as `say "hi"`, and `'it\'s'` as `it's`.
pub proof fn law_escaped_quote_or_backslash_in_quotes(
    s1: Seq<char>,
    e: char,
    s2: Seq<char>,
    q: char,
    rest: Seq<char>,
)
    requires
        q == '\'' || q == '"',
        e == q || e == '\\',
        !s1.contains(q),
        !s1.contains('\\'),
        !s2.contains(q),
        !s2.contains('\\'),
    ensures
        first_token(seq![q] + s1 + seq!['\\', e] + s2 + seq![q] + rest) == Some(
            (
                if q == '\'' {
                    TokenKind::InSingleQuote
                } else {
                    TokenKind::InDoubleQuote
                },
                s1 + seq![e] + s2,
                s1.len() + s2.len() + 4int,
            ),
        ),
{
    lemma_escape_in_quotes(s1, e, s2, q, rest);
}

/// Inside a string quoted by `q`, a backslash before any other character (the other
/// quote included) stands for itself, and the character after it is kept.
///
/// For example `"a\nb"` reads as `a\nb`, and `"it\'s"` as `it\'s`.
pub proof fn law_other_escape_in_quotes_is_kept(
    s1: Seq<char>,
    e: char,
    s2: Seq<char>,
    q: char,
    rest: Seq<char>,
)
    requires
        q == '\'' || q == '"',
        e != q,
        e != '\\',
        !s1.contains(q),
        !s1.contains('\\'),
        !s2.contains(q),
        !s2.contains('\\'),
    ensures
        first_token(seq![q] + s1 + seq!['\\', e] + s2 + seq![q] + rest) == Some(
            (
                if q == '\'' {
                    TokenKind::InSingleQuote
                } else {
                    TokenKind::InDoubleQuote
                },
                s1 + seq!['\\', e] + s2,
                s1.len() + s2.len() + 4int,
            ),
        ),
{
    lemma_escape_in_quotes(s1, e, s2, q, rest);
}

proof fn lemma_escape_in_quotes(s1: Seq<char>, e: char, s2: Seq<char>, q: char, rest: Seq<char>)
    requires
        q == '\'' || q == '"',
        !s1.contains(q),
        !s1.contains('\\'),
        !s2.contains(q),
        !s2.contains('\\'),
    ensures
        first_token(seq![q] + s1 + seq!['\\', e] + s2 + seq![q] + rest) == Some(
            (
                if q == '\'' {
                    TokenKind::InSingleQuote
                } else {
                    TokenKind::InDoubleQuote
                },
                s1 + escape_value(e, e == '\\' || e == q) + s2,
                s1.len() + s2.len() + 4int,
            ),
        ),
{
    let c = seq![q] + s1 + seq!['\\', e] + s2 + seq![q] + rest;
    let j: int = 1 + s1.len() as int;
    let m: int = j + 2 + s2.len();
    assert(c.subrange(1, j) =~= s1);
    assert(c.subrange(j + 2, m) =~= s2);
    assert(c[0] == q);
    assert(c[j] == '\\');
    assert(c[j + 1] == e);
    assert(c[m] == q);
    lemma_quote_scan_plain(c, j + 2, s2, q);
    lemma_quote_scan_plain(c, 1, s1, q);
    assert(quote_scan(c, m, q) == Some((Seq::<char>::empty(), m + 1)));
    let v = escape_value(e, e == '\\' || e == q);
    assert(quote_scan(c, j, q) == Some((v + (s2 + Seq::<char>::empty()), m + 1)));
    assert(s1 + (v + (s2 + Seq::<char>::empty())) =~= s1 + v + s2);
}

/// A stretch of a quoted string with no quote and no backslash is copied as it is.
proof fn lemma_quote_scan_plain(c: Seq<char>, i: int, s: Seq<char>, q: char)
    requires
        0 <= i,
        i + s.len() <= c.len(),
        c.subrange(i, i + s.len()) == s,
        !s.contains(q),
        !s.contains('\\'),
    ensures
        quote_scan(c, i, q) == match quote_scan(c, i + s.len(), q) {
            Some(r) => Some((s + r.0, r.1)),
            None => None,
        },
    decreases s.len(),
{
    if s.len() == 0 {
        match quote_scan(c, i, q) {
            Some(r) => {
                assert(s + r.0 =~= r.0);
            },
            None => {},
        }
    } else {
        assert(c[i] == s[0]);
        assert(c[i] != q) by {
            if c[i] == q {
                assert(s.contains(q));
            }
        }
        assert(c[i] != '\\') by {
            if c[i] == '\\' {
                assert(s.contains('\\'));
            }
        }
        let t = s.drop_first();
        assert(c.subrange(i + 1, i + 1 + t.len()) =~= t);
        assert(!t.contains(q)) by {
            if t.contains(q) {
                let k = choose|k: int| 0 <= k < t.len() && t[k] == q;
                assert(s[k + 1] == q);
            }
        }
        assert(!t.contains('\\')) by {
            if t.contains('\\') {
                let k = choose|k: int| 0 <= k < t.len() && t[k] == '\\';
                assert(s[k + 1] == '\\');
            }
        }
        lemma_quote_scan_plain(c, i + 1, t, q);
        match quote_scan(c, i + s.len(), q) {
            Some(r) => {
                assert(seq![c[i]] + (t + r.0) =~= s + r.0);
            },
            None => {},
        }
    }
}

/// In an unquoted word, a backslash before a quote or another backslash stands for that
/// character alone, and the word goes on after it.
///
/// For example `\"world\"` reads as `"world"`, and `a\\b` as `a\b`.
pub proof fn law_escape_in_word(w1: Seq<char>, e: char, w2: Seq<char>, rest: Seq<char>)
    requires
        e == '\'' || e == '"' || e == '\\',
        !w1.contains(' '),
        !w1.contains('\\'),
        !w2.contains(' '),
        !w2.contains('\\'),
        w1.len() == 0 || (w1[0] != '\'' && w1[0] != '"'),
        rest.len() == 0 || rest[0] == ' ',
    ensures
        first_token(w1 + seq!['\\', e] + w2 + rest) == Some(
            (TokenKind::String, w1 + seq![e] + w2, w1.len() + w2.len() + 2int),
        ),
{
    lemma_escape_in_word(w1, e, w2, rest);
}

/// In an unquoted word, a backslash before any other character (a space included) stands
/// for itself, the character after it is kept, and the word goes on after it.
///
/// For example `a\nb` reads as `a\nb`, and `a\ b` as the single word `a\ b`.
pub proof fn law_other_escape_in_word_is_kept(
    w1: Seq<char>,
    e: char,
    w2: Seq<char>,
    rest: Seq<char>,
)
    requires
        e != '\'' && e != '"' && e != '\\',
        !w1.contains(' '),
        !w1.contains('\\'),
        !w2.contains(' '),
        !w2.contains('\\'),
        w1.len() == 0 || (w1[0] != '\'' && w1[0] != '"'),
        rest.len() == 0 || rest[0] == ' ',
    ensures
        first_token(w1 + seq!['\\', e] + w2 + rest) == Some(
            (TokenKind::String, w1 + seq!['\\', e] + w2, w1.len() + w2.len() + 2int),
        ),
{
    lemma_escape_in_word(w1, e, w2, rest);
}

proof fn lemma_escape_in_word(w1: Seq<char>, e: char, w2: Seq<char>, rest: Seq<char>)
    requires
        !w1.contains(' '),
        !w1.contains('\\'),
        !w2.contains(' '),
        !w2.contains('\\'),
        w1.len() == 0 || (w1[0] != '\'' && w1[0] != '"'),
        rest.len() == 0 || rest[0] == ' ',
    ensures
        first_token(w1 + seq!['\\', e] + w2 + rest) == Some(
            (
                TokenKind::String,
                w1 + escape_value(e, word_escapable(e)) + w2,
                w1.len() + w2.len() + 2int,
            ),
        ),
{
    let c = w1 + seq!['\\', e] + w2 + rest;
    let j: int = w1.len() as int;
    let m: int = j + 2 + w2.len();
    assert(c.subrange(0, j) =~= w1);
    assert(c.subrange(j + 2, m) =~= w2);
    assert(c[j] == '\\');
    assert(c[j + 1] == e);
    assert(m == c.len() || c[m] == ' ') by {
        if m < c.len() {
            assert(c[m] == rest[0]);
        }
    }
    assert(word_scan(c, m) == (Seq::<char>::empty(), m));
    lemma_word_scan_plain(c, j + 2, w2);
    lemma_word_scan_plain(c, 0, w1);
    let v = escape_value(e, word_escapable(e));
    assert(word_scan(c, j) == (v + (w2 + Seq::<char>::empty()), m));
    assert(w1 + (v + (w2 + Seq::<char>::empty())) =~= w1 + v + w2);
    if j > 0 {
        assert(c[0] == w1[0]);
        assert(c[0] != ' ') by {
            if c[0] == ' ' {
                assert(w1.contains(' '));
            }
        }
    }
}

/// A stretch of an unquoted word with no space and no backslash is copied as it is.
proof fn lemma_word_scan_plain(c: Seq<char>, i: int, s: Seq<char>)
    requires
        0 <= i,
        i + s.len() <= c.len(),
        c.subrange(i, i + s.len()) == s,
        !s.contains(' '),
        !s.contains('\\'),
    ensures
        word_scan(c, i) == (s + word_scan(c, i + s.len()).0, word_scan(c, i + s.len()).1),
    decreases s.len(),
{
    if s.len() == 0 {
        assert(s + word_scan(c, i).0 =~= word_scan(c, i).0);
    } else {
        assert(c[i] == s[0]);
        assert(c[i] != ' ') by {
            if c[i] == ' ' {
                assert(s.contains(' '));
            }
        }
        assert(c[i] != '\\') by {
            if c[i] == '\\' {
                assert(s.contains('\\'));
            }
        }
        let t = s.drop_first();
        assert(c.subrange(i + 1, i + 1 + t.len()) =~= t);
        assert(!t.contains(' ')) by {
            if t.contains(' ') {
                let k = choose|k: int| 0 <= k < t.len() && t[k] == ' ';
                assert(s[k + 1] == ' ');
            }
        }
        assert(!t.contains('\\')) by {
            if t.contains('\\') {
                let k = choose|k: int| 0 <= k < t.len() && t[k] == '\\';
                assert(s[k + 1] == '\\');
            }
        }
        lemma_word_scan_plain(c, i + 1, t);
        assert(seq![c[i]] + (t + word_scan(c, i + s.len()).0) =~= s + word_scan(
            c,
            i + s.len(),
        ).0);
    }
}

/// A plain word after any white space is read as the string argument, and the raw
/// arguments that remain are exactly the text after the word.
///
/// For example `  hello world` gives `hello` and leaves ` world`, and `é x` gives `é` and
/// leaves ` x`.
pub proof fn law_word_argument(ws: Seq<char>, w: Seq<char>, rest: Seq<char>)
    requires
        forall|i: int| 0 <= i < ws.len() ==> is_whitespace(#[trigger] ws[i]),
        plain_word(w),
        !is_whitespace(w[0]),
        rest.len() == 0 || rest[0] == ' ',
    ensures
        string_argument_spec(ws + w + rest) == Some((w, rest)),
{
    let args = ws + w + rest;
    let t = w + rest;
    assert(args =~= ws + t);
    assert(t[0] == w[0]);
    lemma_leading_whitespace_prefix(ws, t);
    assert(trim_start(args) =~= t);
    law_plain_word_reads_back(w, rest);
    assert(t.skip(w.len() as int) =~= rest);
}

pub proof fn lemma_leading_whitespace_prefix(ws: Seq<char>, t: Seq<char>)
    requires
        forall|i: int| 0 <= i < ws.len() ==> is_whitespace(#[trigger] ws[i]),
        t.len() == 0 || !is_whitespace(t[0]),
    ensures
        leading_whitespace(ws + t) == ws.len(),
    decreases ws.len(),
{
    if ws.len() == 0 {
        assert(ws + t =~= t);
    } else {
        assert((ws + t)[0] == ws[0]);
        assert((ws + t).drop_first() =~= ws.drop_first() + t);
        assert forall|i: int| 0 <= i < ws.drop_first().len() implies is_whitespace(
            #[trigger] ws.drop_first()[i],
        ) by {
            assert(ws.drop_first()[i] == ws[i + 1]);
        }
        lemma_leading_whitespace_prefix(ws.drop_first(), t);
    }
}

// ---------------------------------------------------------------------------
// Tokens
// ---------------------------------------------------------------------------

/// A token's value and where it stands in the text it was read from.
#[derive(Debug)]
pub struct TokenValue {
    /// The token's value, with quotes and escapes resolved.
    pub value: String,
    /// The index of the token's first character.
    pub first: usize,
    /// The index of the token's last character.
    pub last: usize,
}

/// A token of raw command arguments.
#[derive(Debug)]
pub enum Token {
    /// An unquoted word, e.g. `hello`.
    String(TokenValue),
    /// A single-quote-quoted string, e.g. `'hello world!'`.
    InSingleQuote(TokenValue),
    /// A double-quote-quoted string, e.g. `"hello world!"`.
    InDoubleQuote(TokenValue),
    /// One or more spaces separating other tokens.
    Spaces(TokenValue),
}

impl Token {
    /// The token's kind.
    pub open spec fn kind(&self) -> TokenKind {
        match self {
            Token::String(_) => TokenKind::String,
            Token::InSingleQuote(_) => TokenKind::InSingleQuote,
            Token::InDoubleQuote(_) => TokenKind::InDoubleQuote,
            Token::Spaces(_) => TokenKind::Spaces,
        }
    }

    /// The token's value and position, whatever its kind.
    pub open spec fn spec_value(&self) -> &TokenValue {
        match self {
            Token::String(v) => v,
            Token::InSingleQuote(v) => v,
            Token::InDoubleQuote(v) => v,
            Token::Spaces(v) => v,
        }
    }

    /// Returns the inner [`TokenValue`] of this token.
    pub fn value(&self) -> (r: &TokenValue)
        ensures
            r == self.spec_value(),
    {
        match self {
            Token::InDoubleQuote(value) => value,
            Token::InSingleQuote(value) => value,
            Token::Spaces(value) => value,
            Token::String(value) => value,
        }
    }

    /// The token as text: its value.
    pub fn to_string(&self) -> (r: String)
        ensures
            r@ == self.spec_value().value@,
    {
        self.value().value.clone()
    }
}

/// The index one before `end`: a token's last index when the cursor stops at `end`
/// (wrapping to `usize::MAX` for an empty token at the start of the text).
pub open spec fn last_index_before(end: usize) -> usize {
    if end == 0 {
        usize::MAX
    } else {
        (end - 1) as usize
    }
}

fn index_before(end: usize) -> (r: usize)
    ensures
        r == last_index_before(end),
{
    if end == 0 {
        usize::MAX
    } else {
        end - 1
    }
}

/// Parses an unquoted word starting at the cursor into a [`Token::String`].
///
/// Escaped quotes and backslashes (`\'`, `\"`, `\\`) stand for the escaped character;
/// any other escaped character keeps its backslash. The word ends before the first
/// unescaped space or at the end of `chars`, and a backslash at the very end stands for
/// itself; the cursor is left one past the word.
pub fn parse_string(chars: &[char], i: &mut usize) -> (tok: Token)
    ensures
        *final(i) == word_scan(chars@, *old(i) as int).1,
        tok.kind() == TokenKind::String,
        tok.spec_value().value@ == word_scan(chars@, *old(i) as int).0,
        tok.spec_value().first == *old(i),
        tok.spec_value().last == last_index_before(*final(i)),
{
    let mut current = String::new();
    let first_i = *i;
    let ghost start = first_i as int;
    proof {
        lemma_word_scan_end(chars@, start);
    }
    while *i < chars.len()
        invariant_except_break
            current@ + word_scan(chars@, *i as int).0 == word_scan(chars@, start).0,
            word_scan(chars@, *i as int).1 == word_scan(chars@, start).1,
            *i <= word_scan(chars@, start).1,
        ensures
            *i == word_scan(chars@, start).1,
            current@ == word_scan(chars@, start).0,
        decreases chars.len() - *i,
    {
        let current_char = chars[*i];
        proof {
            lemma_word_scan_end(chars@, *i as int);
        }
        if current_char == ' ' {
            assert(current@ + seq![] =~= current@);
            break;
        } else if current_char == '\\' {
            let ghost old_cur = current@;
            if *i + 1 >= chars.len() {
                push_char(&mut current, '\\');
                *i += 1;
                assert(current@ + seq![] =~= current@);
                break;
            }
            *i += 1;
            let next = chars[*i];
            if next == '\'' || next == '"' || next == '\\' {
                push_char(&mut current, next);
            } else {
                push_char(&mut current, '\\');
                push_char(&mut current, next);
            }
            let ghost rest = word_scan(chars@, *i as int + 1);
            assert(current@ + rest.0 =~= old_cur + (escape_value(next, word_escapable(next))
                + rest.0));
        } else {
            let ghost old_cur = current@;
            push_char(&mut current, current_char);
            let ghost rest = word_scan(chars@, *i as int + 1);
            assert(current@ + rest.0 =~= old_cur + (seq![current_char] + rest.0));
        }
        *i += 1;
        proof {
            lemma_word_scan_end(chars@, *i as int);
            if *i >= chars.len() {
                assert(current@ + seq![] =~= current@);
            }
        }
    }
    Token::String(TokenValue { value: current, first: first_i, last: index_before(*i) })
}


/// Parses zero or more spaces starting at the cursor into a [`Token::Spaces`]; the
/// cursor is left one past the last space. When the cursor does not point at a space, the
/// token is empty and the cursor stays where it is.
pub fn parse_space(chars: &[char], i: &mut usize) -> (tok: Token)
    ensures
        *final(i) == space_scan(chars@, *old(i) as int),
        tok.kind() == TokenKind::Spaces,
        tok.spec_value().value@ == Seq::new(
            (*final(i) - *old(i)) as nat,
            |k: int| ' ',
        ),
        tok.spec_value().first == *old(i),
        tok.spec_value().last == last_index_before(*final(i)),
{
    let mut current = String::new();
    let first_i = *i;
    let ghost start = first_i as int;
    proof {
        lemma_space_scan_end(chars@, start);
    }
    while *i < chars.len() && chars[*i] == ' '
        invariant
            start <= *i <= space_scan(chars@, start),
            space_scan(chars@, *i as int) == space_scan(chars@, start),
            current@ == Seq::new((*i - start) as nat, |k: int| ' '),
        decreases chars.len() - *i,
    {
        push_char(&mut current, chars[*i]);
        *i += 1;
        assert(current@ =~= Seq::new((*i - start) as nat, |k: int| ' '));
        proof {
            lemma_space_scan_end(chars@, *i as int);
        }
    }
    Token::Spaces(TokenValue { value: current, first: first_i, last: index_before(*i) })
}

/// Parses a string quoted by `q` (single or double quote) starting at the cursor, or an
/// unquoted word starting at the quote when the quote is never closed.
fn parse_quoted(chars: &[char], i: &mut usize, q: char, single: bool) -> (tok: Token)
    requires
        q == (if single {
            '\''
        } else {
            '"'
        }),
        *old(i) < chars.len(),
        chars[*old(i) as int] == q,
    ensures
        ({
            let t = quoted_token(
                chars@,
                *old(i) as int,
                q,
                if single {
                    TokenKind::InSingleQuote
                } else {
                    TokenKind::InDoubleQuote
                },
            );
            &&& tok.kind() == t.0
            &&& tok.spec_value().value@ == t.1
            &&& *final(i) == t.2
        }),
        tok.spec_value().first == *old(i),
        tok.spec_value().last == *final(i) - 1,
{
    let first_i = *i;
    let ghost start = first_i as int;
    let mut current = String::new();
    *i += 1;
    proof {
        lemma_quote_scan_end(chars@, start + 1, q);
    }
    while *i < chars.len()
        invariant_except_break
            start + 1 <= *i,
            first_i == start,
            start == *old(i),
            q == (if single {
                '\''
            } else {
                '"'
            }),
            quote_scan(chars@, start + 1, q) == (match quote_scan(chars@, *i as int, q) {
                Some(r) => Some((current@ + r.0, r.1)),
                None => None,
            }),
        ensures
            quote_scan(chars@, start + 1, q) is None,
        decreases chars.len() - *i,
    {
        let c = chars[*i];
        if c == '\\' {
            proof {
                lemma_quote_scan_end(chars@, *i as int + 2, q);
            }
            *i += 1;
            if *i < chars.len() {
                let next = chars[*i];
                let ghost old_cur = current@;
                if next == '\\' || next == q {
                    push_char(&mut current, next);
                } else {
                    push_char(&mut current, '\\');
                    push_char(&mut current, next);
                }
                proof {
                    let esc = escape_value(next, next == '\\' || next == q);
                    assert(current@ == old_cur + esc);
                    match quote_scan(chars@, *i as int + 1, q) {
                        Some(r) => {
                            assert(current@ + r.0 =~= old_cur + (esc + r.0));
                        },
                        None => {},
                    }
                }
            } else {
                break;
            }
        } else if c == q {
            *i += 1;
            proof {
                assert(current@ + seq![] =~= current@);
            }
            let value = TokenValue { value: current, first: first_i, last: *i - 1 };
            if single {
                return Token::InSingleQuote(value);
            } else {
                return Token::InDoubleQuote(value);
            }
        } else {
            let ghost old_cur = current@;
            push_char(&mut current, c);
            proof {
                match quote_scan(chars@, *i as int + 1, q) {
                    Some(r) => {
                        assert(current@ + r.0 =~= old_cur + (seq![c] + r.0));
                    },
                    None => {},
                }
            }
        }
        *i += 1;
    }
    *i = first_i;
    proof {
        lemma_word_scan_end(chars@, start);
    }
    parse_string(chars, i)
}

/// Parses a single-quote-quoted token starting at the cursor, which must point at a
/// `'` character. A quote that is never closed makes the token an unquoted word, read
/// with [`parse_string`] from the quote.
///
/// Inside the quotes, `\'` and `\\` stand for `'` and `\`; any other escaped
/// character keeps its backslash.
pub fn parse_single_quote(chars: &[char], i: &mut usize) -> (tok: Token)
    requires
        *old(i) < chars.len(),
        chars[*old(i) as int] == '\'',
    ensures
        ({
            let t = quoted_token(chars@, *old(i) as int, '\'', TokenKind::InSingleQuote);
            &&& tok.kind() == t.0
            &&& tok.spec_value().value@ == t.1
            &&& *final(i) == t.2
        }),
        tok.spec_value().first == *old(i),
        tok.spec_value().last == *final(i) - 1,
{
    parse_quoted(chars, i, '\'', true)
}

/// Parses a double-quote-quoted token starting at the cursor, which must point at a
/// `"` character. A quote that is never closed makes the token an unquoted word, read
/// with [`parse_string`] from the quote.
///
/// Inside the quotes, `\"` and `\\` stand for `"` and `\`; any other escaped
/// character keeps its backslash.
pub fn parse_double_quote(chars: &[char], i: &mut usize) -> (tok: Token)
    requires
        *old(i) < chars.len(),
        chars[*old(i) as int] == '"',
    ensures
        ({
            let t = quoted_token(chars@, *old(i) as int, '"', TokenKind::InDoubleQuote);
            &&& tok.kind() == t.0
            &&& tok.spec_value().value@ == t.1
            &&& *final(i) == t.2
        }),
        tok.spec_value().first == *old(i),
        tok.spec_value().last == *final(i) - 1,
{
    parse_quoted(chars, i, '"', false)
}

/// Parses the first token of raw arguments: a run of spaces, a quoted string, or an
/// unquoted word; `None` when `args` is empty.
///
/// For example `hello "world"` starts with the word `hello`, `"hello world" x` with the
/// double-quoted string `hello world`, and `'it\'s' x` with the single-quoted `it's`.
pub fn parse_token(args: &str) -> (tok: Option<Token>)
    ensures
        match first_token(args@) {
            None => tok is None,
            Some(t) => {
                &&& tok matches Some(tk)
                &&& tk.kind() == t.0
                &&& tk.spec_value().value@ == t.1
                &&& tk.spec_value().first == 0
                &&& tk.spec_value().last == t.2 - 1
            },
        },
{
    let chars = crate::text::chars_of(args);
    if chars.len() == 0 {
        return None;
    }
    let mut i: usize = 0;
    let c = chars[0];
    if c == ' ' {
        proof {
            lemma_space_scan_end(chars@, 0);
            assert(space_scan(chars@, 0) == space_scan(chars@, 1));
            lemma_space_scan_end(chars@, 1);
        }
        Some(parse_space(chars.as_slice(), &mut i))
    } else if c == '\'' {
        Some(parse_single_quote(chars.as_slice(), &mut i))
    } else if c == '"' {
        Some(parse_double_quote(chars.as_slice(), &mut i))
    } else {
        proof {
            lemma_word_scan_end(chars@, 0);
        }
        Some(parse_string(chars.as_slice(), &mut i))
    }
}


proof fn lemma_first_token_end(chars: Seq<char>)
    ensures
        first_token(chars) matches Some(t) ==> 1 <= t.2 <= chars.len(),
{
    if chars.len() > 0 {
        lemma_word_scan_end(chars, 0);
        lemma_space_scan_end(chars, 0);
        if chars[0] == ' ' {
            assert(space_scan(chars, 0) == space_scan(chars, 1));
            lemma_space_scan_end(chars, 1);
        }
        lemma_quote_scan_end(chars, 1, '\'');
        lemma_quote_scan_end(chars, 1, '"');
    }
}

/// The string argument read from `args` and the raw arguments that remain; `None` when
/// `args` holds only white space.
///
/// Leading white space is skipped, the first token is read, and the remaining raw
/// arguments are the text after the token.
pub open spec fn string_argument_spec(args: Seq<char>) -> Option<(Seq<char>, Seq<char>)> {
    let t = trim_start(args);
    match first_token(t) {
        None => None,
        Some(tok) => Some((tok.1, t.skip(tok.2))),
    }
}

/// Reads a string argument: one word, or a quoted string.
///
/// For example `hello world` gives `hello` and leaves ` world`; `"hello world" x` gives
/// `hello world` and leaves ` x`; `'it\'s'` gives `it's`; `'hello world` gives `'hello`;
/// `é x` gives `é` and leaves ` x`. Fails with [`ArgumentError::Missing`] when `args` holds
/// only white space.
pub fn string_argument(args: &str) -> (r: Result<(String, String), ArgumentError>)
    ensures
        match string_argument_spec(args@) {
            None => r == Err::<(String, String), ArgumentError>(ArgumentError::Missing),
            Some(p) => r matches Ok(v) && v.0@ == p.0 && v.1@ == p.1,
        },
{
    let chars = chars_of(args);
    let n = count_leading_whitespace(chars.as_slice());
    let trimmed = args.substring_char(n, chars.len());
    assert(trimmed@ =~= trim_start(args@));
    proof {
        lemma_first_token_end(trimmed@);
    }
    match parse_token(trimmed) {
        Some(argument) => {
            let end = argument.value().last + 1;
            let tchars = chars_of(trimmed);
            let remaining = trimmed.substring_char(end, tchars.len()).to_owned();
            assert(remaining@ =~= trimmed@.skip(end as int));
            Ok((argument.to_string(), remaining))
        },
        None => Err(ArgumentError::Missing),
    }
}

/// Takes all remaining raw arguments as a single string argument.
///
/// For example, if a command is invoked with `.echo Hello, world!`, the `GreedyString`
/// argument is `Hello, world!` instead of just `Hello,`.
pub struct GreedyString(pub String);

/// Reads a [`GreedyString`]: all of `args` without its leading white space; nothing remains.
pub fn greedy_string_argument(args: &str) -> (r: (GreedyString, String))
    ensures
        r.0.0@ == trim_start(args@),
        r.1@ == Seq::<char>::empty(),
{
    let chars = chars_of(args);
    let n = count_leading_whitespace(chars.as_slice());
    let trimmed = args.substring_char(n, chars.len());
    assert(trimmed@ =~= trim_start(args@));
    (GreedyString(trimmed.to_owned()), String::new())
}


/// The integer argument read from `args` when it lies between `min` and `max`: the
/// string argument read as an integer; [`ArgumentError::Missing`] when there is no
/// argument and [`ArgumentError::Misformatted`] when it is not an integer in range.
pub open spec fn integer_argument_spec(args: Seq<char>, min: int, max: int) -> Result<
    (int, Seq<char>),
    ArgumentError,
> {
    match string_argument_spec(args) {
        None => Err(ArgumentError::Missing),
        Some(p) => match (if min < 0 {
            parse_signed(p.0, min, max)
        } else {
            parse_unsigned(p.0, max)
        }) {
            Some(v) => Ok((v, p.1)),
            None => Err(ArgumentError::Misformatted),
        },
    }
}

/// Reads an unsigned integer argument no larger than `max`.
fn unsigned_argument(args: &str, max: u128) -> (r: Result<(u128, String), ArgumentError>)
    ensures
        match integer_argument_spec(args@, 0, max as int) {
            Ok(p) => r matches Ok(x) && x.0 as int == p.0 && x.1@ == p.1,
            Err(e) => r == Err::<(u128, String), ArgumentError>(e),
        },
{
    let (arg, remaining) = match string_argument(args) {
        Ok(v) => v,
        Err(e) => {
            return Err(e);
        },
    };
    let chars = chars_of(arg.as_str());
    match parse_unsigned_up_to(chars.as_slice(), max) {
        Some(num) => Ok((num, remaining)),
        None => Err(ArgumentError::Misformatted),
    }
}

/// Reads a signed integer argument between `min` and `max`.
fn signed_argument(args: &str, min: i128, max: i128) -> (r: Result<(i128, String), ArgumentError>)
    requires
        min < 0 <= max,
    ensures
        match integer_argument_spec(args@, min as int, max as int) {
            Ok(p) => r matches Ok(x) && x.0 as int == p.0 && x.1@ == p.1,
            Err(e) => r == Err::<(i128, String), ArgumentError>(e),
        },
        r matches Ok(x) ==> min <= x.0 <= max,
{
    let (arg, remaining) = match string_argument(args) {
        Ok(v) => v,
        Err(e) => {
            return Err(e);
        },
    };
    let chars = chars_of(arg.as_str());
    match parse_signed_between(chars.as_slice(), min, max) {
        Some(num) => Ok((num, remaining)),
        None => Err(ArgumentError::Misformatted),
    }
}

/// Reads a `i8` argument: a decimal integer in the range of `i8`.
pub fn i8_argument(args: &str) -> (r: Result<(i8, String), ArgumentError>)
    ensures
        match integer_argument_spec(args@, i8::MIN as int, i8::MAX as int) {
            Ok(p) => r matches Ok(x) && x.0 as int == p.0 && x.1@ == p.1,
            Err(e) => r == Err::<(i8, String), ArgumentError>(e),
        },
{
    match signed_argument(args, i8::MIN as i128, i8::MAX as i128) {
        Ok((num, remaining)) => Ok((num as i8, remaining)),
        Err(e) => Err(e),
    }
}

/// Reads a `i16` argument: a decimal integer in the range of `i16`.
pub fn i16_argument(args: &str) -> (r: Result<(i16, String), ArgumentError>)
    ensures
        match integer_argument_spec(args@, i16::MIN as int, i16::MAX as int) {
            Ok(p) => r matches Ok(x) && x.0 as int == p.0 && x.1@ == p.1,
            Err(e) => r == Err::<(i16, String), ArgumentError>(e),
        },
{
    match signed_argument(args, i16::MIN as i128, i16::MAX as i128) {
        Ok((num, remaining)) => Ok((num as i16, remaining)),
        Err(e) => Err(e),
    }
}

/// Reads a `i32` argument: a decimal integer in the range of `i32`.
pub fn i32_argument(args: &str) -> (r: Result<(i32, String), ArgumentError>)
    ensures
        match integer_argument_spec(args@, i32::MIN as int, i32::MAX as int) {
            Ok(p) => r matches Ok(x) && x.0 as int == p.0 && x.1@ == p.1,
            Err(e) => r == Err::<(i32, String), ArgumentError>(e),
        },
{
    match signed_argument(args, i32::MIN as i128, i32::MAX as i128) {
        Ok((num, remaining)) => Ok((num as i32, remaining)),
        Err(e) => Err(e),
    }
}

/// Reads a `i64` argument: a decimal integer in the range of `i64`.
pub fn i64_argument(args: &str) -> (r: Result<(i64, String), ArgumentError>)
    ensures
        match integer_argument_spec(args@, i64::MIN as int, i64::MAX as int) {
            Ok(p) => r matches Ok(x) && x.0 as int == p.0 && x.1@ == p.1,
            Err(e) => r == Err::<(i64, String), ArgumentError>(e),
        },
{
    match signed_argument(args, i64::MIN as i128, i64::MAX as i128) {
        Ok((num, remaining)) => Ok((num as i64, remaining)),
        Err(e) => Err(e),
    }
}

/// Reads a `i128` argument: a decimal integer in the range of `i128`.
pub fn i128_argument(args: &str) -> (r: Result<(i128, String), ArgumentError>)
    ensures
        match integer_argument_spec(args@, i128::MIN as int, i128::MAX as int) {
            Ok(p) => r matches Ok(x) && x.0 as int == p.0 && x.1@ == p.1,
            Err(e) => r == Err::<(i128, String), ArgumentError>(e),
        },
{
    match signed_argument(args, i128::MIN as i128, i128::MAX as i128) {
        Ok((num, remaining)) => Ok((num as i128, remaining)),
        Err(e) => Err(e),
    }
}

/// Reads a `isize` argument: a decimal integer in the range of `isize`.
pub fn isize_argument(args: &str) -> (r: Result<(isize, String), ArgumentError>)
    ensures
        match integer_argument_spec(args@, isize::MIN as int, isize::MAX as int) {
            Ok(p) => r matches Ok(x) && x.0 as int == p.0 && x.1@ == p.1,
            Err(e) => r == Err::<(isize, String), ArgumentError>(e),
        },
{
    match signed_argument(args, isize::MIN as i128, isize::MAX as i128) {
        Ok((num, remaining)) => Ok((num as isize, remaining)),
        Err(e) => Err(e),
    }
}

/// Reads a `u8` argument: a decimal integer in the range of `u8`.
pub fn u8_argument(args: &str) -> (r: Result<(u8, String), ArgumentError>)
    ensures
        match integer_argument_spec(args@, 0, u8::MAX as int) {
            Ok(p) => r matches Ok(x) && x.0 as int == p.0 && x.1@ == p.1,
            Err(e) => r == Err::<(u8, String), ArgumentError>(e),
        },
{
    match unsigned_argument(args, u8::MAX as u128) {
        Ok((num, remaining)) => Ok((num as u8, remaining)),
        Err(e) => Err(e),
    }
}

/// Reads a `u16` argument: a decimal integer in the range of `u16`.
pub fn u16_argument(args: &str) -> (r: Result<(u16, String), ArgumentError>)
    ensures
        match integer_argument_spec(args@, 0, u16::MAX as int) {
            Ok(p) => r matches Ok(x) && x.0 as int == p.0 && x.1@ == p.1,
            Err(e) => r == Err::<(u16, String), ArgumentError>(e),
        },
{
    match unsigned_argument(args, u16::MAX as u128) {
        Ok((num, remaining)) => Ok((num as u16, remaining)),
        Err(e) => Err(e),
    }
}

/// Reads a `u32` argument: a decimal integer in the range of `u32`.
pub fn u32_argument(args: &str) -> (r: Result<(u32, String), ArgumentError>)
    ensures
        match integer_argument_spec(args@, 0, u32::MAX as int) {
            Ok(p) => r matches Ok(x) && x.0 as int == p.0 && x.1@ == p.1,
            Err(e) => r == Err::<(u32, String), ArgumentError>(e),
        },
{
    match unsigned_argument(args, u32::MAX as u128) {
        Ok((num, remaining)) => Ok((num as u32, remaining)),
        Err(e) => Err(e),
    }
}

/// Reads a `u64` argument: a decimal integer in the range of `u64`.
pub fn u64_argument(args: &str) -> (r: Result<(u64, String), ArgumentError>)
    ensures
        match integer_argument_spec(args@, 0, u64::MAX as int) {
            Ok(p) => r matches Ok(x) && x.0 as int == p.0 && x.1@ == p.1,
            Err(e) => r == Err::<(u64, String), ArgumentError>(e),
        },
{
    match unsigned_argument(args, u64::MAX as u128) {
        Ok((num, remaining)) => Ok((num as u64, remaining)),
        Err(e) => Err(e),
    }
}

/// Reads a `u128` argument: a decimal integer in the range of `u128`.
pub fn u128_argument(args: &str) -> (r: Result<(u128, String), ArgumentError>)
    ensures
        match integer_argument_spec(args@, 0, u128::MAX as int) {
            Ok(p) => r matches Ok(x) && x.0 as int == p.0 && x.1@ == p.1,
            Err(e) => r == Err::<(u128, String), ArgumentError>(e),
        },
{
    match unsigned_argument(args, u128::MAX as u128) {
        Ok((num, remaining)) => Ok((num as u128, remaining)),
        Err(e) => Err(e),
    }
}

/// Reads a `usize` argument: a decimal integer in the range of `usize`.
pub fn usize_argument(args: &str) -> (r: Result<(usize, String), ArgumentError>)
    ensures
        match integer_argument_spec(args@, 0, usize::MAX as int) {
            Ok(p) => r matches Ok(x) && x.0 as int == p.0 && x.1@ == p.1,
            Err(e) => r == Err::<(usize, String), ArgumentError>(e),
        },
{
    match unsigned_argument(args, usize::MAX as u128) {
        Ok((num, remaining)) => Ok((num as usize, remaining)),
        Err(e) => Err(e),
    }
}

/// Reads a `char` argument: a string argument made of exactly one character;
/// [`ArgumentError::Misformatted`] otherwise.
pub fn char_argument(args: &str) -> (r: Result<(char, String), ArgumentError>)
    ensures
        match string_argument_spec(args@) {
            None => r == Err::<(char, String), ArgumentError>(ArgumentError::Missing),
            Some(p) => if p.0.len() == 1 {
                r matches Ok(x) && x.0 == p.0[0] && x.1@ == p.1
            } else {
                r == Err::<(char, String), ArgumentError>(ArgumentError::Misformatted)
            },
        },
{
    let (arg, remaining) = match string_argument(args) {
        Ok(v) => v,
        Err(e) => {
            return Err(e);
        },
    };
    let chars = chars_of(arg.as_str());
    if chars.len() == 1 {
        Ok((chars[0], remaining))
    } else {
        Err(ArgumentError::Misformatted)
    }
}

/// `c` with ASCII upper case letters turned into lower case.
pub open spec fn ascii_lowercase(c: char) -> char {
    if 'A' <= c && c <= 'Z' {
        (c as int + 32) as char
    } else {
        c
    }
}

/// The boolean a word stands for, ignoring case: `true`, `y`, `yes`, `1` and `on` stand
/// for `true`; `false`, `n`, `no`, `0` and `off` for `false`.
///
/// No character outside ASCII lower-cases to a letter or digit of these words, so
/// ignoring ASCII case is the same as comparing the word's Unicode lower case.
pub open spec fn bool_word(s: Seq<char>) -> Option<bool> {
    let l = s.map_values(|c: char| ascii_lowercase(c));
    if l == seq!['t', 'r', 'u', 'e'] || l == seq!['y'] || l == seq!['y', 'e', 's'] || l
        == seq!['1'] || l == seq!['o', 'n'] {
        Some(true)
    } else if l == seq!['f', 'a', 'l', 's', 'e'] || l == seq!['n'] || l == seq!['n', 'o'] || l
        == seq!['0'] || l == seq!['o', 'f', 'f'] {
        Some(false)
    } else {
        None
    }
}

fn lowercase_chars(s: &[char]) -> (r: Vec<char>)
    ensures
        r@ == s@.map_values(|c: char| ascii_lowercase(c)),
{
    let mut r: Vec<char> = Vec::new();
    let mut k: usize = 0;
    while k < s.len()
        invariant
            k <= s.len(),
            r@ == s@.take(k as int).map_values(|c: char| ascii_lowercase(c)),
        decreases s.len() - k,
    {
        let c = s[k];
        let l = if 'A' <= c && c <= 'Z' {
            ((c as u8) + 32) as char
        } else {
            c
        };
        r.push(l);
        k += 1;
        assert(r@ =~= s@.take(k as int).map_values(|c: char| ascii_lowercase(c)));
    }
    assert(s@.take(s.len() as int) =~= s@);
    r
}

fn chars_eq(a: &[char], b: &[char]) -> (r: bool)
    ensures
        r == (a@ == b@),
{
    if a.len() != b.len() {
        return false;
    }
    let mut k: usize = 0;
    while k < a.len()
        invariant
            k <= a.len(),
            a.len() == b.len(),
            forall|j: int| 0 <= j < k ==> a@[j] == b@[j],
        decreases a.len() - k,
    {
        if a[k] != b[k] {
            return false;
        }
        k += 1;
    }
    assert(a@ =~= b@);
    true
}

/// Whether `w` spells `lower` (lower-case letters and digits) with each letter in either
/// case.
pub open spec fn spells_ignoring_case(w: Seq<char>, lower: Seq<char>) -> bool {
    &&& w.len() == lower.len()
    &&& forall|i: int|
        0 <= i < w.len() ==> (#[trigger] w[i] == lower[i] || ('a' <= lower[i] <= 'z' && w[i]
            as int == lower[i] as int - 32))
}

/// Whether `w` is, in any case, one of the words that stand for `true`.
pub open spec fn is_true_word(w: Seq<char>) -> bool {
    ||| spells_ignoring_case(w, seq!['t', 'r', 'u', 'e'])
    ||| spells_ignoring_case(w, seq!['y'])
    ||| spells_ignoring_case(w, seq!['y', 'e', 's'])
    ||| spells_ignoring_case(w, seq!['1'])
    ||| spells_ignoring_case(w, seq!['o', 'n'])
}

/// Whether `w` is, in any case, one of the words that stand for `false`.
pub open spec fn is_false_word(w: Seq<char>) -> bool {
    ||| spells_ignoring_case(w, seq!['f', 'a', 'l', 's', 'e'])
    ||| spells_ignoring_case(w, seq!['n'])
    ||| spells_ignoring_case(w, seq!['n', 'o'])
    ||| spells_ignoring_case(w, seq!['0'])
    ||| spells_ignoring_case(w, seq!['o', 'f', 'f'])
}

/// `true`, `y`, `yes`, `1` and `on`, in any case, read as `true`; `false`, `n`, `no`, `0`
/// and `off`, in any case, read as `false`; and no other word reads as a boolean.
///
/// For example `YES` and `On` are `true`, `No` and `0` are `false`, and `maybe` is none.
pub proof fn law_bool_words(w: Seq<char>)
    ensures
        is_true_word(w) ==> bool_word(w) == Some(true),
        is_false_word(w) ==> bool_word(w) == Some(false),
        bool_word(w) == Some(true) ==> is_true_word(w),
        bool_word(w) == Some(false) ==> is_false_word(w),
        !is_true_word(w) && !is_false_word(w) ==> bool_word(w) is None,
{
    lemma_spells_ignoring_case(w, seq!['t', 'r', 'u', 'e']);
    lemma_spells_ignoring_case(w, seq!['y']);
    lemma_spells_ignoring_case(w, seq!['y', 'e', 's']);
    lemma_spells_ignoring_case(w, seq!['1']);
    lemma_spells_ignoring_case(w, seq!['o', 'n']);
    lemma_spells_ignoring_case(w, seq!['f', 'a', 'l', 's', 'e']);
    lemma_spells_ignoring_case(w, seq!['n']);
    lemma_spells_ignoring_case(w, seq!['n', 'o']);
    lemma_spells_ignoring_case(w, seq!['0']);
    lemma_spells_ignoring_case(w, seq!['o', 'f', 'f']);
    let l = w.map_values(|c: char| ascii_lowercase(c));
    if l.len() > 0 {
        assert(seq!['t', 'r', 'u', 'e'][0] == 't');
        assert(seq!['y'][0] == 'y');
        assert(seq!['y', 'e', 's'][0] == 'y');
        assert(seq!['1'][0] == '1');
        assert(seq!['o', 'n'][1] == 'n');
        assert(seq!['f', 'a', 'l', 's', 'e'][0] == 'f');
        assert(seq!['n'][0] == 'n');
        assert(seq!['n', 'o'][1] == 'o');
        assert(seq!['0'][0] == '0');
        assert(seq!['o', 'f', 'f'][0] == 'o');
    }
}

/// For a word of lower-case letters and digits, spelling it in any case is lower-casing
/// to it.
proof fn lemma_spells_ignoring_case(w: Seq<char>, lower: Seq<char>)
    requires
        forall|i: int|
            0 <= i < lower.len() ==> ('a' <= #[trigger] lower[i] <= 'z' || '0' <= lower[i] <= '9'),
    ensures
        spells_ignoring_case(w, lower) == (w.map_values(|c: char| ascii_lowercase(c)) == lower),
{
    let l = w.map_values(|c: char| ascii_lowercase(c));
    if spells_ignoring_case(w, lower) {
        assert forall|i: int| 0 <= i < l.len() implies l[i] == lower[i] by {
            assert(w[i] == lower[i] || ('a' <= lower[i] <= 'z' && w[i] as int == lower[i] as int
                - 32));
        }
        assert(l =~= lower);
    }
    if l == lower {
        assert forall|i: int| 0 <= i < w.len() implies (#[trigger] w[i] == lower[i] || ('a'
            <= lower[i] <= 'z' && w[i] as int == lower[i] as int - 32)) by {
            assert(l[i] == ascii_lowercase(w[i]));
            assert(lower[i] == l[i]);
        }
    }
}

/// Reads a `bool` argument: one of the words of [`bool_word`], in any case;
/// [`ArgumentError::Misformatted`] for any other word.
pub fn bool_argument(args: &str) -> (r: Result<(bool, String), ArgumentError>)
    ensures
        match string_argument_spec(args@) {
            None => r == Err::<(bool, String), ArgumentError>(ArgumentError::Missing),
            Some(p) => match bool_word(p.0) {
                Some(b) => r matches Ok(x) && x.0 == b && x.1@ == p.1,
                None => r == Err::<(bool, String), ArgumentError>(ArgumentError::Misformatted),
            },
        },
{
    let (arg, remaining) = match string_argument(args) {
        Ok(v) => v,
        Err(e) => {
            return Err(e);
        },
    };
    let chars = chars_of(arg.as_str());
    match read_bool_word(chars.as_slice()) {
        Some(b) => Ok((b, remaining)),
        None => Err(ArgumentError::Misformatted),
    }
}

/// Reads the boolean a word stands for (see [`bool_word`]).
pub fn read_bool_word(word: &[char]) -> (r: Option<bool>)
    ensures
        r == bool_word(word@),
{
    let l = lowercase_chars(word);
    let ls = l.as_slice();
    let w_true = ['t', 'r', 'u', 'e'];
    let w_y = ['y'];
    let w_yes = ['y', 'e', 's'];
    let w_1 = ['1'];
    let w_on = ['o', 'n'];
    let w_false = ['f', 'a', 'l', 's', 'e'];
    let w_n = ['n'];
    let w_no = ['n', 'o'];
    let w_0 = ['0'];
    let w_off = ['o', 'f', 'f'];
    assert(w_true@ =~= seq!['t', 'r', 'u', 'e']);
    assert(w_y@ =~= seq!['y']);
    assert(w_yes@ =~= seq!['y', 'e', 's']);
    assert(w_1@ =~= seq!['1']);
    assert(w_on@ =~= seq!['o', 'n']);
    assert(w_false@ =~= seq!['f', 'a', 'l', 's', 'e']);
    assert(w_n@ =~= seq!['n']);
    assert(w_no@ =~= seq!['n', 'o']);
    assert(w_0@ =~= seq!['0']);
    assert(w_off@ =~= seq!['o', 'f', 'f']);
    if chars_eq(ls, &w_true) || chars_eq(ls, &w_y) || chars_eq(ls, &w_yes) || chars_eq(ls, &w_1)
        || chars_eq(ls, &w_on) {
        Some(true)
    } else if chars_eq(ls, &w_false) || chars_eq(ls, &w_n) || chars_eq(ls, &w_no) || chars_eq(
        ls,
        &w_0,
    ) || chars_eq(ls, &w_off) {
        Some(false)
    } else {
        None
    }
}

/// Makes an argument optional: a successfully read argument `a` with remaining text `r`
/// gives `(Some(a), r)`; a failure gives `None` and leaves the raw arguments untouched.
pub fn optional_argument<T>(result: Result<(T, String), ArgumentError>, args: String) -> (r: (
    Option<T>,
    String,
))
    ensures
        match result {
            Ok(p) => r.0 == Some(p.0) && r.1 == p.1,
            Err(_) => r.0 is None && r.1 == args,
        },
{
    match result {
        Ok((arg, remaining)) => (Some(arg), remaining),
        Err(_) => (None, args),
    }
}


// ---------------------------------------------------------------------------
// Mentions
// ---------------------------------------------------------------------------

/// The ID in a user mention such as `<@123>`, as `twilight_mention` reads it; `None` when
/// `text` is not a user mention.
pub uninterp spec fn user_mention_id(text: Seq<char>) -> Option<u64>;

/// The ID in a channel mention such as `<#123>`, as `twilight_mention` reads it; `None`
/// when `text` is not a channel mention.
pub uninterp spec fn channel_mention_id(text: Seq<char>) -> Option<u64>;

/// The ID in a role mention such as `<@&123>`, as `twilight_mention` reads it; `None`
/// when `text` is not a role mention.
pub uninterp spec fn role_mention_id(text: Seq<char>) -> Option<u64>;

/// Reads a user mention with `<Id<UserMarker> as twilight_mention::ParseMention>::parse`.
///
/// Trusted: the result is the ID the outside parser reads from `text` (named
/// [`user_mention_id`], a function of the text alone), and such IDs are nonzero since
/// they are `Id`s.
#[verifier::external_body]
fn parse_user_mention(text: &str) -> (r: Option<u64>)
    ensures
        r == user_mention_id(text@),
        r matches Some(id) ==> id != 0,
{
    match Id::<UserMarker>::parse(text) {
        Ok(id) => Some(id.get()),
        Err(_) => None,
    }
}

/// Reads a channel mention with `<Id<ChannelMarker> as twilight_mention::ParseMention>::parse`.
///
/// Trusted: the result is the ID the outside parser reads from `text` (named
/// [`channel_mention_id`]), and such IDs are nonzero.
#[verifier::external_body]
fn parse_channel_mention(text: &str) -> (r: Option<u64>)
    ensures
        r == channel_mention_id(text@),
        r matches Some(id) ==> id != 0,
{
    match Id::<ChannelMarker>::parse(text) {
        Ok(id) => Some(id.get()),
        Err(_) => None,
    }
}

/// Reads a role mention with `<Id<RoleMarker> as twilight_mention::ParseMention>::parse`.
///
/// Trusted: the result is the ID the outside parser reads from `text` (named
/// [`role_mention_id`]), and such IDs are nonzero.
#[verifier::external_body]
fn parse_role_mention(text: &str) -> (r: Option<u64>)
    ensures
        r == role_mention_id(text@),
        r matches Some(id) ==> id != 0,
{
    match Id::<RoleMarker>::parse(text) {
        Ok(id) => Some(id.get()),
        Err(_) => None,
    }
}

/// Whether some user mentioned in the message has the ID `id`.
pub open spec fn user_mentioned(mentions: Seq<UserMention>, id: u64) -> bool {
    exists|k: int| 0 <= k < mentions.len() && mentions[k].id == id
}

/// Whether some channel mentioned in the message has the ID `id`.
pub open spec fn channel_mentioned(mentions: Seq<ChannelMention>, id: u64) -> bool {
    exists|k: int| 0 <= k < mentions.len() && mentions[k].id == id
}

/// Finds the first user mentioned in the message whose ID is the parsed mention's.
///
/// A text that is no user mention (`parsed` is `None`) is [`ArgumentError::Misformatted`];
/// a mention of a user the message does not carry is [`ArgumentError::MissingResolved`].
pub fn resolve_user_mention(parsed: Option<u64>, mentions: &Vec<UserMention>) -> (r: Result<
    UserMention,
    ArgumentError,
>)
    ensures
        match parsed {
            None => r == Err::<UserMention, ArgumentError>(ArgumentError::Misformatted),
            Some(id) => if user_mentioned(mentions@, id) {
                r matches Ok(m) && exists|k: int|
                    0 <= k < mentions@.len() && mentions@[k] == m && m.id == id && forall|j: int|
                        0 <= j < k ==> mentions@[j].id != id
            } else {
                r == Err::<UserMention, ArgumentError>(ArgumentError::MissingResolved)
            },
        },
{
    let id = match parsed {
        Some(id) => id,
        None => {
            return Err(ArgumentError::Misformatted);
        },
    };
    let mut k: usize = 0;
    while k < mentions.len()
        invariant
            k <= mentions.len(),
            parsed == Some(id),
            forall|j: int| 0 <= j < k ==> mentions@[j].id != id,
        decreases mentions.len() - k,
    {
        if mentions[k].id == id {
            return Ok(mentions[k].clone());
        }
        k += 1;
    }
    Err(ArgumentError::MissingResolved)
}

/// Finds the first channel mentioned in the message whose ID is the parsed mention's.
///
/// A text that is no channel mention is [`ArgumentError::Misformatted`]; a mention of a
/// channel the message does not carry is [`ArgumentError::MissingResolved`].
pub fn resolve_channel_mention(parsed: Option<u64>, mentions: &Vec<ChannelMention>) -> (r: Result<
    ChannelMention,
    ArgumentError,
>)
    ensures
        match parsed {
            None => r == Err::<ChannelMention, ArgumentError>(ArgumentError::Misformatted),
            Some(id) => if channel_mentioned(mentions@, id) {
                r matches Ok(m) && exists|k: int|
                    0 <= k < mentions@.len() && mentions@[k] == m && m.id == id && forall|j: int|
                        0 <= j < k ==> mentions@[j].id != id
            } else {
                r == Err::<ChannelMention, ArgumentError>(ArgumentError::MissingResolved)
            },
        },
{
    let id = match parsed {
        Some(id) => id,
        None => {
            return Err(ArgumentError::Misformatted);
        },
    };
    let mut k: usize = 0;
    while k < mentions.len()
        invariant
            k <= mentions.len(),
            parsed == Some(id),
            forall|j: int| 0 <= j < k ==> mentions@[j].id != id,
        decreases mentions.len() - k,
    {
        if mentions[k].id == id {
            return Ok(mentions[k].clone());
        }
        k += 1;
    }
    Err(ArgumentError::MissingResolved)
}

/// Checks a parsed role mention against the roles the message mentions.
///
/// A text that is no role mention is [`ArgumentError::Misformatted`]; a mention of a role
/// the message does not carry is [`ArgumentError::MissingResolved`].
pub fn resolve_role_mention(parsed: Option<u64>, mention_roles: &Vec<u64>) -> (r: Result<
    RoleMention,
    ArgumentError,
>)
    ensures
        match parsed {
            None => r == Err::<RoleMention, ArgumentError>(ArgumentError::Misformatted),
            Some(id) => if mention_roles@.contains(id) {
                r == Ok::<RoleMention, ArgumentError>(RoleMention { id })
            } else {
                r == Err::<RoleMention, ArgumentError>(ArgumentError::MissingResolved)
            },
        },
{
    let id = match parsed {
        Some(id) => id,
        None => {
            return Err(ArgumentError::Misformatted);
        },
    };
    let mut k: usize = 0;
    while k < mention_roles.len()
        invariant
            k <= mention_roles.len(),
            parsed == Some(id),
            forall|j: int| 0 <= j < k ==> mention_roles@[j] != id,
        decreases mention_roles.len() - k,
    {
        if mention_roles[k] == id {
            return Ok(RoleMention { id });
        }
        k += 1;
    }
    Err(ArgumentError::MissingResolved)
}

/// Reads a user argument: a mention of a user the message carries. The user's ID is
/// returned with the remaining raw arguments; fetching the user is left to the caller.
pub fn user_argument(args: &str, mentions: &Vec<UserMention>) -> (r: Result<
    (u64, String),
    ArgumentError,
>)
    ensures
        match string_argument_spec(args@) {
            None => r == Err::<(u64, String), ArgumentError>(ArgumentError::Missing),
            Some(p) => match user_mention_id(p.0) {
                None => r == Err::<(u64, String), ArgumentError>(ArgumentError::Misformatted),
                Some(id) => if user_mentioned(mentions@, id) {
                    r matches Ok(x) && x.0 == id && x.1@ == p.1
                } else {
                    r == Err::<(u64, String), ArgumentError>(ArgumentError::MissingResolved)
                },
            },
        },
{
    let (arg, remaining) = match string_argument(args) {
        Ok(v) => v,
        Err(e) => {
            return Err(e);
        },
    };
    let parsed = parse_user_mention(arg.as_str());
    match resolve_user_mention(parsed, mentions) {
        Ok(mention) => Ok((mention.id, remaining)),
        Err(e) => Err(e),
    }
}

/// Reads a user mention argument: the mentioned user as the message carries it.
pub fn user_mention_argument(args: &str, mentions: &Vec<UserMention>) -> (r: Result<
    (UserMention, String),
    ArgumentError,
>)
    ensures
        match string_argument_spec(args@) {
            None => r == Err::<(UserMention, String), ArgumentError>(ArgumentError::Missing),
            Some(p) => match user_mention_id(p.0) {
                None => r == Err::<(UserMention, String), ArgumentError>(
                    ArgumentError::Misformatted,
                ),
                Some(id) => if user_mentioned(mentions@, id) {
                    r matches Ok(x) && x.1@ == p.1 && exists|k: int|
                        0 <= k < mentions@.len() && mentions@[k] == x.0 && x.0.id == id
                            && forall|j: int| 0 <= j < k ==> mentions@[j].id != id
                } else {
                    r == Err::<(UserMention, String), ArgumentError>(
                        ArgumentError::MissingResolved,
                    )
                },
            },
        },
{
    let (arg, remaining) = match string_argument(args) {
        Ok(v) => v,
        Err(e) => {
            return Err(e);
        },
    };
    let parsed = parse_user_mention(arg.as_str());
    match resolve_user_mention(parsed, mentions) {
        Ok(mention) => Ok((mention, remaining)),
        Err(e) => Err(e),
    }
}

/// Reads a channel argument: a mention of a channel the message carries. The channel's
/// ID is returned with the remaining raw arguments; fetching the channel is left to the
/// caller.
pub fn channel_argument(args: &str, mentions: &Vec<ChannelMention>) -> (r: Result<
    (u64, String),
    ArgumentError,
>)
    ensures
        match string_argument_spec(args@) {
            None => r == Err::<(u64, String), ArgumentError>(ArgumentError::Missing),
            Some(p) => match channel_mention_id(p.0) {
                None => r == Err::<(u64, String), ArgumentError>(ArgumentError::Misformatted),
                Some(id) => if channel_mentioned(mentions@, id) {
                    r matches Ok(x) && x.0 == id && x.1@ == p.1
                } else {
                    r == Err::<(u64, String), ArgumentError>(ArgumentError::MissingResolved)
                },
            },
        },
{
    let (arg, remaining) = match string_argument(args) {
        Ok(v) => v,
        Err(e) => {
            return Err(e);
        },
    };
    let parsed = parse_channel_mention(arg.as_str());
    match resolve_channel_mention(parsed, mentions) {
        Ok(mention) => Ok((mention.id, remaining)),
        Err(e) => Err(e),
    }
}

/// Reads a channel mention argument: the mentioned channel as the message carries it.
pub fn channel_mention_argument(args: &str, mentions: &Vec<ChannelMention>) -> (r: Result<
    (ChannelMention, String),
    ArgumentError,
>)
    ensures
        match string_argument_spec(args@) {
            None => r == Err::<(ChannelMention, String), ArgumentError>(ArgumentError::Missing),
            Some(p) => match channel_mention_id(p.0) {
                None => r == Err::<(ChannelMention, String), ArgumentError>(
                    ArgumentError::Misformatted,
                ),
                Some(id) => if channel_mentioned(mentions@, id) {
                    r matches Ok(x) && x.1@ == p.1 && exists|k: int|
                        0 <= k < mentions@.len() && mentions@[k] == x.0 && x.0.id == id
                            && forall|j: int| 0 <= j < k ==> mentions@[j].id != id
                } else {
                    r == Err::<(ChannelMention, String), ArgumentError>(
                        ArgumentError::MissingResolved,
                    )
                },
            },
        },
{
    let (arg, remaining) = match string_argument(args) {
        Ok(v) => v,
        Err(e) => {
            return Err(e);
        },
    };
    let parsed = parse_channel_mention(arg.as_str());
    match resolve_channel_mention(parsed, mentions) {
        Ok(mention) => Ok((mention, remaining)),
        Err(e) => Err(e),
    }
}

/// Reads a role argument, which only exists in a server: outside one (`guild_id` is
/// `None`) it is [`ArgumentError::WrongContext`], before anything is read. Otherwise the
/// argument is a mention of a role the message carries; the role's ID is returned with
/// the remaining raw arguments, and fetching the role is left to the caller.
pub fn role_argument(args: &str, guild_id: Option<u64>, mention_roles: &Vec<u64>) -> (r: Result<
    (u64, String),
    ArgumentError,
>)
    ensures
        guild_id is None ==> r == Err::<(u64, String), ArgumentError>(ArgumentError::WrongContext),
        guild_id is Some ==> match string_argument_spec(args@) {
            None => r == Err::<(u64, String), ArgumentError>(ArgumentError::Missing),
            Some(p) => match role_mention_id(p.0) {
                None => r == Err::<(u64, String), ArgumentError>(ArgumentError::Misformatted),
                Some(id) => if mention_roles@.contains(id) {
                    r matches Ok(x) && x.0 == id && x.1@ == p.1
                } else {
                    r == Err::<(u64, String), ArgumentError>(ArgumentError::MissingResolved)
                },
            },
        },
{
    if guild_id.is_none() {
        return Err(ArgumentError::WrongContext);
    }
    let (arg, remaining) = match string_argument(args) {
        Ok(v) => v,
        Err(e) => {
            return Err(e);
        },
    };
    let parsed = parse_role_mention(arg.as_str());
    match resolve_role_mention(parsed, mention_roles) {
        Ok(mention) => Ok((mention.id, remaining)),
        Err(e) => Err(e),
    }
}

/// Reads a role mention argument: a mention of a role the message carries.
pub fn role_mention_argument(args: &str, mention_roles: &Vec<u64>) -> (r: Result<
    (RoleMention, String),
    ArgumentError,
>)
    ensures
        match string_argument_spec(args@) {
            None => r == Err::<(RoleMention, String), ArgumentError>(ArgumentError::Missing),
            Some(p) => match role_mention_id(p.0) {
                None => r == Err::<(RoleMention, String), ArgumentError>(
                    ArgumentError::Misformatted,
                ),
                Some(id) => if mention_roles@.contains(id) {
                    r matches Ok(x) && x.0 == (RoleMention { id }) && x.1@ == p.1
                } else {
                    r == Err::<(RoleMention, String), ArgumentError>(
                        ArgumentError::MissingResolved,
                    )
                },
            },
        },
{
    let (arg, remaining) = match string_argument(args) {
        Ok(v) => v,
        Err(e) => {
            return Err(e);
        },
    };
    let parsed = parse_role_mention(arg.as_str());
    match resolve_role_mention(parsed, mention_roles) {
        Ok(mention) => Ok((mention, remaining)),
        Err(e) => Err(e),
    }
}

} // verus!
