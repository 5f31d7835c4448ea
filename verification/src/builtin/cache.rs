//! The keys under which the built-in Redis cache stores users.
//!
//! A user is stored twice, under `user:id:{id}` and under `user:name:{name}`.

use vstd::prelude::*;

use crate::numbers::{decimal, digit_char};
use crate::text::push_char;

verus! {

fn digit(d: u64) -> (c: char)
    requires
        d < 10,
    ensures
        c == digit_char(d as nat),
{
    if d == 0 {
        '0'
    } else if d == 1 {
        '1'
    } else if d == 2 {
        '2'
    } else if d == 3 {
        '3'
    } else if d == 4 {
        '4'
    } else if d == 5 {
        '5'
    } else if d == 6 {
        '6'
    } else if d == 7 {
        '7'
    } else if d == 8 {
        '8'
    } else {
        '9'
    }
}

/// The key of the user with ID `id`.
pub open spec fn spec_user_id_key(id: u64) -> Seq<char> {
    "user:id:"@ + decimal(id as nat)
}

/// The key of the user named `name`.
pub open spec fn spec_user_name_key(name: Seq<char>) -> Seq<char> {
    "user:name:"@ + name
}

fn push_decimal(s: &mut String, n: u64)
    ensures
        final(s)@ == old(s)@ + decimal(n as nat),
    decreases n,
{
    if n >= 10 {
        push_decimal(s, n / 10);
    }
    let c = digit(n % 10);
    push_char(s, c);
    assert(old(s)@ + decimal(n as nat) =~= if n >= 10 {
        old(s)@ + decimal((n / 10) as nat) + seq![c]
    } else {
        old(s)@ + seq![c]
    });
}

/// Returns the key under which the user with ID `id` is stored: `user:id:` followed by the
/// ID in decimal.
pub fn user_id_key(id: u64) -> (r: String)
    ensures
        r@ == spec_user_id_key(id),
{
    let prefix = "user:id:";
    let mut s = prefix.to_owned();
    push_decimal(&mut s, id);
    s
}

/// Returns the key under which the user named `name` is stored: `user:name:` followed by
/// the name.
pub fn user_name_key(name: &str) -> (r: String)
    ensures
        r@ == spec_user_name_key(name@),
{
    let prefix = "user:name:";
    let mut s = prefix.to_owned();
    let ghost start = s@;
    for c in it: name.chars()
        invariant
            s@ == start + it.seq().take(it.index() as int),
            it.seq() == name@,
    {
        proof {
            assert(it.seq().take(it.index() + 1) =~= it.seq().take(it.index() as int).push(c));
        }
        push_char(&mut s, c);
    }
    proof {
        assert(name@.take(name@.len() as int) =~= name@);
    }
    s
}

proof fn lemma_decimal_len(n: nat)
    ensures
        decimal(n).len() >= 1,
        n >= 10 ==> decimal(n).len() >= 2,
    decreases n,
{
    if n >= 10 {
        lemma_decimal_len(n / 10);
    }
}

proof fn lemma_decimal_injective(a: nat, b: nat)
    requires
        decimal(a) == decimal(b),
    ensures
        a == b,
    decreases a,
{
    lemma_decimal_len(a);
    lemma_decimal_len(b);
    if a < 10 && b < 10 {
        assert(decimal(a)[0] == digit_char(a));
        assert(decimal(b)[0] == digit_char(b));
        assert(digit_char(a) == digit_char(b));
    } else if a >= 10 && b >= 10 {
        assert(decimal(a).last() == digit_char(a % 10));
        assert(decimal(b).last() == digit_char(b % 10));
        assert(a % 10 == b % 10);
        assert(decimal(a).drop_last() =~= decimal(a / 10));
        assert(decimal(b).drop_last() =~= decimal(b / 10));
        lemma_decimal_injective(a / 10, b / 10);
        assert(a == 10 * (a / 10) + a % 10);
        assert(b == 10 * (b / 10) + b % 10);
    } else {
        assert(decimal(a).len() != decimal(b).len());
    }
}

/// Different users are stored under different keys: two IDs give the same key only when they
/// are equal, two names only when they are equal, and no ID key is a name key.
pub proof fn law_user_keys_are_distinct(a: u64, b: u64, m: Seq<char>, n: Seq<char>)
    ensures
        spec_user_id_key(a) == spec_user_id_key(b) ==> a == b,
        spec_user_name_key(m) == spec_user_name_key(n) ==> m == n,
        spec_user_id_key(a) != spec_user_name_key(m),
{
    reveal_strlit("user:id:");
    reveal_strlit("user:name:");
    if spec_user_id_key(a) == spec_user_id_key(b) {
        assert(spec_user_id_key(a).skip(8) =~= decimal(a as nat));
        assert(spec_user_id_key(b).skip(8) =~= decimal(b as nat));
        lemma_decimal_injective(a as nat, b as nat);
    }
    if spec_user_name_key(m) == spec_user_name_key(n) {
        assert(spec_user_name_key(m).skip(10) =~= m);
        assert(spec_user_name_key(n).skip(10) =~= n);
    }
    assert(spec_user_id_key(a)[5] == 'i');
    assert(spec_user_name_key(m)[5] == 'n');
}

} // verus!
