//! Decimal integers as written in command arguments.
//!
//! The accepted syntax is that of Rust's integer `FromStr`: an optional sign (`+`, or `-`
//! for signed types) followed by one or more ASCII digits, with no white space, and a
//! value inside the target type's range.

use vstd::prelude::*;

verus! {

/// Whether `c` is an ASCII digit.
pub open spec fn is_digit(c: char) -> bool {
    '0' <= c && c <= '9'
}

/// The value of an ASCII digit.
pub open spec fn digit_value(c: char) -> int {
    c as int - '0' as int
}

/// Whether all characters of `s` are ASCII digits.
pub open spec fn all_digits(s: Seq<char>) -> bool {
    forall|i: int| 0 <= i < s.len() ==> #[trigger] is_digit(s[i])
}

/// The value of a string of decimal digits.
pub open spec fn digits_value(s: Seq<char>) -> int
    decreases s.len(),
{
    if s.len() == 0 {
        0
    } else {
        digits_value(s.drop_last()) * 10 + digit_value(s.last())
    }
}

/// The value of `s` read as an unsigned integer no larger than `max`.
pub open spec fn parse_unsigned(s: Seq<char>, max: int) -> Option<int> {
    let body = if s.len() > 0 && s[0] == '+' {
        s.drop_first()
    } else {
        s
    };
    if body.len() > 0 && all_digits(body) && digits_value(body) <= max {
        Some(digits_value(body))
    } else {
        None
    }
}

/// The value of `s` read as a signed integer between `min` and `max`.
pub open spec fn parse_signed(s: Seq<char>, min: int, max: int) -> Option<int> {
    if s.len() > 0 && s[0] == '-' {
        let body = s.drop_first();
        if body.len() > 0 && all_digits(body) && -digits_value(body) >= min {
            Some(-digits_value(body))
        } else {
            None
        }
    } else {
        parse_unsigned(s, max)
    }
}

proof fn lemma_digits_value_step(s: Seq<char>, k: int)
    requires
        0 <= k < s.len(),
    ensures
        digits_value(s.take(k + 1)) == digits_value(s.take(k)) * 10 + digit_value(s[k]),
{
    assert(s.take(k + 1).drop_last() =~= s.take(k));
}

proof fn lemma_digits_value_nonneg(s: Seq<char>)
    requires
        all_digits(s),
    ensures
        digits_value(s) >= 0,
    decreases s.len(),
{
    if s.len() > 0 {
        assert(all_digits(s.drop_last()));
        lemma_digits_value_nonneg(s.drop_last());
        assert(is_digit(s[s.len() - 1]));
    }
}

proof fn lemma_digits_value_monotone(s: Seq<char>, j: int, k: int)
    requires
        0 <= j <= k <= s.len(),
        all_digits(s),
    ensures
        digits_value(s.take(j)) <= digits_value(s.take(k)),
    decreases k - j,
{
    if j < k {
        lemma_digits_value_monotone(s, j, k - 1);
        lemma_digits_value_step(s, k - 1);
        assert(all_digits(s.take(k - 1)));
        lemma_digits_value_nonneg(s.take(k - 1));
        assert(is_digit(s[k - 1]));
    }
}

/// Returns the value of the digit string `body` when it is a nonempty string of ASCII
/// digits whose value is at most `max`.
fn digits_up_to(body: &[char], max: u128) -> (r: Option<u128>)
    ensures
        (r is Some) == (body@.len() > 0 && all_digits(body@) && digits_value(body@) <= max),
        r matches Some(v) ==> v as int == digits_value(body@),
{
    if body.len() == 0 {
        return None;
    }
    let mut acc: u128 = 0;
    let mut k: usize = 0;
    assert(body@.take(0) =~= Seq::<char>::empty());
    while k < body.len()
        invariant
            k <= body.len(),
            acc == digits_value(body@.take(k as int)),
            acc <= max,
            all_digits(body@.take(k as int)),
        decreases body.len() - k,
    {
        let c = body[k];
        proof {
            lemma_digits_value_step(body@, k as int);
        }
        if !('0' <= c && c <= '9') {
            assert(!is_digit(body@[k as int]));
            return None;
        }
        let d: u128 = (c as u32 - '0' as u32) as u128;
        if d > max || acc > (max - d) / 10 {
            proof {
                assert(acc * 10 + d > max) by (nonlinear_arith)
                    requires
                        d > max || acc > (max - d) / 10,
                        acc >= 0,
                        d >= 0,
                ;
                if all_digits(body@) {
                    lemma_digits_value_monotone(body@, k + 1, body@.len() as int);
                    assert(body@.take(body@.len() as int) =~= body@);
                }
            }
            return None;
        }
        assert(acc * 10 + d <= max) by (nonlinear_arith)
            requires
                d <= max,
                acc <= (max - d) / 10,
                acc >= 0,
        ;
        acc = acc * 10 + d;
        k += 1;
        assert(all_digits(body@.take(k as int))) by {
            assert forall|i: int| 0 <= i < k implies #[trigger] is_digit(body@.take(k as int)[i]) by {
                if i < k - 1 {
                    assert(body@.take(k as int)[i] == body@.take(k - 1)[i]);
                }
            }
        }
    }
    assert(body@.take(body@.len() as int) =~= body@);
    Some(acc)
}

/// Reads `s` as an unsigned integer no larger than `max`.
pub fn parse_unsigned_up_to(s: &[char], max: u128) -> (r: Option<u128>)
    ensures
        r matches Some(v) ==> parse_unsigned(s@, max as int) == Some(v as int),
        r is None ==> parse_unsigned(s@, max as int) is None,
{
    if s.len() > 0 && s[0] == '+' {
        let body = slice_skip_first(s);
        digits_up_to(body, max)
    } else {
        digits_up_to(s, max)
    }
}

/// Reads `s` as a signed integer between `min` and `max`.
pub fn parse_signed_between(s: &[char], min: i128, max: i128) -> (r: Option<i128>)
    requires
        min < 0 <= max,
    ensures
        r matches Some(v) ==> parse_signed(s@, min as int, max as int) == Some(v as int),
        r is None ==> parse_signed(s@, min as int, max as int) is None,
        r matches Some(v) ==> min <= v <= max,
{
    if s.len() > 0 && s[0] == '-' {
        let body = slice_skip_first(s);
        // The largest magnitude of a negative value no smaller than `min`.
        let magnitude: u128 = (-(min + 1)) as u128 + 1;
        match digits_up_to(body, magnitude) {
            Some(v) => {
                assert(magnitude as int == -(min as int));
                if v == magnitude {
                    Some(min)
                } else {
                    Some(-(v as i128))
                }
            },
            None => None,
        }
    } else {
        match parse_unsigned_up_to(s, max as u128) {
            Some(v) => Some(v as i128),
            None => None,
        }
    }
}

/// The slice without its first element.
fn slice_skip_first(s: &[char]) -> (r: &[char])
    requires
        s@.len() > 0,
    ensures
        r@ == s@.drop_first(),
{
    let (_, rest) = s.split_at(1);
    assert(rest@ =~= s@.drop_first());
    rest
}


/// The ASCII digit of a number below ten.
pub open spec fn digit_char(d: nat) -> char {
    if d == 0 {
        '0'
    } else if d == 1 {
        '1'
    } else if d == 2 {
        '2'
    } else if d == 3 {
        '3'
    } else if d == 4 {
        '4'
    } else if d == 5 {
        '5'
    } else if d == 6 {
        '6'
    } else if d == 7 {
        '7'
    } else if d == 8 {
        '8'
    } else {
        '9'
    }
}

/// The decimal digits of `n`, most significant first, with no leading zero.
pub open spec fn decimal(n: nat) -> Seq<char>
    decreases n,
{
    if n < 10 {
        seq![digit_char(n)]
    } else {
        decimal(n / 10).push(digit_char(n % 10))
    }
}

proof fn lemma_decimal_digits(n: nat)
    ensures
        decimal(n).len() > 0,
        all_digits(decimal(n)),
        digits_value(decimal(n)) == n,
    decreases n,
{
    if n >= 10 {
        lemma_decimal_digits(n / 10);
        let s = decimal(n);
        assert(s.drop_last() =~= decimal(n / 10));
        assert forall|i: int| 0 <= i < s.len() implies #[trigger] is_digit(s[i]) by {
            if i < s.len() - 1 {
                assert(s[i] == decimal(n / 10)[i]);
            }
        }
    } else {
        assert(digits_value(decimal(n).drop_last()) == 0);
    }
}

/// A number written in decimal reads back as itself when it is in range, and is refused
/// when it is too large; an explicit `+` changes nothing.
///
/// For example `255` reads as 255 when the largest value is 255, and is refused when it is
/// 254.
pub proof fn law_unsigned_reads_back(n: nat, max: int)
    ensures
        parse_unsigned(decimal(n), max) == (if n <= max {
            Some(n as int)
        } else {
            None
        }),
        parse_unsigned(seq!['+'] + decimal(n), max) == parse_unsigned(decimal(n), max),
{
    lemma_decimal_digits(n);
    assert(decimal(n)[0] != '+') by {
        assert(is_digit(decimal(n)[0]));
    }
    assert((seq!['+'] + decimal(n)).drop_first() =~= decimal(n));
}

/// A negative number written with a minus sign reads back as itself when it is in range,
/// and is refused below the smallest value; a number without a sign reads as for an
/// unsigned type bounded by the largest value.
///
/// For example `-128` reads as -128 when the smallest value is -128, and is refused when
/// it is -127.
pub proof fn law_signed_reads_back(n: nat, min: int, max: int)
    ensures
        parse_signed(seq!['-'] + decimal(n), min, max) == (if -n >= min {
            Some(-(n as int))
        } else {
            None
        }),
        parse_signed(decimal(n), min, max) == parse_unsigned(decimal(n), max),
{
    lemma_decimal_digits(n);
    assert(decimal(n)[0] != '-') by {
        assert(is_digit(decimal(n)[0]));
    }
    assert((seq!['-'] + decimal(n)).drop_first() =~= decimal(n));
}

/// Nothing but an optional sign and digits reads as a number: a value read by
/// [`parse_unsigned`] comes from a nonempty run of digits, after at most one `+`, and lies
/// between 0 and the largest value.
pub proof fn law_unsigned_syntax(s: Seq<char>, max: int)
    ensures
        parse_unsigned(s, max) matches Some(v) ==> {
            let body = if s[0] == '+' { s.drop_first() } else { s };
            &&& 0 <= v <= max
            &&& body.len() > 0
            &&& forall|i: int| 0 <= i < body.len() ==> '0' <= #[trigger] body[i] <= '9'
        },
{
    let body = if s.len() > 0 && s[0] == '+' { s.drop_first() } else { s };
    if parse_unsigned(s, max) is Some {
        lemma_digits_value_nonneg(body);
        assert forall|i: int| 0 <= i < body.len() implies '0' <= #[trigger] body[i] <= '9' by {
            assert(is_digit(body[i]));
        }
    }
}

} // verus!
