//! Decimal numbers: the successor function, and reading and writing unsigned
//! integers in decimal notation.
//!
//! The spec functions here give the mathematical meaning of a decimal string:
//! [`dec_value`] reads a sequence of digit characters as a number, and
//! [`dec_repr`] writes a number as its canonical (no leading zero) digit
//! sequence. The executable [`parse_u64`] and [`u64_to_string`] are proved
//! against them.

use vstd::prelude::*;

verus! {

/// Successor of an unsigned 64-bit integer.
///
/// The maximum representable value has no successor in `u64`; callers must
/// rule it out. The widget logic of this crate does so by leaving the display
/// unchanged when the parsed input is `u64::MAX`.
pub fn increment(x: u64) -> (r: u64)
    requires
        x < u64::MAX,
    ensures
        r == x + 1,
{
    x + 1
}

/// A decimal digit character.
pub open spec fn is_digit(c: char) -> bool {
    '0' <= c && c <= '9'
}

/// The numeric value of a digit character.
pub open spec fn digit_val(c: char) -> nat
    recommends
        is_digit(c),
{
    (c as int - '0' as int) as nat
}

/// Every character of the sequence is a decimal digit.
pub open spec fn all_digits(s: Seq<char>) -> bool {
    forall|i: int| 0 <= i < s.len() ==> is_digit(#[trigger] s[i])
}

/// The number that a sequence of digit characters denotes, most significant
/// digit first; the empty sequence denotes 0.
pub open spec fn dec_value(s: Seq<char>) -> nat
    recommends
        all_digits(s),
    decreases s.len(),
{
    if s.len() == 0 {
        0
    } else {
        dec_value(s.drop_last()) * 10 + digit_val(s.last())
    }
}

/// The digit character for a value below ten.
pub open spec fn digit_char(d: nat) -> char
    recommends
        d < 10,
{
    if d == 0 {
        '0'
    } else if d == 1 {
        '1'
    } else if d == 2 {
        '2'
    } else if d == 3 {
        '3'
    } else if d == 4 {
        '4'
    } else if d == 5 {
        '5'
    } else if d == 6 {
        '6'
    } else if d == 7 {
        '7'
    } else if d == 8 {
        '8'
    } else {
        '9'
    }
}

/// The canonical decimal representation of a number: its digits, most
/// significant first, with no leading zero (0 itself is written "0").
pub open spec fn dec_repr(n: nat) -> Seq<char>
    decreases n,
{
    if n < 10 {
        seq![digit_char(n)]
    } else {
        dec_repr(n / 10).push(digit_char(n % 10))
    }
}

/// What parsing a string as a `u64` yields: after an optional leading `+`,
/// the string must be one or more decimal digits whose value fits in `u64`;
/// anything else is rejected.
pub open spec fn parse_spec(s: Seq<char>) -> Option<u64> {
    let digits = if s.len() > 0 && s[0] == '+' {
        s.subrange(1, s.len() as int)
    } else {
        s
    };
    if digits.len() > 0 && all_digits(digits) && dec_value(digits) <= u64::MAX {
        Some(dec_value(digits) as u64)
    } else {
        None
    }
}

/// A digit sequence denotes at least as much as any of its prefixes.
pub proof fn lemma_dec_value_prefix(s: Seq<char>, i: int)
    requires
        0 <= i <= s.len(),
    ensures
        dec_value(s.subrange(0, i)) <= dec_value(s),
    decreases s.len() - i,
{
    if i == s.len() {
        assert(s.subrange(0, i) =~= s);
    } else {
        assert(s.subrange(0, i + 1).drop_last() =~= s.subrange(0, i));
        assert(s.subrange(0, i + 1).last() == s[i]);
        assert(dec_value(s.subrange(0, i + 1)) == dec_value(s.subrange(0, i)) * 10 + digit_val(
            s[i],
        ));
        lemma_dec_value_prefix(s, i + 1);
    }
}

/// A written number is one or more digit characters.
pub proof fn lemma_dec_repr_digits(n: nat)
    ensures
        dec_repr(n).len() >= 1,
        all_digits(dec_repr(n)),
    decreases n,
{
    if n < 10 {
        assert(is_digit(dec_repr(n)[0]));
    } else {
        lemma_dec_repr_digits(n / 10);
        assert(forall|i: int| 0 <= i < dec_repr(n).len() ==> is_digit(#[trigger] dec_repr(n)[i]))
            by {
            assert(forall|i: int|
                0 <= i < dec_repr(n / 10).len() ==> dec_repr(n)[i] == #[trigger] dec_repr(
                    n / 10,
                )[i]);
            assert(dec_repr(n).last() == digit_char(n % 10));
            assert(is_digit(digit_char(n % 10)));
        }
    }
}

/// Reading a written number gives the number back.
pub proof fn lemma_dec_repr_value(n: nat)
    ensures
        dec_value(dec_repr(n)) == n,
    decreases n,
{
    if n < 10 {
        reveal_with_fuel(dec_value, 2);
        assert(dec_repr(n).drop_last() =~= Seq::<char>::empty());
        assert(digit_val(digit_char(n)) == n);
    } else {
        lemma_dec_repr_value(n / 10);
        assert(dec_repr(n).drop_last() =~= dec_repr(n / 10));
        assert(dec_repr(n).last() == digit_char(n % 10));
        assert(digit_val(digit_char(n % 10)) == n % 10);
        assert(n == (n / 10) * 10 + (n % 10)) by (nonlinear_arith);
    }
}

/// What the writer produces, the parser accepts, and it reads the same
/// value: the display of any `u64` parses back to it.
pub proof fn lemma_dec_repr_parses_back(n: u64)
    ensures
        parse_spec(dec_repr(n as nat)) == Some(n),
{
    let s = dec_repr(n as nat);
    lemma_dec_repr_digits(n as nat);
    lemma_dec_repr_value(n as nat);
    assert(is_digit(s[0]));
    assert(s[0] != '+');
}

/// Parse a string as an unsigned 64-bit integer: an optional leading `+`,
/// then one or more decimal digits whose value fits; everything else is
/// rejected. Mirrors what `str::parse::<u64>` accepts.
#[verifier::loop_isolation(false)]
pub fn parse_u64(s: &str) -> (r: Option<u64>)
    ensures
        r == parse_spec(s@),
{
    let n = s.unicode_len();
    let start: usize = if n > 0 && s.get_char(0) == '+' {
        1
    } else {
        0
    };
    let ghost digits = s@.subrange(start as int, n as int);
    proof {
        if s@.len() > 0 && s@[0] == '+' {
            assert(start == 1);
        } else {
            assert(start == 0);
            assert(s@.subrange(0, n as int) =~= s@);
        }
        assert(digits == (if s@.len() > 0 && s@[0] == '+' {
            s@.subrange(1, s@.len() as int)
        } else {
            s@
        }));
    }
    if start == n {
        return None;
    }
    let mut acc: u128 = 0;
    let mut i: usize = start;
    while i < n
        invariant
            start <= i <= n,
            n == s@.len(),
            digits == s@.subrange(start as int, n as int),
            all_digits(s@.subrange(start as int, i as int)),
            acc == dec_value(s@.subrange(start as int, i as int)),
            acc <= u64::MAX,
        decreases n - i,
    {
        let c = s.get_char(i);
        if !('0' <= c && c <= '9') {
            proof {
                assert(digits[i - start] == c);
                assert(!is_digit(digits[i - start]));
            }
            return None;
        }
        let d: u128 = (c as u32 - '0' as u32) as u128;
        let next: u128 = acc * 10 + d;
        proof {
            assert(s@.subrange(start as int, i + 1).drop_last() =~= s@.subrange(
                start as int,
                i as int,
            ));
            assert(s@.subrange(start as int, i + 1).last() == c);
            assert(d as nat == digit_val(c));
            assert(dec_value(s@.subrange(start as int, i + 1)) == next);
        }
        if next > u64::MAX as u128 {
            proof {
                let done = s@.subrange(start as int, i + 1);
                assert(digits.subrange(0, i + 1 - start) =~= done);
                lemma_dec_value_prefix(digits, i + 1 - start);
                assert(dec_value(digits) >= dec_value(done));
                assert(dec_value(digits) > u64::MAX);
            }
            return None;
        }
        acc = next;
        i += 1;
    }
    proof {
        assert(s@.subrange(start as int, i as int) =~= digits);
    }
    Some(acc as u64)
}

/// A one-character string for each digit value.
fn digit_to_str(d: u64) -> (r: &'static str)
    requires
        d < 10,
    ensures
        r@ =~= seq![digit_char(d as nat)],
{
    proof {
        reveal_strlit("0");
        reveal_strlit("1");
        reveal_strlit("2");
        reveal_strlit("3");
        reveal_strlit("4");
        reveal_strlit("5");
        reveal_strlit("6");
        reveal_strlit("7");
        reveal_strlit("8");
        reveal_strlit("9");
    }
    if d == 0 {
        "0"
    } else if d == 1 {
        "1"
    } else if d == 2 {
        "2"
    } else if d == 3 {
        "3"
    } else if d == 4 {
        "4"
    } else if d == 5 {
        "5"
    } else if d == 6 {
        "6"
    } else if d == 7 {
        "7"
    } else if d == 8 {
        "8"
    } else {
        "9"
    }
}

/// Write a number in decimal, most significant digit first, no leading zero.
pub fn u64_to_string(n: u64) -> (r: String)
    ensures
        r@ == dec_repr(n as nat),
    decreases n,
{
    if n < 10 {
        String::from_str(digit_to_str(n))
    } else {
        let mut s = u64_to_string(n / 10);
        s.append(digit_to_str(n % 10));
        proof {
            assert(dec_repr((n / 10) as nat).push(digit_char((n % 10) as nat)) =~= dec_repr(
                (n / 10) as nat,
            ) + seq![digit_char((n % 10) as nat)]);
        }
        s
    }
}

} // verus!

