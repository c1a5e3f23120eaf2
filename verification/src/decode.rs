//! Field-level string decoders and their specifications.
//!
//! The upstream API transmits most numeric fields as decimal strings. This
//! module gives the decimal grammar a mathematical form (`dec_value`,
//! `spec_parse_u32`, `dec_str`) and proves the executable parser and
//! formatter against it.

use vstd::prelude::*;

verus! {

/// A decimal digit character.
pub open spec fn is_dec_digit(c: char) -> bool {
    48 <= c as u32 <= 57
}

/// The numeric value of a decimal digit character.
pub open spec fn dec_digit_value(c: char) -> nat {
    (c as u32 - 48) as nat
}

/// Every character of `s` is a decimal digit.
pub open spec fn all_dec_digits(s: Seq<char>) -> bool {
    forall|i: int| 0 <= i < s.len() ==> is_dec_digit(#[trigger] s[i])
}

/// The value of a digit string, most significant digit first.
pub open spec fn dec_value(s: Seq<char>) -> nat
    decreases s.len(),
{
    if s.len() == 0 {
        0
    } else {
        dec_value(s.drop_last()) * 10 + dec_digit_value(s.last())
    }
}

/// What parsing an unsigned 32-bit decimal field yields: the digits' value if
/// the string is a non-empty run of decimal digits whose value fits, nothing
/// otherwise.
pub open spec fn spec_parse_u32(s: Seq<char>) -> Option<u32> {
    if s.len() > 0 && all_dec_digits(s) && dec_value(s) <= u32::MAX {
        Some(dec_value(s) as u32)
    } else {
        None
    }
}

/// A longer run of digits never has a smaller value: the value of a prefix is
/// a lower bound for the value of the whole string.
pub proof fn lemma_dec_value_prefix_le(s: Seq<char>, i: int)
    requires
        0 <= i <= s.len(),
    ensures
        dec_value(s.take(i)) <= dec_value(s),
    decreases s.len() - i,
{
    if i < s.len() {
        assert(s.take(i + 1).drop_last() =~= s.take(i));
        assert(dec_value(s.take(i)) <= dec_value(s.take(i + 1)));
        lemma_dec_value_prefix_le(s, i + 1);
        assert(s.take(s.len() as int) =~= s);
    } else {
        assert(s.take(i) =~= s);
    }
}

/// Parses a string as an unsigned 32-bit decimal integer.
///
/// Exactly the strings of `spec_parse_u32` are accepted: a non-empty run of
/// decimal digits whose value fits in `u32`. Anything else — an empty string,
/// a stray character, a value past `u32::MAX` — yields `None`.
pub fn parse_u32(s: &str) -> (r: Option<u32>)
    ensures
        r == spec_parse_u32(s@),
{
    let n = s.unicode_len();
    if n == 0 {
        return None;
    }
    let mut val: u32 = 0;
    let mut i: usize = 0;
    while i < n
        invariant
            0 <= i <= n,
            n == s@.len(),
            all_dec_digits(s@.take(i as int)),
            val == dec_value(s@.take(i as int)),
        decreases n - i,
    {
        let c = s.get_char(i);
        let cu = c as u32;
        if cu < 48 || cu > 57 {
            assert(!is_dec_digit(s@[i as int]));
            return None;
        }
        let d: u32 = cu - 48;
        proof {
            assert(s@.take(i as int + 1).drop_last() =~= s@.take(i as int));
            assert(dec_value(s@.take(i as int + 1)) == val * 10 + d);
        }
        if val > (u32::MAX - d) / 10 {
            proof {
                let m = (u32::MAX - d) as int;
                vstd::arithmetic::div_mod::lemma_fundamental_div_mod(m, 10);
                vstd::arithmetic::div_mod::lemma_mod_bound(m, 10);
                assert(val * 10 + d > u32::MAX);
                lemma_dec_value_prefix_le(s@, i as int + 1);
                assert(dec_value(s@) > u32::MAX);
            }
            return None;
        }
        proof {
            let m = (u32::MAX - d) as int;
            vstd::arithmetic::div_mod::lemma_fundamental_div_mod(m, 10);
            vstd::arithmetic::div_mod::lemma_mod_bound(m, 10);
            assert(val * 10 + d <= u32::MAX);
        }
        val = val * 10 + d;
        i = i + 1;
    }
    proof {
        assert(s@.take(n as int) =~= s@);
    }
    Some(val)
}

/// The decimal-digit character of a value below ten.
pub open spec fn dec_digit_char(d: nat) -> char {
    if d == 0 {
        '0'
    } else if d == 1 {
        '1'
    } else if d == 2 {
        '2'
    } else if d == 3 {
        '3'
    } else if d == 4 {
        '4'
    } else if d == 5 {
        '5'
    } else if d == 6 {
        '6'
    } else if d == 7 {
        '7'
    } else if d == 8 {
        '8'
    } else {
        '9'
    }
}

/// The decimal rendering of a number, most significant digit first and
/// without leading zeroes (`0` itself renders as `"0"`).
pub open spec fn dec_str(n: nat) -> Seq<char>
    decreases n,
{
    if n < 10 {
        seq![dec_digit_char(n)]
    } else {
        dec_str(n / 10).push(dec_digit_char(n % 10))
    }
}

fn dec_digit_literal(d: u32) -> (r: &'static str)
    requires
        d < 10,
    ensures
        r@ =~= seq![dec_digit_char(d as nat)],
{
    proof {
        reveal_strlit("0");
        reveal_strlit("1");
        reveal_strlit("2");
        reveal_strlit("3");
        reveal_strlit("4");
        reveal_strlit("5");
        reveal_strlit("6");
        reveal_strlit("7");
        reveal_strlit("8");
        reveal_strlit("9");
    }
    if d == 0 {
        "0"
    } else if d == 1 {
        "1"
    } else if d == 2 {
        "2"
    } else if d == 3 {
        "3"
    } else if d == 4 {
        "4"
    } else if d == 5 {
        "5"
    } else if d == 6 {
        "6"
    } else if d == 7 {
        "7"
    } else if d == 8 {
        "8"
    } else {
        "9"
    }
}

/// Renders a number in decimal, the inverse direction of `parse_u32`.
pub fn u32_to_decimal(n: u32) -> (r: String)
    ensures
        r@ == dec_str(n as nat),
    decreases n,
{
    if n < 10 {
        String::from_str(dec_digit_literal(n))
    } else {
        proof {
            vstd::arithmetic::div_mod::lemma_div_is_ordered_by_denominator(n as int, 1, 10);
        }
        let mut s = u32_to_decimal(n / 10);
        s.append(dec_digit_literal(n % 10));
        proof {
            assert(dec_str((n / 10) as nat) + seq![dec_digit_char((n % 10) as nat)]
                =~= dec_str(n as nat));
        }
        s
    }
}

/// A rendered number is a non-empty run of digits whose value is the number.
pub proof fn lemma_dec_str_value(n: nat)
    ensures
        all_dec_digits(dec_str(n)),
        dec_str(n).len() > 0,
        dec_value(dec_str(n)) == n,
    decreases n,
{
    if n < 10 {
        assert(dec_str(n) =~= seq![dec_digit_char(n)]);
        assert(dec_str(n).drop_last() =~= Seq::<char>::empty());
        assert(dec_value(Seq::<char>::empty()) == 0);
        assert(dec_str(n).last() == dec_digit_char(n));
        assert(is_dec_digit(dec_digit_char(n)));
        assert(dec_digit_value(dec_digit_char(n)) == n);
    } else {
        lemma_dec_str_value(n / 10);
        assert(dec_str(n).drop_last() =~= dec_str(n / 10));
        assert(is_dec_digit(dec_digit_char(n % 10)));
        assert(dec_digit_value(dec_digit_char(n % 10)) == n % 10);
        assert(dec_value(dec_str(n)) == (n / 10) * 10 + n % 10);
        vstd::arithmetic::div_mod::lemma_fundamental_div_mod(n as int, 10);
        assert forall|i: int| 0 <= i < dec_str(n).len() implies is_dec_digit(
            #[trigger] dec_str(n)[i],
        ) by {
            if i < dec_str(n).len() - 1 {
                assert(dec_str(n)[i] == dec_str(n / 10)[i]);
            }
        }
    }
}

/// Law: rendering and parsing are inverse — the decimal rendering of any
/// `u32` parses back to that very number, so a query parameter rendered from
/// an offset carries exactly that offset.
pub proof fn lemma_render_parse_round_trip(n: u32)
    ensures
        spec_parse_u32(dec_str(n as nat)) == Some(n),
{
    lemma_dec_str_value(n as nat);
}

/// Character-for-character string equality, decided without any assumption on
/// the strings' encodings.
pub fn str_eq(a: &str, b: &str) -> (r: bool)
    ensures
        r == (a@ == b@),
{
    let n = a.unicode_len();
    let m = b.unicode_len();
    if n != m {
        return false;
    }
    let mut i: usize = 0;
    while i < n
        invariant
            0 <= i <= n,
            n == a@.len(),
            n == b@.len(),
            forall|j: int| 0 <= j < i ==> a@[j] == b@[j],
        decreases n - i,
    {
        if a.get_char(i) != b.get_char(i) {
            return false;
        }
        i = i + 1;
    }
    proof {
        assert(a@ =~= b@);
    }
    true
}

} // verus!
