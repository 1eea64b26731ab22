//! Decimal string rendering of integer amounts.
//!
//! Amount fields that may exceed safe floating-point precision travel as
//! decimal strings or JSON integer literals; the rendering here is exact,
//! and [`lemma_dec_round_trip`] shows that reading the rendering back loses
//! nothing.

use vstd::prelude::*;

use crate::hex::{hex_digit, hex_digit_char};

verus! {

/// The decimal rendering of a natural number, without leading zeros.
pub open spec fn dec_of(n: nat) -> Seq<char>
    decreases n,
{
    if n < 10 {
        Seq::<char>::empty().push(hex_digit(n as u8))
    } else {
        dec_of(n / 10).push(hex_digit((n % 10) as u8))
    }
}

/// The decimal rendering of an integer: a minus sign before the magnitude
/// when negative.
pub open spec fn dec_int_of(i: int) -> Seq<char> {
    if i < 0 {
        "-"@ + dec_of((-i) as nat)
    } else {
        dec_of(i as nat)
    }
}

/// The rendering of a boolean.
pub open spec fn bool_dec(b: bool) -> Seq<char> {
    if b {
        "true"@
    } else {
        "false"@
    }
}

/// True of the decimal digit characters.
pub open spec fn is_dec_digit(c: char) -> bool {
    '0' <= c && c <= '9'
}

/// The numeric value of a decimal digit character.
pub open spec fn dec_digit_val(c: char) -> nat
    recommends
        is_dec_digit(c),
{
    (c as int - '0' as int) as nat
}

/// The number a digit string denotes, most significant digit first.
pub open spec fn dec_val_raw(s: Seq<char>) -> nat
    decreases s.len(),
{
    if s.len() == 0 {
        0
    } else {
        dec_val_raw(s.drop_last()) * 10 + dec_digit_val(s.last())
    }
}

/// The number a string denotes, if it is a non-empty string of decimal
/// digits.
pub open spec fn dec_val(s: Seq<char>) -> Option<nat> {
    if s.len() > 0 && (forall|i: int| 0 <= i < s.len() ==> is_dec_digit(s[i])) {
        Some(dec_val_raw(s))
    } else {
        None
    }
}

/// Render a natural number in decimal.
pub fn u64_dec(n: u64) -> (r: String)
    ensures
        r@ == dec_of(n as nat),
    decreases n,
{
    if n < 10 {
        let mut s = String::new();
        s.push(hex_digit_char(n as u8));
        s
    } else {
        let mut s = u64_dec(n / 10);
        s.push(hex_digit_char((n % 10) as u8));
        s
    }
}

/// Render a signed integer in decimal.
pub fn i64_dec(n: i64) -> (r: String)
    ensures
        r@ == dec_int_of(n as int),
{
    if n >= 0 {
        u64_dec(n as u64)
    } else {
        let wide: i128 = -(n as i128);
        let m: u64 = wide as u64;
        let mut s = String::from_str("-");
        let d = u64_dec(m);
        s.append(d.as_str());
        s
    }
}

/// Render a 32-bit signed integer in decimal.
pub fn i32_dec(n: i32) -> (r: String)
    ensures
        r@ == dec_int_of(n as int),
{
    i64_dec(n as i64)
}

/// The decimal rendering consists of decimal digits only.
pub proof fn lemma_dec_of_digits(n: nat)
    ensures
        dec_of(n).len() > 0,
        forall|i: int| 0 <= i < dec_of(n).len() ==> is_dec_digit(#[trigger] dec_of(n)[i]),
    decreases n,
{
    if n >= 10 {
        lemma_dec_of_digits(n / 10);
    }
}

/// A decimal digit character carries the nibble value it was made from.
proof fn lemma_hex_digit_val(d: nat)
    requires
        d < 10,
    ensures
        is_dec_digit(hex_digit(d as u8)),
        dec_digit_val(hex_digit(d as u8)) == d,
{
    if d == 0 {
        assert(dec_digit_val('0') == 0);
    } else if d == 1 {
        assert(dec_digit_val('1') == 1);
    } else if d == 2 {
        assert(dec_digit_val('2') == 2);
    } else if d == 3 {
        assert(dec_digit_val('3') == 3);
    } else if d == 4 {
        assert(dec_digit_val('4') == 4);
    } else if d == 5 {
        assert(dec_digit_val('5') == 5);
    } else if d == 6 {
        assert(dec_digit_val('6') == 6);
    } else if d == 7 {
        assert(dec_digit_val('7') == 7);
    } else if d == 8 {
        assert(dec_digit_val('8') == 8);
    } else {
        assert(dec_digit_val('9') == 9);
    }
}

/// Reading the decimal rendering digit by digit yields the number back.
pub proof fn lemma_dec_of_val(n: nat)
    ensures
        dec_val_raw(dec_of(n)) == n,
    decreases n,
{
    if n < 10 {
        lemma_hex_digit_val(n);
        assert(dec_of(n) == Seq::<char>::empty().push(hex_digit(n as u8)));
        assert(dec_of(n).len() == 1);
        assert(dec_of(n).last() == hex_digit(n as u8));
        assert(dec_of(n).drop_last() =~= Seq::<char>::empty());
        assert(dec_val_raw(dec_of(n)) == dec_val_raw(dec_of(n).drop_last()) * 10 + dec_digit_val(
            dec_of(n).last(),
        ));
        assert(dec_val_raw(dec_of(n).drop_last()) == 0);
    } else {
        lemma_dec_of_val(n / 10);
        lemma_hex_digit_val(n % 10);
        assert(dec_of(n) == dec_of(n / 10).push(hex_digit((n % 10) as u8)));
        assert(dec_of(n).len() == dec_of(n / 10).len() + 1);
        assert(dec_of(n).last() == hex_digit((n % 10) as u8));
        assert(dec_of(n).drop_last() =~= dec_of(n / 10));
        assert(dec_val_raw(dec_of(n)) == dec_val_raw(dec_of(n).drop_last()) * 10 + dec_digit_val(
            dec_of(n).last(),
        ));
        assert(dec_val_raw(dec_of(n).drop_last()) == n / 10);
        assert(dec_digit_val(dec_of(n).last()) == n % 10);
        assert((n / 10) * 10 + n % 10 == n);
    }
}

/// No precision is lost by an amount's decimal rendering: reading it back
/// yields exactly the number that was rendered.
pub proof fn lemma_dec_round_trip(n: nat)
    ensures
        dec_val(dec_of(n)) == Some(n),
{
    lemma_dec_of_digits(n);
    lemma_dec_of_val(n);
}

/// Read a non-empty decimal digit string as a number, rejecting anything
/// else; values beyond `u64` range are rejected as well.
pub fn parse_u64_dec(s: &str) -> (r: Option<u64>)
    ensures
        r matches Some(n) ==> dec_val(s@) == Some(n as nat),
        r is None ==> !(dec_val(s@) matches Some(m) && m <= u64::MAX),
{
    let n = s.unicode_len();
    if n == 0 {
        return None;
    }
    let mut acc: u64 = 0;
    let mut i: usize = 0;
    while i < n
        invariant
            n == s@.len(),
            0 < n,
            i <= n,
            forall|l: int| 0 <= l < i ==> is_dec_digit(#[trigger] s@[l]),
            acc as nat == dec_val_raw(s@.take(i as int)),
        decreases n - i,
    {
        let c = s.get_char(i);
        if !(c >= '0' && c <= '9') {
            return None;
        }
        let d: u32 = (c as u32) - ('0' as u32);
        if acc > (u64::MAX - (d as u64)) / 10 {
            proof {
                lemma_dec_val_raw_grows(s@.take(i as int + 1), s@);
                assert(s@.take(i as int + 1).drop_last() =~= s@.take(i as int));
            }
            return None;
        }
        acc = acc * 10 + (d as u64);
        proof {
            assert(s@.take(i as int + 1).drop_last() =~= s@.take(i as int));
        }
        i = i + 1;
    }
    proof {
        assert(s@.take(n as int) =~= s@);
    }
    Some(acc)
}

/// A digit string's value is at least the value of any of its prefixes
/// scaled up; in particular a prefix already too large for `u64` keeps the
/// whole string too large.
proof fn lemma_dec_val_raw_grows(p: Seq<char>, s: Seq<char>)
    requires
        p.len() <= s.len(),
        forall|i: int| 0 <= i < p.len() ==> p[i] == s[i],
    ensures
        dec_val_raw(s) >= dec_val_raw(p),
    decreases s.len(),
{
    if p.len() == s.len() {
        assert(p =~= s);
    } else {
        lemma_dec_val_raw_grows(p, s.drop_last());
        assert(dec_val_raw(s) == dec_val_raw(s.drop_last()) * 10 + dec_digit_val(s.last()));
        assert(dec_val_raw(s.drop_last()) * 10 >= dec_val_raw(s.drop_last())) by (nonlinear_arith);
    }
}

} // verus!
