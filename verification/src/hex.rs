//! Uppercase hexadecimal rendering of credential bytes.
//!
//! The authentication header carries the raw bytes of the credential file
//! rendered as uppercase hexadecimal: two digits per byte, high nibble
//! first.

use vstd::prelude::*;

verus! {

/// The uppercase hexadecimal digit for a nibble value.
pub open spec fn hex_digit(v: u8) -> char
    recommends
        v < 16,
{
    if v == 0 {
        '0'
    } else if v == 1 {
        '1'
    } else if v == 2 {
        '2'
    } else if v == 3 {
        '3'
    } else if v == 4 {
        '4'
    } else if v == 5 {
        '5'
    } else if v == 6 {
        '6'
    } else if v == 7 {
        '7'
    } else if v == 8 {
        '8'
    } else if v == 9 {
        '9'
    } else if v == 10 {
        'A'
    } else if v == 11 {
        'B'
    } else if v == 12 {
        'C'
    } else if v == 13 {
        'D'
    } else if v == 14 {
        'E'
    } else {
        'F'
    }
}

/// The uppercase hexadecimal rendering of a byte sequence: two digits per
/// byte, high nibble first.
pub open spec fn hex_upper_of(bytes: Seq<u8>) -> Seq<char>
    decreases bytes.len(),
{
    if bytes.len() == 0 {
        Seq::<char>::empty()
    } else {
        hex_upper_of(bytes.drop_last()).push(hex_digit(bytes.last() / 16)).push(
            hex_digit(bytes.last() % 16),
        )
    }
}

/// True of the characters that can appear in an uppercase hexadecimal
/// rendering.
pub open spec fn is_upper_hex_char(c: char) -> bool {
    ('0' <= c && c <= '9') || ('A' <= c && c <= 'F')
}

pub(crate) fn hex_digit_char(v: u8) -> (c: char)
    requires
        v < 16,
    ensures
        c == hex_digit(v),
{
    match v {
        0 => '0',
        1 => '1',
        2 => '2',
        3 => '3',
        4 => '4',
        5 => '5',
        6 => '6',
        7 => '7',
        8 => '8',
        9 => '9',
        10 => 'A',
        11 => 'B',
        12 => 'C',
        13 => 'D',
        14 => 'E',
        _ => 'F',
    }
}

/// Render a byte sequence as uppercase hexadecimal.
pub fn hex_upper(bytes: &Vec<u8>) -> (r: String)
    ensures
        r@ == hex_upper_of(bytes@),
{
    let mut out = String::new();
    let mut i: usize = 0;
    while i < bytes.len()
        invariant
            i <= bytes@.len(),
            out@ == hex_upper_of(bytes@.take(i as int)),
        decreases bytes@.len() - i,
    {
        let b = bytes[i];
        out.push(hex_digit_char(b / 16));
        out.push(hex_digit_char(b % 16));
        proof {
            assert(bytes@.take(i + 1int).drop_last() =~= bytes@.take(i as int));
            assert(bytes@.take(i + 1int).last() == bytes@[i as int]);
        }
        i = i + 1;
    }
    proof {
        assert(bytes@.take(bytes@.len() as int) =~= bytes@);
    }
    out
}

/// The rendering is two digits per byte and uses only the characters
/// `0`-`9` and `A`-`F`.
pub proof fn lemma_hex_upper_shape(bytes: Seq<u8>)
    ensures
        hex_upper_of(bytes).len() == 2 * bytes.len(),
        forall|i: int|
            0 <= i < hex_upper_of(bytes).len() ==> is_upper_hex_char(
                #[trigger] hex_upper_of(bytes)[i],
            ),
    decreases bytes.len(),
{
    if bytes.len() > 0 {
        lemma_hex_upper_shape(bytes.drop_last());
    }
}

/// The rendering is a function of the bytes alone: equal credential bytes
/// give equal header values.
pub proof fn lemma_hex_upper_deterministic(a: Seq<u8>, b: Seq<u8>)
    requires
        a == b,
    ensures
        hex_upper_of(a) == hex_upper_of(b),
{
}

} // verus!
