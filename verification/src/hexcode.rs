//! Hexadecimal text, as the addresses and ids of the chain are written.

use crate::bigint::{hex_char, hex_digits, hex_text};
use hex::FromHexError;
use vstd::prelude::*;

verus! {

/// The error type of the `hex` crate.
#[verifier::external_type_specification]
#[verifier::external_body]
pub struct ExFromHexError(FromHexError);

/// A text that is not hexadecimal.
#[derive(Debug, Clone, Copy, PartialEq, Eq, Structural)]
pub enum HexError {
    /// The text has an odd number of characters or a character that is no
    /// hexadecimal digit.
    Invalid,
}

/// The value of a hexadecimal digit in either case, if the character is one.
pub open spec fn hex_value(c: char) -> Option<nat> {
    if c == '0' {
        Some(0)
    } else if c == '1' {
        Some(1)
    } else if c == '2' {
        Some(2)
    } else if c == '3' {
        Some(3)
    } else if c == '4' {
        Some(4)
    } else if c == '5' {
        Some(5)
    } else if c == '6' {
        Some(6)
    } else if c == '7' {
        Some(7)
    } else if c == '8' {
        Some(8)
    } else if c == '9' {
        Some(9)
    } else if c == 'a' || c == 'A' {
        Some(10)
    } else if c == 'b' || c == 'B' {
        Some(11)
    } else if c == 'c' || c == 'C' {
        Some(12)
    } else if c == 'd' || c == 'D' {
        Some(13)
    } else if c == 'e' || c == 'E' {
        Some(14)
    } else if c == 'f' || c == 'F' {
        Some(15)
    } else {
        None
    }
}

/// The text has an even number of characters, all hexadecimal digits.
pub open spec fn is_hex(s: Seq<char>) -> bool {
    s.len() % 2 == 0 && forall|i: int| 0 <= i < s.len() ==> hex_value(#[trigger] s[i]) is Some
}

/// The bytes that a hexadecimal text stands for: one byte for each pair of
/// digits, the first digit of a pair counting sixteen times.
pub open spec fn hex_bytes(s: Seq<char>) -> Seq<u8> {
    Seq::new(
        s.len() / 2,
        |i: int| (16 * hex_value(s[2 * i])->Some_0 + hex_value(s[2 * i + 1])->Some_0) as u8,
    )
}

/// The text without a leading `0x`, if it has one.
pub open spec fn without_0x(s: Seq<char>) -> Seq<char> {
    if s.len() >= 2 && s[0] == '0' && s[1] == 'x' {
        s.skip(2)
    } else {
        s
    }
}

/// `hex::decode`: the bytes of a hexadecimal text. The crate gives an error
/// exactly when the text has an odd length or holds a character that is no
/// hexadecimal digit.
#[verifier::external_body]
fn hex_decode(s: &str) -> (r: Result<Vec<u8>, FromHexError>)
    ensures
        r is Ok <==> is_hex(s@),
        r is Ok ==> r->Ok_0@ == hex_bytes(s@),
{
    hex::decode(s)
}

/// Returns the text without a leading `0x`, if it has one.
pub fn strip_0x<'a>(s: &'a str) -> (r: &'a str)
    ensures
        r@ == without_0x(s@),
{
    let len = s.unicode_len();
    if len >= 2 && s.get_char(0) == '0' && s.get_char(1) == 'x' {
        let rest = s.substring_char(2, len);
        proof {
            assert(s@.subrange(2, len as int) =~= s@.skip(2));
        }
        rest
    } else {
        s
    }
}

/// Returns the bytes of a hexadecimal text, or an error when the text has
/// an odd length or holds a character that is no hexadecimal digit.
pub fn decode_hex(s: &str) -> (r: Result<Vec<u8>, HexError>)
    ensures
        r is Ok <==> is_hex(s@),
        r is Ok ==> r->Ok_0@ == hex_bytes(s@),
        r is Err ==> r->Err_0 == HexError::Invalid,
{
    match hex_decode(s) {
        Ok(bytes) => Ok(bytes),
        Err(_) => Err(HexError::Invalid),
    }
}

/// Returns the bytes of a hexadecimal text that may start with `0x`.
pub fn decode_prefixed_hex(s: &str) -> (r: Result<Vec<u8>, HexError>)
    ensures
        r is Ok <==> is_hex(without_0x(s@)),
        r is Ok ==> r->Ok_0@ == hex_bytes(without_0x(s@)),
        r is Err ==> r->Err_0 == HexError::Invalid,
{
    decode_hex(strip_0x(s))
}

/// The digits of a number are hexadecimal digits.
pub proof fn lemma_hex_digits_valid(n: nat, count: nat)
    ensures
        hex_digits(n, count).len() == count,
        forall|i: int| 0 <= i < count ==> hex_value(#[trigger] hex_digits(n, count)[i]) is Some,
    decreases count,
{
    if count > 0 {
        lemma_hex_digits_valid(n / 16, (count - 1) as nat);
        assert(hex_value(hex_char(n % 16)) is Some);
    }
}

/// The text of a number, without its `0x`, is a hexadecimal text.
pub proof fn lemma_hex_text_valid(n: nat)
    ensures
        is_hex(without_0x(hex_text(n))),
        without_0x(hex_text(n)) == hex_digits(n, 64),
{
    lemma_hex_digits_valid(n, 64);
    assert(hex_text(n).skip(2) =~= hex_digits(n, 64));
}

} // verus!
