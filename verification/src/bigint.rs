//! Arithmetic on numbers of any size, held as bytes with the most
//! significant byte first. The arithmetic itself is done by `num_bigint`;
//! the library states what each operation returns.

use num_bigint::BigUint;
use vstd::arithmetic::power::pow;
use vstd::arithmetic::power2::pow2;
use vstd::prelude::*;

verus! {

/// The number that a sequence of bytes stands for, most significant byte
/// first. The empty sequence stands for zero.
pub open spec fn be_nat(bytes: Seq<u8>) -> nat
    decreases bytes.len(),
{
    if bytes.len() == 0 {
        0
    } else {
        be_nat(bytes.drop_last()) * 256 + bytes.last() as nat
    }
}

/// The number of one byte is the byte.
pub proof fn lemma_be_nat_single(b: u8)
    ensures
        be_nat(seq![b]) == b,
{
    assert(seq![b].drop_last() =~= Seq::<u8>::empty());
    assert(be_nat(seq![b].drop_last()) == 0);
}

/// The number of a sequence extended by one byte.
pub proof fn lemma_be_nat_push(bytes: Seq<u8>, b: u8)
    ensures
        be_nat(bytes.push(b)) == be_nat(bytes) * 256 + b,
{
    assert(bytes.push(b).drop_last() =~= bytes);
}

/// `BigUint` remainder: the bytes of `x % m`. The crate panics on a zero
/// divisor, which the precondition leaves out.
#[verifier::external_body]
pub(crate) fn big_rem(x: &[u8], m: &[u8]) -> (r: Vec<u8>)
    requires
        be_nat(m@) > 0,
    ensures
        be_nat(r@) == be_nat(x@) % be_nat(m@),
{
    (BigUint::from_bytes_be(x) % BigUint::from_bytes_be(m)).to_bytes_be()
}

/// `BigUint::modpow`: the bytes of `(base ^ exponent) % modulus`. The crate
/// panics on a zero modulus, which the precondition leaves out.
#[verifier::external_body]
pub(crate) fn big_modpow(base: &[u8], exponent: &[u8], modulus: &[u8]) -> (r: Vec<u8>)
    requires
        be_nat(modulus@) > 0,
    ensures
        be_nat(r@) == pow(be_nat(base@) as int, be_nat(exponent@)) % (be_nat(modulus@) as int),
{
    let m = BigUint::from_bytes_be(modulus);
    BigUint::from_bytes_be(base).modpow(&BigUint::from_bytes_be(exponent), &m).to_bytes_be()
}

/// `BigUint` addition: the bytes of `a + b`.
#[verifier::external_body]
pub(crate) fn big_add(a: &[u8], b: &[u8]) -> (r: Vec<u8>)
    ensures
        be_nat(r@) == be_nat(a@) + be_nat(b@),
{
    (BigUint::from_bytes_be(a) + BigUint::from_bytes_be(b)).to_bytes_be()
}

/// `BigUint` subtraction: the bytes of `a - b`. The crate panics when `b`
/// is the larger, which the precondition leaves out.
#[verifier::external_body]
pub(crate) fn big_sub(a: &[u8], b: &[u8]) -> (r: Vec<u8>)
    requires
        be_nat(a@) >= be_nat(b@),
    ensures
        be_nat(r@) == be_nat(a@) - be_nat(b@),
{
    (BigUint::from_bytes_be(a) - BigUint::from_bytes_be(b)).to_bytes_be()
}

/// `BigUint` shift to the right: the bytes of `a / 2^bits`.
#[verifier::external_body]
pub(crate) fn big_shr(a: &[u8], bits: u64) -> (r: Vec<u8>)
    ensures
        be_nat(r@) == be_nat(a@) / pow2(bits as nat),
{
    (BigUint::from_bytes_be(a) >> bits).to_bytes_be()
}

/// `BigUint` shift to the left: the bytes of `a * 2^bits`.
#[verifier::external_body]
pub(crate) fn big_shl(a: &[u8], bits: u64) -> (r: Vec<u8>)
    ensures
        be_nat(r@) == be_nat(a@) * pow2(bits as nat),
{
    (BigUint::from_bytes_be(a) << bits).to_bytes_be()
}

/// `BigUint` equality: whether the two sequences stand for the same number.
#[verifier::external_body]
pub(crate) fn big_equal(a: &[u8], b: &[u8]) -> (r: bool)
    ensures
        r == (be_nat(a@) == be_nat(b@)),
{
    BigUint::from_bytes_be(a) == BigUint::from_bytes_be(b)
}

/// The character of a hexadecimal digit, in lower case.
pub open spec fn hex_char(digit: nat) -> char {
    if digit == 0 {
        '0'
    } else if digit == 1 {
        '1'
    } else if digit == 2 {
        '2'
    } else if digit == 3 {
        '3'
    } else if digit == 4 {
        '4'
    } else if digit == 5 {
        '5'
    } else if digit == 6 {
        '6'
    } else if digit == 7 {
        '7'
    } else if digit == 8 {
        '8'
    } else if digit == 9 {
        '9'
    } else if digit == 10 {
        'a'
    } else if digit == 11 {
        'b'
    } else if digit == 12 {
        'c'
    } else if digit == 13 {
        'd'
    } else if digit == 14 {
        'e'
    } else {
        'f'
    }
}

/// The last `count` hexadecimal digits of a number, most significant first.
pub open spec fn hex_digits(n: nat, count: nat) -> Seq<char>
    decreases count,
{
    if count == 0 {
        Seq::empty()
    } else {
        hex_digits(n / 16, (count - 1) as nat).push(hex_char(n % 16))
    }
}

/// A number as `0x` and 64 hexadecimal digits in lower case.
pub open spec fn hex_text(n: nat) -> Seq<char> {
    seq!['0', 'x'] + hex_digits(n, 64)
}

/// Two to the power 256, below which a number has at most 64 hexadecimal
/// digits.
pub open spec fn hex_limit() -> nat {
    pow2(256)
}

/// Formatting of a `BigUint` with `{:#066x}`: `0x` and the hexadecimal
/// digits in lower case, filled with zeros to 64 digits. A number of more
/// digits would give a longer text, which the precondition leaves out.
#[verifier::external_body]
pub(crate) fn big_hex(a: &[u8]) -> (r: String)
    requires
        be_nat(a@) < hex_limit(),
    ensures
        r@ == hex_text(be_nat(a@)),
{
    format!("{:#066x}", BigUint::from_bytes_be(a))
}

} // verus!
