//! Derivation of the ids of the two outcome tokens of a condition.
//!
//! The id of a collection is a point of the curve `y^2 = x^3 + 3` over the
//! prime field of `field_modulus()`: the hash of the condition and the index
//! set is reduced to a field element, which is raised until it is the
//! abscissa of a point. The id of the token is the hash of the collateral
//! and the collection.

use crate::bigint::{
    be_nat, big_add, big_equal, big_hex, big_modpow, big_rem, big_shl, big_shr, big_sub,
    hex_limit, hex_text, lemma_be_nat_push, lemma_be_nat_single,
};
use crate::curve_certificate::lemma_above_modulus_is_abscissa;
use crate::bigint::{hex_char, hex_digits};
use crate::hexcode::{
    decode_prefixed_hex, hex_bytes, hex_value, is_hex, lemma_hex_digits_valid,
    lemma_hex_text_valid, without_0x,
};
use sha3::{Digest, Keccak256};
use vstd::arithmetic::power::pow;
use vstd::arithmetic::power2::{lemma2_to64, lemma2_to64_rest, lemma_pow2_adds, pow2};
use vstd::prelude::*;

verus! {

/// What Keccak-256 returns for a sequence of bytes.
pub uninterp spec fn keccak256_of(data: Seq<u8>) -> Seq<u8>;

/// `Keccak256::digest`: the hash of the bytes, which has 32 bytes.
#[verifier::external_body]
pub(crate) fn keccak256(data: &[u8]) -> (r: Vec<u8>)
    ensures
        r@ == keccak256_of(data@),
        r@.len() == 32,
{
    Keccak256::digest(data).to_vec()
}

/// The last `len` bytes of a number, most significant first.
pub open spec fn be_bytes(n: nat, len: nat) -> Seq<u8>
    decreases len,
{
    if len == 0 {
        Seq::empty()
    } else {
        be_bytes(n / 256, (len - 1) as nat).push((n % 256) as u8)
    }
}

/// The number of values that `len` bytes can take.
pub open spec fn span(len: nat) -> nat
    decreases len,
{
    if len == 0 {
        1
    } else {
        256 * span((len - 1) as nat)
    }
}

/// The eight bytes of a number, most significant first.
pub open spec fn u64_be(v: u64) -> Seq<u8> {
    be_bytes(v as nat, 8)
}

/// The bytes of a number that fits them stand for the number.
pub proof fn lemma_be_bytes_value(n: nat, len: nat)
    requires
        n < span(len),
    ensures
        be_nat(be_bytes(n, len)) == n,
        be_bytes(n, len).len() == len,
    decreases len,
{
    if len > 0 {
        lemma_be_bytes_value(n / 256, (len - 1) as nat);
        lemma_be_nat_push(be_bytes(n / 256, (len - 1) as nat), (n % 256) as u8);
    }
}

/// Returns the last `len` bytes of a number, most significant first.
fn number_bytes(n: u64, len: usize) -> (r: Vec<u8>)
    ensures
        r@ == be_bytes(n as nat, len as nat),
    decreases len,
{
    if len == 0 {
        Vec::new()
    } else {
        let mut bytes = number_bytes(n / 256, len - 1);
        bytes.push((n % 256) as u8);
        bytes
    }
}

/// Returns the eight bytes of a number, most significant first.
pub fn u64_to_be_bytes(v: u64) -> (r: Vec<u8>)
    ensures
        r@ == u64_be(v),
{
    number_bytes(v, 8)
}

/// The number of bytes is below the number of values that they can take.
pub proof fn lemma_be_nat_bound(bytes: Seq<u8>)
    ensures
        be_nat(bytes) < span(bytes.len()),
    decreases bytes.len(),
{
    if bytes.len() > 0 {
        lemma_be_nat_bound(bytes.drop_last());
    }
}

/// Returns the number that eight bytes stand for, most significant first.
pub fn u64_from_be_bytes(bytes: &[u8]) -> (r: u64)
    requires
        bytes@.len() == 8,
    ensures
        r == be_nat(bytes@),
{
    let mut value: u64 = 0;
    let mut i: usize = 0;
    while i < 8
        invariant
            i <= 8,
            bytes@.len() == 8,
            value == be_nat(bytes@.take(i as int)),
        decreases 8 - i,
    {
        proof {
            reveal_with_fuel(span, 9);
            lemma_be_nat_bound(bytes@.take(i as int));
            lemma_be_nat_bound(bytes@.take(i + 1));
            assert(bytes@.take(i + 1) =~= bytes@.take(i as int).push(bytes@[i as int]));
            lemma_be_nat_push(bytes@.take(i as int), bytes@[i as int]);
            assert(i == 0 || i == 1 || i == 2 || i == 3 || i == 4 || i == 5 || i == 6 || i == 7);
        }
        value = value * 256 + bytes[i] as u64;
        i = i + 1;
    }
    proof {
        assert(bytes@.take(8) =~= bytes@);
    }
    value
}

/// The eight bytes of a number stand for the number.
pub proof fn lemma_u64_be_value(v: u64)
    ensures
        be_nat(u64_be(v)) == v,
        u64_be(v).len() == 8,
{
    reveal_with_fuel(span, 9);
    lemma_be_bytes_value(v as nat, 8);
}

/// Two to the power 64, the base in which the large constants are written.
pub open spec fn limb_base() -> nat {
    0x1_0000_0000_0000_0000
}

/// The order of the prime field over which the curve is taken, the prime
/// 21888242871839275222246405745257275088696311157297823662689037894645226208583,
/// written in four digits of 64 bits.
#[verifier::opaque]
pub open spec fn field_modulus() -> nat {
    ((0x30644e72e131a029 * limb_base() + 0xb85045b68181585d) * limb_base() + 0x97816a916871ca8d)
        * limb_base() + 0x3c208c16d87cfd47
}

/// `a` is the abscissa of a point of the curve: by Euler's criterion,
/// `a^3 + 3` raised to half the order of the multiplicative group is one.
pub open spec fn is_abscissa(a: nat) -> bool {
    pow(
        (pow(a as int, 3) % (field_modulus() as int) + 3) % (field_modulus() as int),
        ((field_modulus() - 1) / 2) as nat,
    ) % (field_modulus() as int) == 1
}

/// The first abscissa of a point at or above `a`, for an `a` that is not
/// more than one above the modulus. The search goes up one by one; the
/// number one above the modulus is the abscissa of a point, so it ends there
/// at the latest.
pub open spec fn abscissa_from(a: nat) -> nat
    decreases field_modulus() + 1 - a,
{
    if a > field_modulus() || is_abscissa(a) {
        a
    } else {
        abscissa_from(a + 1)
    }
}

/// The number of a collection for a hash `x1`: the first abscissa above
/// `x1` reduced by the modulus, with bit 254 set when the highest of the 256
/// bits of `x1` is set.
pub open spec fn collection_number(x1: nat) -> nat {
    let a = abscissa_from(x1 % field_modulus() + 1);
    if x1 / pow2(255) == 1 {
        a + pow2(254)
    } else {
        a
    }
}

/// The hash of a condition and an index set.
pub open spec fn x1_bytes(condition: Seq<u8>, index_set: u64) -> Seq<u8> {
    keccak256_of(condition + u64_be(index_set))
}

/// The id of the collection of a condition and an index set, as text.
pub open spec fn spec_collection_id(condition_id: Seq<char>, index_set: u64) -> Seq<char> {
    hex_text(collection_number(be_nat(x1_bytes(hex_bytes(without_0x(condition_id)), index_set))))
}

/// The id of the position of a collateral and a collection: the last eight
/// bytes of their hash.
pub open spec fn spec_position_id(collateral_address: Seq<char>, collection_id: Seq<char>) -> u64 {
    be_nat(
        keccak256_of(
            hex_bytes(without_0x(collateral_address)) + hex_bytes(without_0x(collection_id)),
        ).subrange(24, 32),
    ) as u64
}

/// The id of the token of an outcome.
pub open spec fn spec_token_id(
    condition_id: Seq<char>,
    collateral_address: Seq<char>,
    token_index: u32,
) -> u64 {
    spec_position_id(collateral_address, spec_collection_id(condition_id, 1u64 << token_index))
}

/// The search for an abscissa ends at the modulus plus one at the latest.
pub proof fn lemma_abscissa_bound(a: nat)
    requires
        a <= field_modulus() + 1,
    ensures
        a <= abscissa_from(a) <= field_modulus() + 1,
    decreases field_modulus() + 1 - a,
{
    if !(a > field_modulus() || is_abscissa(a)) {
        lemma_abscissa_bound(a + 1);
    }
}

/// The number of a collection has at most 64 hexadecimal digits.
pub proof fn lemma_collection_number_fits(x1: nat)
    ensures
        collection_number(x1) < hex_limit(),
{
    let p = field_modulus();
    lemma_modulus_size();
    assert(x1 % p < p) by (nonlinear_arith)
        requires
            p > 0,
    ;
    lemma_abscissa_bound(x1 % p + 1);
    lemma_pow2_adds(254, 2);
    lemma2_to64();
}

/// The modulus is positive and has fewer than 254 bits.
pub proof fn lemma_modulus_size()
    ensures
        0 < field_modulus(),
        field_modulus() + 1 < pow2(254),
{
    reveal(field_modulus);
    lemma2_to64();
    lemma2_to64_rest();
    lemma_pow2_adds(64, 64);
    lemma_pow2_adds(128, 64);
    lemma_pow2_adds(192, 62);
}

/// A hexadecimal digit has the value of the number that it was made of.
pub proof fn lemma_hex_char_value(digit: nat)
    requires
        digit < 16,
    ensures
        hex_value(hex_char(digit)) == Some(digit),
{
}

/// The digits of a number, two for each byte, stand for the bytes of the
/// number.
pub proof fn lemma_hex_digits_bytes(n: nat, len: nat)
    ensures
        hex_bytes(hex_digits(n, 2 * len)) == be_bytes(n, len),
    decreases len,
{
    if len == 0 {
        assert(hex_bytes(hex_digits(n, 0)) =~= be_bytes(n, 0));
    } else {
        let rest = hex_digits(n / 256, (2 * len - 2) as nat);
        let high = hex_char((n / 16) % 16);
        let low = hex_char(n % 16);
        let digits = hex_digits(n, 2 * len);
        lemma_hex_digits_bytes(n / 256, (len - 1) as nat);
        lemma_hex_digits_valid(n / 256, (2 * len - 2) as nat);
        lemma_hex_digits_valid(n, 2 * len);
        lemma_hex_char_value((n / 16) % 16);
        lemma_hex_char_value(n % 16);
        assert(n / 16 / 16 == n / 256);
        assert(hex_digits(n / 16, (2 * len - 1) as nat) == rest.push(high));
        assert(digits == rest.push(high).push(low));
        let bytes = hex_bytes(digits);
        let before = hex_bytes(rest);
        assert(bytes.len() == len);
        assert(before.len() == len - 1);
        assert forall|i: int| 0 <= i < len - 1 implies bytes[i] == before[i] by {
            assert(digits[2 * i] == rest[2 * i]);
            assert(digits[2 * i + 1] == rest[2 * i + 1]);
        }
        assert(digits[2 * (len - 1)] == high);
        assert(digits[2 * (len - 1) + 1] == low);
        assert(16 * ((n / 16) % 16) + n % 16 == n % 256);
        assert(bytes =~= before.push((n % 256) as u8));
    }
}

/// The id of a collection, read as hexadecimal text, gives the 32 bytes of
/// the number of the collection, most significant first.
pub proof fn lemma_collection_bytes(n: nat)
    ensures
        hex_bytes(without_0x(hex_text(n))) == be_bytes(n, 32),
{
    lemma_hex_text_valid(n);
    lemma_hex_digits_bytes(n, 32);
}

/// The id of a token is the number of the last eight bytes of the hash of
/// the bytes of the collateral followed by the 32 bytes of the number of
/// the collection.
pub proof fn lemma_token_id_from_bytes(
    condition_id: Seq<char>,
    collateral_address: Seq<char>,
    token_index: u32,
)
    ensures
        spec_token_id(condition_id, collateral_address, token_index) == be_nat(
            keccak256_of(
                hex_bytes(without_0x(collateral_address)) + be_bytes(
                    collection_number(
                        be_nat(
                            x1_bytes(hex_bytes(without_0x(condition_id)), 1u64 << token_index),
                        ),
                    ),
                    32,
                ),
            ).subrange(24, 32),
        ) as u64,
{
    lemma_collection_bytes(
        collection_number(
            be_nat(x1_bytes(hex_bytes(without_0x(condition_id)), 1u64 << token_index)),
        ),
    );
}

/// The helpers of the conditional-tokens framework.
pub struct CTHelpers;

impl CTHelpers {
    /// Returns the bytes of the order of the field.
    fn modulus() -> (r: Vec<u8>)
        ensures
            be_nat(r@) == field_modulus(),
    {
        let l3 = u64_to_be_bytes(0x30644e72e131a029);
        let l2 = u64_to_be_bytes(0xb85045b68181585d);
        let l1 = u64_to_be_bytes(0x97816a916871ca8d);
        let l0 = u64_to_be_bytes(0x3c208c16d87cfd47);
        proof {
            lemma_u64_be_value(0x30644e72e131a029);
            lemma_u64_be_value(0xb85045b68181585d);
            lemma_u64_be_value(0x97816a916871ca8d);
            lemma_u64_be_value(0x3c208c16d87cfd47);
            lemma2_to64();
            reveal(field_modulus);
        }
        let a = big_add(big_shl(l3.as_slice(), 64).as_slice(), l2.as_slice());
        let b = big_add(big_shl(a.as_slice(), 64).as_slice(), l1.as_slice());
        let c = big_add(big_shl(b.as_slice(), 64).as_slice(), l0.as_slice());
        c
    }

    /// Returns the bytes of a number of one byte.
    fn small(v: u8) -> (r: Vec<u8>)
        ensures
            be_nat(r@) == v,
    {
        let r: Vec<u8> = vec![v];
        proof {
            lemma_be_nat_single(v);
            assert(r@ =~= seq![v]);
        }
        r
    }

    /// Decides whether a number is the abscissa of a point of the curve.
    fn is_point(a: &[u8], p: &[u8]) -> (r: bool)
        requires
            be_nat(p@) == field_modulus(),
        ensures
            r == is_abscissa(be_nat(a@)),
    {
        proof {
            lemma_modulus_size();
            lemma2_to64();
        }
        let one = Self::small(1);
        let three = Self::small(3);
        let exp = big_shr(big_sub(p, one.as_slice()).as_slice(), 1);
        let cube = big_modpow(a, three.as_slice(), p);
        let yy = big_rem(big_add(cube.as_slice(), three.as_slice()).as_slice(), p);
        let power = big_modpow(yy.as_slice(), exp.as_slice(), p);
        big_equal(power.as_slice(), one.as_slice())
    }

    /// Returns the first abscissa of a point above `a`.
    fn next_point(a: Vec<u8>, p: &[u8]) -> (r: Vec<u8>)
        requires
            be_nat(p@) == field_modulus(),
            be_nat(a@) <= field_modulus(),
        ensures
            be_nat(r@) == abscissa_from(be_nat(a@) + 1),
    {
        let one = Self::small(1);
        let ghost start = be_nat(a@);
        let mut a = a;
        let mut found = false;
        while !found
            invariant
                be_nat(one@) == 1,
                be_nat(p@) == field_modulus(),
                found ==> be_nat(a@) == abscissa_from(start + 1),
                !found ==> be_nat(a@) <= field_modulus() && abscissa_from(be_nat(a@) + 1)
                    == abscissa_from(start + 1),
                be_nat(a@) <= field_modulus() + 1,
            decreases field_modulus() + 2 - be_nat(a@),
        {
            a = big_add(a.as_slice(), one.as_slice());
            proof {
                lemma_above_modulus_is_abscissa();
            }
            if Self::is_point(a.as_slice(), p) {
                found = true;
            }
        }
        a
    }

    /// Returns the hash of a condition and an index set.
    fn get_x1(condition_id: &str, index_set: u64) -> (r: Vec<u8>)
        requires
            is_hex(without_0x(condition_id@)),
        ensures
            r@ == x1_bytes(hex_bytes(without_0x(condition_id@)), index_set),
            r@.len() == 32,
    {
        let mut input = match decode_prefixed_hex(condition_id) {
            Ok(bytes) => bytes,
            Err(_) => Vec::new(),
        };
        let mut index_bytes = u64_to_be_bytes(index_set);
        input.append(&mut index_bytes);
        keccak256(input.as_slice())
    }

    /// Returns the id of the collection of a condition and an index set, as
    /// `0x` and 64 hexadecimal digits.
    pub fn get_collection_id(condition_id: &str, index_set: u64) -> (r: String)
        requires
            is_hex(without_0x(condition_id@)),
        ensures
            r@ == spec_collection_id(condition_id@, index_set),
    {
        let x1 = Self::get_x1(condition_id, index_set);
        let one = Self::small(1);
        let odd = big_equal(big_shr(x1.as_slice(), 255).as_slice(), one.as_slice());
        let p = Self::modulus();
        proof {
            lemma_modulus_size();
            assert(be_nat(x1@) % field_modulus() < field_modulus()) by (nonlinear_arith)
                requires
                    field_modulus() > 0,
            ;
        }
        let reduced = big_rem(x1.as_slice(), p.as_slice());
        let mut a = Self::next_point(reduced, p.as_slice());
        if odd {
            let high = big_shl(one.as_slice(), 254);
            assert(be_nat(one@) * pow2(254) == pow2(254)) by (nonlinear_arith)
                requires
                    be_nat(one@) == 1,
            ;
            a = big_add(a.as_slice(), high.as_slice());
        }
        proof {
            lemma_collection_number_fits(be_nat(x1@));
        }
        big_hex(a.as_slice())
    }

    /// Returns the id of the position of a collateral and a collection: the
    /// last eight bytes of the hash of the two.
    pub fn get_position_id(collateral_address: &str, collection_id: &str) -> (r: u64)
        requires
            is_hex(without_0x(collateral_address@)),
            is_hex(without_0x(collection_id@)),
        ensures
            r == spec_position_id(collateral_address@, collection_id@),
    {
        let mut input = match decode_prefixed_hex(collateral_address) {
            Ok(bytes) => bytes,
            Err(_) => Vec::new(),
        };
        let mut collection_bytes = match decode_prefixed_hex(collection_id) {
            Ok(bytes) => bytes,
            Err(_) => Vec::new(),
        };
        input.append(&mut collection_bytes);
        let hash = keccak256(input.as_slice());
        let mut low: Vec<u8> = Vec::new();
        let mut i: usize = 24;
        while i < 32
            invariant
                24 <= i <= 32,
                hash@.len() == 32,
                low@ == hash@.subrange(24, i as int),
            decreases 32 - i,
        {
            low.push(hash[i]);
            proof {
                assert(hash@.subrange(24, i + 1) =~= hash@.subrange(24, i as int).push(
                    hash@[i as int],
                ));
            }
            i = i + 1;
        }
        u64_from_be_bytes(low.as_slice())
    }

    /// Returns the id of the token of the outcome `token_index` of a
    /// condition, for a collateral. Both are hexadecimal texts, with or
    /// without `0x`.
    pub fn get_token_id(condition_id: &str, collateral_address: &str, token_index: u32) -> (r: u64)
        requires
            is_hex(without_0x(condition_id@)),
            is_hex(without_0x(collateral_address@)),
            token_index < 64,
        ensures
            r == spec_token_id(condition_id@, collateral_address@, token_index),
    {
        let index_set = 1u64 << token_index;
        let collection_id = Self::get_collection_id(condition_id, index_set);
        proof {
            lemma_hex_text_valid(
                collection_number(
                    be_nat(x1_bytes(hex_bytes(without_0x(condition_id@)), index_set)),
                ),
            );
        }
        Self::get_position_id(collateral_address, collection_id.as_str())
    }
}

/// The id of a token depends on the condition, the collateral and the
/// index alone: equal arguments give equal ids.
pub proof fn lemma_token_id_deterministic(
    condition_a: Seq<char>,
    collateral_a: Seq<char>,
    index_a: u32,
    condition_b: Seq<char>,
    collateral_b: Seq<char>,
    index_b: u32,
)
    requires
        condition_a == condition_b,
        collateral_a == collateral_b,
        index_a == index_b,
    ensures
        spec_token_id(condition_a, collateral_a, index_a) == spec_token_id(
            condition_b,
            collateral_b,
            index_b,
        ),
{
}

} // verus!
