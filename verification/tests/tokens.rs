use poly_market_maker::ct_helpers::{u64_from_be_bytes, u64_to_be_bytes, CTHelpers};
use poly_market_maker::hexcode::{decode_hex, decode_prefixed_hex, strip_0x, HexError};
use poly_market_maker::market::Market;
use poly_market_maker::token::Token;

const CONDITION: &str = "0x0000000000000000000000000000000000000000000000000000000000000001";
const COLLATERAL: &str = "0x0000000000000000000000000000000000000002";

#[test]
fn numbers_as_eight_bytes() {
    assert_eq!(u64_to_be_bytes(0), vec![0; 8]);
    assert_eq!(u64_to_be_bytes(1), vec![0, 0, 0, 0, 0, 0, 0, 1]);
    assert_eq!(u64_to_be_bytes(0x0102030405060708), vec![1, 2, 3, 4, 5, 6, 7, 8]);
    assert_eq!(u64_to_be_bytes(u64::MAX), vec![255; 8]);
    assert_eq!(u64_from_be_bytes(&[0; 8]), 0);
    assert_eq!(u64_from_be_bytes(&[1, 2, 3, 4, 5, 6, 7, 8]), 0x0102030405060708);
    assert_eq!(u64_from_be_bytes(&[255; 8]), u64::MAX);
    for v in [0u64, 1, 255, 256, 1 << 32, 8529253592479352563, u64::MAX] {
        assert_eq!(u64_to_be_bytes(v), v.to_be_bytes().to_vec());
        assert_eq!(u64_from_be_bytes(&v.to_be_bytes()), v);
    }
}

#[test]
fn hex_decodes_pairs_of_digits() {
    assert_eq!(decode_hex(""), Ok(vec![]));
    assert_eq!(decode_hex("00ff10Ab"), Ok(vec![0x00, 0xff, 0x10, 0xab]));
    assert_eq!(decode_hex("DEADbeef"), Ok(vec![0xde, 0xad, 0xbe, 0xef]));
}

#[test]
fn hex_refuses_odd_lengths_and_other_characters() {
    assert_eq!(decode_hex("0"), Err(HexError::Invalid));
    assert_eq!(decode_hex("abc"), Err(HexError::Invalid));
    assert_eq!(decode_hex("0g"), Err(HexError::Invalid));
    assert_eq!(decode_hex("0x00"), Err(HexError::Invalid));
    assert_eq!(decode_hex(" 00"), Err(HexError::Invalid));
    assert_eq!(decode_hex("é"), Err(HexError::Invalid));
    assert_eq!(decode_hex("éa"), Err(HexError::Invalid));
}

#[test]
fn strip_0x_takes_one_prefix_away() {
    assert_eq!(strip_0x("0xab"), "ab");
    assert_eq!(strip_0x("ab"), "ab");
    assert_eq!(strip_0x("0x0xab"), "0xab");
    assert_eq!(strip_0x("0Xab"), "0Xab");
    assert_eq!(strip_0x("0"), "0");
    assert_eq!(strip_0x(""), "");
    assert_eq!(strip_0x("0x"), "");
    assert_eq!(strip_0x("0x\u{e9}1"), "\u{e9}1");
    assert_eq!(strip_0x("\u{e9}0x"), "\u{e9}0x");
}

#[test]
fn hex_with_a_prefix() {
    assert_eq!(decode_prefixed_hex("0x00ff"), Ok(vec![0x00, 0xff]));
    assert_eq!(decode_prefixed_hex("00ff"), Ok(vec![0x00, 0xff]));
    assert_eq!(decode_prefixed_hex("0x"), Ok(vec![]));
    assert_eq!(decode_prefixed_hex("0X00"), Err(HexError::Invalid));
    assert_eq!(decode_prefixed_hex("0x0x00"), Err(HexError::Invalid));
}

#[test]
fn collection_id_is_a_point_of_the_curve() {
    assert_eq!(
        CTHelpers::get_collection_id(CONDITION, 1),
        "0x66d61486f65609077b6bf5556b8cd8fc8e6557bff76b6667b36263f922af7df5"
    );
    assert_eq!(
        CTHelpers::get_collection_id(CONDITION, 2),
        "0x0fef4a0550976b31c1e80578cbe43f479fa0cbeaf6852ce8c0a05ef9daafdfeb"
    );
    assert_eq!(
        CTHelpers::get_collection_id(
            "abababababababababababababababababababababababababababababababab",
            1
        ),
        "0x18bcac27c6efdc0340a1ced91d81393f739abe40f0306b10f80b27dc264bd386"
    );
    assert_eq!(
        CTHelpers::get_collection_id("", 1),
        "0x0b695f2f7fcb7a7f1a0f051cc003bf7438513630f70b139d5a52f816ff2d1582"
    );
}

#[test]
fn token_ids_of_the_two_outcomes_differ() {
    let a = CTHelpers::get_token_id(CONDITION, COLLATERAL, 0);
    let b = CTHelpers::get_token_id(CONDITION, COLLATERAL, 1);
    assert_eq!(a, 8529253592479352563);
    assert_eq!(b, 14466385048377931629);
    assert_ne!(a, b);
}

#[test]
fn token_id_derivation_is_repeatable() {
    for index in [0u32, 1] {
        let first = CTHelpers::get_token_id(CONDITION, COLLATERAL, index);
        let second = CTHelpers::get_token_id(CONDITION, COLLATERAL, index);
        assert_eq!(first.to_be_bytes(), second.to_be_bytes());
        assert_eq!(
            CTHelpers::get_collection_id(CONDITION, 1u64 << index),
            CTHelpers::get_collection_id(CONDITION, 1u64 << index)
        );
    }
}

#[test]
fn token_id_with_and_without_prefix() {
    let condition = "abababababababababababababababababababababababababababababababab";
    let collateral = "2791Bca1f2de4661ED88A30C99A7a9449Aa84174";
    assert_eq!(CTHelpers::get_token_id(condition, collateral, 0), 12624772511332754650);
    assert_eq!(CTHelpers::get_token_id(condition, collateral, 1), 7225700275592210477);
    let prefixed = format!("0x{}", condition);
    assert_eq!(
        CTHelpers::get_token_id(&prefixed, collateral, 0),
        CTHelpers::get_token_id(condition, collateral, 0)
    );
    assert_eq!(CTHelpers::get_token_id("", "", 0), 6423939774726972);
}

#[test]
fn position_id_is_the_tail_of_the_hash() {
    let collection = CTHelpers::get_collection_id(CONDITION, 1);
    assert_eq!(CTHelpers::get_position_id(COLLATERAL, &collection), 8529253592479352563);
}

#[test]
fn market_derives_both_token_ids() {
    let market = Market::new(CONDITION.to_string(), COLLATERAL.to_string());
    assert_eq!(market.condition_id, CONDITION);
    assert_eq!(market.token_id(Token::A), 8529253592479352563);
    assert_eq!(market.token_id(Token::B), 14466385048377931629);
    assert_eq!(market.token(8529253592479352563), Some(Token::A));
    assert_eq!(market.token(14466385048377931629), Some(Token::B));
    assert_eq!(market.token(1), None);
}
