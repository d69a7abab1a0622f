use arbitrage_engine::asset::AssetId;
use arbitrage_engine::wire::{
    decode_amount, decode_price_pair, encode_amount, encode_price_pair, instruction_data, put_word,
    word_at, EXECUTE_SELECTOR, PRICE_CHECK_SELECTOR, PRICE_PAIR_BYTES, WORD_BYTES,
};
use solana_sdk::pubkey::Pubkey;
use std::str::FromStr;

#[test]
fn words_are_little_endian() {
    let mut out: Vec<u8> = vec![9];
    put_word(&mut out, 500_000_000);
    assert_eq!(out, vec![9, 0, 101, 205, 29, 0, 0, 0, 0]);
    assert_eq!(word_at(&out, 1), 500_000_000);
    let mut all: Vec<u8> = Vec::new();
    put_word(&mut all, u64::MAX);
    put_word(&mut all, 0);
    put_word(&mut all, 0x0102_0304_0506_0708);
    assert_eq!(all.len(), 24);
    assert_eq!(&all[0..8], &[255u8; 8]);
    assert_eq!(&all[8..16], &[0u8; 8]);
    assert_eq!(&all[16..24], &[8, 7, 6, 5, 4, 3, 2, 1]);
    assert_eq!(word_at(&all, 0), u64::MAX);
    assert_eq!(word_at(&all, 8), 0);
    assert_eq!(word_at(&all, 16), 0x0102_0304_0506_0708);
    assert_eq!(word_at(&all, 16), u64::from_le_bytes([8, 7, 6, 5, 4, 3, 2, 1]));
}

#[test]
fn instruction_data_is_selector_then_amount() {
    assert_eq!(WORD_BYTES, 8);
    assert_eq!(PRICE_CHECK_SELECTOR, 0);
    assert_eq!(EXECUTE_SELECTOR, 0);
    assert_eq!(instruction_data(0, 500_000_000), vec![0, 0, 101, 205, 29, 0, 0, 0, 0]);
    assert_eq!(instruction_data(3, 1), vec![3, 1, 0, 0, 0, 0, 0, 0, 0]);
    let mut expected: Vec<u8> = vec![0];
    expected.extend_from_slice(&123_456_789_012u64.to_le_bytes());
    assert_eq!(instruction_data(0, 123_456_789_012), expected);
}

#[test]
fn price_pair_round_trip() {
    let pairs: Vec<(u64, u64)> =
        vec![(1_050_000, 1_000_000), (0, 0), (u64::MAX, 1), (1, u64::MAX), (255, 256)];
    for (price_a, price_b) in pairs {
        let data = encode_price_pair(price_a, price_b);
        assert_eq!(data.len(), PRICE_PAIR_BYTES);
        assert_eq!(&data[0..8], &price_a.to_le_bytes());
        assert_eq!(&data[8..16], &price_b.to_le_bytes());
        assert_eq!(decode_price_pair(&data), Some((price_a, price_b)));
    }
}

#[test]
fn price_pair_needs_sixteen_bytes() {
    let data = encode_price_pair(1_050_000, 1_000_000);
    assert_eq!(decode_price_pair(&data[0..15]), None);
    assert_eq!(decode_price_pair(&data[0..8]), None);
    assert_eq!(decode_price_pair(&[]), None);
}

#[test]
fn price_pair_ignores_what_follows() {
    let mut data = encode_price_pair(1_050_000, 1_000_000);
    data.push(9);
    data.push(9);
    assert_eq!(decode_price_pair(&data), Some((1_050_000, 1_000_000)));
}

#[test]
fn addresses_parse_to_their_bytes() {
    let wrapped = "So11111111111111111111111111111111111111112";
    let parsed = AssetId::parse(wrapped).unwrap();
    assert_eq!(
        parsed.bytes,
        [
            6, 155, 136, 87, 254, 171, 129, 132, 251, 104, 127, 99, 70, 24, 192, 53, 218, 196, 57,
            220, 26, 235, 59, 85, 152, 160, 240, 0, 0, 0, 0, 1
        ]
    );
    assert_eq!(parsed.bytes, Pubkey::from_str(wrapped).unwrap().to_bytes());
    let system = AssetId::parse("11111111111111111111111111111111").unwrap();
    assert_eq!(system.bytes, [0u8; 32]);
    let router = "JUP4Fb2cqiRUcaTHdrPC8h2gNsA2ETXiPDD33WcGuJB";
    assert_eq!(
        AssetId::parse(router).unwrap().bytes,
        Pubkey::from_str(router).unwrap().to_bytes()
    );
}

#[test]
fn malformed_addresses_do_not_parse() {
    assert_eq!(AssetId::parse("Your_Program_ID"), None);
    assert_eq!(AssetId::parse(""), None);
    assert_eq!(AssetId::parse("So1111111111111111111111111111111111111111"), None);
    assert_eq!(AssetId::parse("So111111111111111111111111111111111111111120"), None);
    assert_eq!(AssetId::parse("0OIl"), None);
}

#[test]
fn same_asset_compares_all_bytes() {
    let one = AssetId::from_bytes([7; 32]);
    let mut bytes = [7u8; 32];
    assert!(one.same(&AssetId::from_bytes(bytes)));
    bytes[31] = 8;
    assert!(!one.same(&AssetId::from_bytes(bytes)));
    bytes[31] = 7;
    bytes[0] = 0;
    assert!(!one.same(&AssetId::from_bytes(bytes)));
}

#[test]
fn returned_amount_round_trip() {
    let amounts: Vec<u64> = vec![0, 1, 4_100, 255, 256, u64::MAX];
    for amount in amounts {
        let data = encode_amount(amount);
        assert_eq!(data, amount.to_le_bytes().to_vec());
        assert_eq!(decode_amount(&data), Some(amount));
    }
    assert_eq!(encode_amount(4_100), vec![4, 16, 0, 0, 0, 0, 0, 0]);
}

#[test]
fn returned_amount_needs_eight_bytes() {
    assert_eq!(decode_amount(&[1, 2, 3, 4, 5, 6, 7]), None);
    assert_eq!(decode_amount(&[]), None);
    assert_eq!(decode_amount(&[4, 16, 0, 0, 0, 0, 0, 0, 9, 9]), Some(4_100));
}
