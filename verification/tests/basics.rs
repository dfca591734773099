use nft_indexer::address::{to_address, Address, MsgAddress};
use nft_indexer::chain_types::{AuctionStatus, UnpackerError};
use nft_indexer::context::{timestamp_to_datetime, timestamp_to_datetime_opt, u32_to_i32, u64_to_i64, DecodeError, KeyInfo, TxInfo};
use nft_indexer::decimal::{round_safe, u128_to_bigdecimal, u256_to_bigdecimal, Decimal};
use nft_indexer::natural::Natural;
use nft_indexer::tokens::{token_to_i16, token_to_i32, token_to_i64, token_to_u16, Token, TokenValue};
use nft_indexer::scope::{entity_kind, events, functions, kind_to_name, EventKind};
use nft_indexer::settings::{
    default_contracts, trusted_auction_roots, trusted_direct_buy_factories, trusted_direct_sell_factories,
    AuctionsConfig, ModelConfig, OfferRootType, TrustedAddresses,
};
use nft_indexer::text::{address_to_string, int_to_string, zero_workchain_address};

fn dec(negative: bool, digits: Vec<u8>, scale: i64) -> Decimal {
    Decimal { negative, magnitude: Natural { digits }, scale }
}

fn natural(v: u128) -> Natural {
    u128_to_bigdecimal(v).magnitude
}

fn parts(d: &Decimal) -> (bool, Vec<u8>, i64) {
    (d.negative, d.magnitude.digits.clone(), d.scale)
}

#[test]
fn round_safe_keeps_a_short_value() {
    let d = dec(false, vec![1, 2, 3], 2);
    assert_eq!(parts(&round_safe(&d, 2)), (false, vec![1, 2, 3], 2));
    assert_eq!(parts(&round_safe(&d, 5)), (false, vec![1, 2, 3], 2));
}

#[test]
fn round_safe_rounds_half_away_from_zero() {
    // 1.2345 to 2 digits: the first dropped digit is 4.
    assert_eq!(parts(&round_safe(&dec(false, vec![1, 2, 3, 4, 5], 4), 2)), (false, vec![1, 2, 3], 2));
    // 1.235 to 2 digits: the first dropped digit is 5.
    assert_eq!(parts(&round_safe(&dec(false, vec![1, 2, 3, 5], 3), 2)), (false, vec![1, 2, 4], 2));
    // -1.235 to 2 digits.
    assert_eq!(parts(&round_safe(&dec(true, vec![1, 2, 3, 5], 3), 2)), (true, vec![1, 2, 4], 2));
    // 9.96 to 1 digit.
    assert_eq!(parts(&round_safe(&dec(false, vec![9, 9, 6], 2), 1)), (false, vec![1, 0, 0], 1));
}

#[test]
fn round_safe_to_negative_digits() {
    // 1234 to -2 digits: 12 hundreds, and the digit that decides is 3.
    assert_eq!(parts(&round_safe(&dec(false, vec![1, 2, 3, 4], 0), -2)), (false, vec![1, 2], -2));
    assert_eq!(parts(&round_safe(&dec(false, vec![1, 2, 7, 4], 0), -2)), (false, vec![1, 3], -2));
}

#[test]
fn round_safe_on_numbers_past_i128() {
    let mut digits = vec![1u8; 45];
    digits.push(5);
    let d = dec(false, digits, 1);
    let r = round_safe(&d, 0);
    let mut expected = vec![1u8; 44];
    expected.push(2);
    assert_eq!(parts(&r), (false, expected, 0));
}

#[test]
fn big_numbers_become_decimals_of_scale_zero() {
    let d = u128_to_bigdecimal(u128::MAX);
    assert_eq!(d.scale, 0);
    assert_eq!(d.magnitude.digits.len(), 39);
    let d = u256_to_bigdecimal(&[1, 0]);
    assert_eq!(parts(&d), (false, vec![2, 5, 6], 0));
    assert_eq!(natural(0).digits, vec![0]);
}

#[test]
fn texts_of_numbers_and_addresses() {
    assert_eq!(int_to_string(-120), "-120");
    assert_eq!(int_to_string(0), "0");
    assert_eq!(int_to_string(i64::MIN), i64::MIN.to_string());
    assert_eq!(address_to_string(-1, &[0xab, 0x01]), "-1:ab01");
    assert_eq!(zero_workchain_address(&[0x0f]), "0:0f");
    let a = MsgAddress { workchain: 0, address: vec![0xff; 2] };
    assert_eq!(a.to_string(), "0:ffff");
    assert_eq!(to_address(&a), "0:ffff");
    let x: Address = String::from("0:1").into();
    assert_eq!(x.0, "0:1");
    assert_eq!(Address::from_str_slice("0:2").0, "0:2");
}

#[test]
fn timestamps_and_column_conversions() {
    assert_eq!(timestamp_to_datetime(1_700_000_000), 1_700_000_000);
    assert_eq!(timestamp_to_datetime(i64::MAX), 0);
    assert_eq!(timestamp_to_datetime_opt(i64::MIN), None);
    assert_eq!(timestamp_to_datetime_opt(-5), Some(-5));
    assert_eq!(u64_to_i64(u64::MAX), Err(DecodeError::IntegerOverflow));
    assert_eq!(u64_to_i64(5), Ok(5));
    assert_eq!(u32_to_i32(u32::MAX), Err(DecodeError::IntegerOverflow));
}

#[test]
fn the_account_of_a_transaction() {
    let tx = TxInfo { in_msg_dst: None, account_addr: vec![0x01, 0x02], hash: vec![9], lt: 3, now: 4 };
    assert_eq!(tx.get_account(), "0:0102");
    assert_eq!(tx.get_timestamp(), 4);
    assert_eq!(tx.get_hash(), vec![9]);
    let tx = TxInfo {
        in_msg_dst: Some(MsgAddress { workchain: -1, address: vec![0x0a] }),
        account_addr: vec![0x01],
        hash: vec![],
        lt: 3,
        now: 4,
    };
    assert_eq!(tx.get_account(), "-1:0a");
}

#[test]
fn auction_statuses_are_numbered_from_one() {
    assert_eq!(AuctionStatus::from_u8(2), Some(AuctionStatus::Active));
    assert_eq!(AuctionStatus::from_u8(0), None);
    assert_eq!(AuctionStatus::Cancelled.to_u8(), 4);
    assert_eq!(AuctionStatus::unpack(5), Err(UnpackerError::InvalidAbi));
    assert_eq!(AuctionStatus::unpack(3), Ok(AuctionStatus::Complete));
}

#[test]
fn the_events_in_scope() {
    let e = events();
    assert_eq!(e.len(), 26);
    assert_eq!(e[0], "AuctionDeployed");
    assert_eq!(e[25], "RemoveCollectionRules");
    assert!(functions().is_empty());
    assert_eq!(entity_kind("BidPlaced"), Some(EventKind::BidPlaced));
    assert_eq!(entity_kind("MetadataUpdated"), None);
    assert_eq!(entity_kind("RoyaltySet"), None);
    assert_eq!(kind_to_name(EventKind::OwnerChanged), "OwnerChanged");
}

#[test]
fn settings_and_trusted_addresses() {
    assert_eq!(default_contracts(), vec!["postgresql://localhost/nft_indexer".to_string()]);
    assert_eq!(AuctionsConfig::default().contracts.len(), 1);
    assert_eq!(ModelConfig::default().auctions.contracts.len(), 1);
    let t = TrustedAddresses::init_trusted_addresses(
        trusted_auction_roots().iter().map(|s| s.to_string()).collect(),
        trusted_direct_buy_factories().iter().map(|s| s.to_string()).collect(),
        trusted_direct_sell_factories().iter().map(|s| s.to_string()).collect(),
    );
    assert!(t.is_trusted(
        OfferRootType::AuctionRoot,
        &"0:a9adf011a072ae8efac041aa4cdc046f973e275208eba607543ac08690ebab3c".to_string()
    ));
    assert!(!t.is_trusted(
        OfferRootType::FactoryDirectBuy,
        &"0:a9adf011a072ae8efac041aa4cdc046f973e275208eba607543ac08690ebab3c".to_string()
    ));
    let w = t.whitelist_addresses();
    assert_eq!(w.len(), 3);
    assert_eq!(w[2], "0:0cd020840266c5ee7ad575787379c4894f9d494c00d0fc00e22889d721df3f8c");
}

#[test]
fn rounding_twice_is_rounding_once() {
    let once = round_safe(&dec(false, vec![9, 9, 9, 5], 3), 2);
    assert_eq!(parts(&once), (false, vec![1, 0, 0, 0], 2));
    let twice = round_safe(&once, 2);
    assert_eq!(parts(&twice), parts(&once));
}

#[test]
fn timestamps_at_the_edges_of_the_calendar() {
    assert_eq!(timestamp_to_datetime_opt(8_210_266_876_799), Some(8_210_266_876_799));
    assert_eq!(timestamp_to_datetime_opt(8_210_266_876_800), None);
    assert_eq!(timestamp_to_datetime_opt(-8_334_601_228_800), Some(-8_334_601_228_800));
    assert_eq!(timestamp_to_datetime_opt(-8_334_601_228_801), None);
    assert_eq!(timestamp_to_datetime(8_210_266_876_800), 0);
}

#[test]
fn bytes_become_canonical_digits() {
    assert_eq!(parts(&u256_to_bigdecimal(&[])), (false, vec![0], 0));
    assert_eq!(parts(&u256_to_bigdecimal(&[0, 0, 1])), (false, vec![1], 0));
    assert_eq!(parts(&u256_to_bigdecimal(&[0xff, 0xff])), (false, vec![6, 5, 5, 3, 5], 0));
    assert_eq!(parts(&u128_to_bigdecimal(0)), (false, vec![0], 0));
    assert_eq!(parts(&u128_to_bigdecimal(1_000)), (false, vec![1, 0, 0, 0], 0));
}

#[test]
fn rounding_a_small_negative_value_to_zero_drops_the_sign() {
    // -0.004 to 2 digits: the cut value is zero, written without a sign.
    assert_eq!(parts(&round_safe(&dec(true, vec![4], 3), 2)), (false, vec![0], 2));
    // -0.005 to 2 digits: one unit away from zero.
    assert_eq!(parts(&round_safe(&dec(true, vec![5], 3), 2)), (true, vec![1], 2));
}

fn uint(v: u128) -> Token {
    Token { name: "value".to_string(), value: TokenValue::Uint(natural(v), 128) }
}

#[test]
fn numbers_fit_machine_integers_up_to_their_maximum() {
    assert_eq!(token_to_i64(&uint(i64::MAX as u128)), Some(i64::MAX));
    assert_eq!(token_to_i64(&uint(i64::MAX as u128 + 1)), None);
    assert_eq!(token_to_i32(&uint(i32::MAX as u128)), Some(i32::MAX));
    assert_eq!(token_to_i32(&uint(i32::MAX as u128 + 1)), None);
    assert_eq!(token_to_i16(&uint(i16::MAX as u128)), Some(i16::MAX));
    assert_eq!(token_to_i16(&uint(i16::MAX as u128 + 1)), None);
    assert_eq!(token_to_u16(&uint(u16::MAX as u128)), Some(u16::MAX));
    assert_eq!(token_to_u16(&uint(u16::MAX as u128 + 1)), None);
    assert_eq!(token_to_u16(&uint(0)), Some(0));
}

#[test]
fn rounding_on_both_sides_of_the_i128_bound() {
    // i128::MAX = ...727 and one past it = ...728: both round up to ...73 at scale 0.
    let expected = natural(i128::MAX as u128 / 10 + 1).digits;
    let at = Decimal { negative: false, magnitude: natural(i128::MAX as u128), scale: 1 };
    assert_eq!(parts(&round_safe(&at, 0)), (false, expected.clone(), 0));
    let past = Decimal { negative: false, magnitude: natural(i128::MAX as u128 + 1), scale: 1 };
    assert_eq!(parts(&round_safe(&past, 0)), (false, expected.clone(), 0));
    let below = Decimal { negative: true, magnitude: natural(i128::MAX as u128), scale: 1 };
    assert_eq!(parts(&round_safe(&below, 0)), (true, expected, 0));
}

#[test]
fn rounding_to_fewer_places_than_a_value_has_zeros_widens_it() {
    // 1 200 000 held as 12 at scale -5, rounded to -3: 1200 at scale -3.
    assert_eq!(parts(&round_safe(&dec(false, vec![1, 2], -5), -3)), (false, vec![1, 2, 0, 0], -3));
}

#[test]
fn the_events_in_scope_that_are_unpacked() {
    let mut not_unpacked = vec![];
    for name in events().iter() {
        match entity_kind(name) {
            Some(kind) => assert_eq!(kind_to_name(kind), *name),
            None => not_unpacked.push(*name),
        }
    }
    assert_eq!(not_unpacked, vec!["NftMetadataUpdated", "CollectionMetadataUpdated", "MetadataUpdated"]);
    assert_eq!(entity_kind("NftMetadataUpdated"), None);
    assert_eq!(entity_kind("CollectionMetadataUpdated"), None);
}

#[test]
fn a_value_that_needs_no_rounding_is_taken_as_it_is() {
    // The mantissa -2^127 at scale 1: already short enough for 2 digits.
    let min = Decimal { negative: true, magnitude: natural(1u128 << 127), scale: 1 };
    assert_eq!(parts(&round_safe(&min, 2)), (true, natural(1u128 << 127).digits, 1));
    let once = round_safe(&dec(false, vec![1, 2, 3, 5], 3), 2);
    assert_eq!(parts(&round_safe(&once, 2)), parts(&once));
}
