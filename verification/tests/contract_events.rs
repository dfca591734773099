use nft_indexer::contract_events::{
    AddCollectionRules, AuctionCancelled, AuctionDeployed, DirectBuyStateChanged, MarketFeeChanged,
    NftCreated, NftOwnerChanged,
};
use nft_indexer::decimal::u128_to_bigdecimal;
use nft_indexer::tokens::{BuildError, ExtractedEvent, Token, TokenValue};

fn uint(name: &str, v: u128) -> Token {
    Token { name: name.to_string(), value: TokenValue::Uint(u128_to_bigdecimal(v).magnitude, 128) }
}

fn addr(name: &str, byte: u8) -> Token {
    Token { name: name.to_string(), value: TokenValue::Address(vec![byte; 32]) }
}

fn tuple(name: &str, tokens: Vec<Token>) -> Token {
    Token { name: name.to_string(), value: TokenValue::Tuple(tokens) }
}

fn event(name: &str, tokens: Vec<Token>) -> ExtractedEvent {
    ExtractedEvent {
        name: name.to_string(),
        tokens,
        account_id: vec![0xab; 32],
        ext_out_header: Some((1_700_000_000, 42)),
        message_hash: "f00d".to_string(),
    }
}

fn text(byte: u8) -> String {
    format!("0:{}", format!("{:02x}", byte).repeat(32))
}

#[test]
fn auction_deployed_is_built_from_its_offer_info() {
    let ev = event(
        "AuctionDeployed",
        vec![tuple(
            "offerInfo",
            vec![
                addr("collection", 0x01),
                addr("nftOwner", 0x02),
                addr("nft", 0x03),
                addr("offer", 0x04),
                uint("price", 1000),
                uint("auctionDuration", 3600),
                uint("deployNonce", 7),
            ],
        )],
    );
    let r = AuctionDeployed::build_from(&ev).unwrap();
    assert_eq!(r.header.address, text(0xab));
    assert_eq!(r.header.created_at, 1_700_000_000);
    assert_eq!(r.header.created_lt, 42);
    assert_eq!(r.header.message_hash, "f00d");
    assert_eq!(r.header.event_nft, Some(text(0x03)));
    assert_eq!(r.header.event_collection, Some(text(0x01)));
    assert_eq!(r.collection, text(0x01));
    assert_eq!(r.nft_owner, text(0x02));
    assert_eq!(r.offer, text(0x04));
    assert_eq!(r.price.magnitude.digits, vec![1, 0, 0, 0]);
    assert_eq!(r.price.scale, 0);
    assert_eq!(r.auction_duration, 3600);
    assert_eq!(r.deploy_nonce.magnitude.digits, vec![7]);
}

#[test]
fn a_missing_token_fails_the_build() {
    let ev = event("AuctionDeployed", vec![tuple("offerInfo", vec![addr("collection", 0x01)])]);
    assert_eq!(AuctionDeployed::build_from(&ev).err(), Some(BuildError::Malformed));
}

#[test]
fn a_token_that_is_no_tuple_fails_the_build() {
    let ev = event("AuctionDeployed", vec![uint("offerInfo", 1)]);
    assert!(AuctionDeployed::build_from(&ev).is_err());
}

#[test]
fn a_message_that_is_not_external_out_fails_the_build() {
    let mut ev = event("AuctionCancelled", vec![]);
    ev.ext_out_header = None;
    assert!(AuctionCancelled::build_from(&ev).is_err());
    ev.ext_out_header = Some((5, 6));
    let r = AuctionCancelled::build_from(&ev).unwrap();
    assert_eq!(r.header.created_at, 5);
    assert_eq!(r.header.created_lt, 6);
    assert_eq!(r.header.event_nft, None);
}

#[test]
fn logical_time_is_stored_as_a_signed_column() {
    let mut ev = event("AuctionCancelled", vec![]);
    ev.ext_out_header = Some((1, u64::MAX));
    let r = AuctionCancelled::build_from(&ev).unwrap();
    assert_eq!(r.header.created_lt, -1);
}

#[test]
fn a_number_too_large_for_its_column_fails_the_build() {
    let ev = event(
        "AuctionDeployed",
        vec![tuple(
            "offerInfo",
            vec![
                addr("collection", 0x01),
                addr("nftOwner", 0x02),
                addr("nft", 0x03),
                addr("offer", 0x04),
                uint("price", 1000),
                uint("auctionDuration", (i64::MAX as u128) + 1),
                uint("deployNonce", 7),
            ],
        )],
    );
    assert!(AuctionDeployed::build_from(&ev).is_err());
}

#[test]
fn collection_rules_take_the_collection_from_the_event() {
    let ev = event(
        "AddCollectionRules",
        vec![
            addr("collection", 0x09),
            tuple(
                "collectionFeeInfo",
                vec![uint("codeHash", 12345), uint("codeDepth", 3), uint("numerator", 1), uint("denominator", 40)],
            ),
        ],
    );
    let r = AddCollectionRules::build_from(&ev).unwrap();
    assert_eq!(r.collection, text(0x09));
    assert_eq!(r.header.event_collection, Some(text(0x09)));
    assert_eq!(r.header.event_nft, None);
    assert_eq!(r.code_depth, 3);
    assert_eq!(r.numerator, 1);
    assert_eq!(r.denominator, 40);
}

#[test]
fn a_tuple_token_shadows_an_event_token_of_the_same_name() {
    let ev = event(
        "MarketFeeChanged",
        vec![
            addr("auction", 0x05),
            tuple("fee", vec![uint("numerator", 2), uint("denominator", 100), addr("auction", 0x06)]),
        ],
    );
    let r = MarketFeeChanged::build_from(&ev).unwrap();
    assert_eq!(r.auction, text(0x06));
    assert_eq!(r.fee_numerator, 2);
    assert_eq!(r.fee_denominator, 100);
}

#[test]
fn the_added_event_token_must_exist() {
    let ev = event("MarketFeeChanged", vec![tuple("fee", vec![uint("numerator", 2), uint("denominator", 100)])]);
    assert!(MarketFeeChanged::build_from(&ev).is_err());
}

#[test]
fn direct_buy_state_change_reads_from_and_to() {
    let ev = event(
        "DirectBuyStateChanged",
        vec![
            uint("from", 2),
            uint("to", 3),
            tuple(
                "value2",
                vec![
                    addr("factory", 0x10),
                    addr("creator", 0x11),
                    addr("spentToken", 0x12),
                    addr("nft", 0x13),
                    uint("_timeTx", 100),
                    uint("_price", 5000),
                    addr("spentWallet", 0x14),
                    uint("status", 3),
                    uint("startTimeBuy", 10),
                    uint("durationTimeBuy", 20),
                    uint("endTimeBuy", 30),
                ],
            ),
        ],
    );
    let r = DirectBuyStateChanged::build_from(&ev).unwrap();
    assert_eq!(r.from_state, 2);
    assert_eq!(r.to_state, 3);
    assert_eq!(r.nft, text(0x13));
    assert_eq!(r.header.event_nft, Some(text(0x13)));
    assert_eq!(r.end_time_buy, 30);
    assert_eq!(r.status, 3);
}

#[test]
fn nft_events_name_the_emitter() {
    let ev = event("OwnerChanged", vec![addr("oldOwner", 0x01), addr("newOwner", 0x02)]);
    let r = NftOwnerChanged::build_from(&ev).unwrap();
    assert_eq!(r.header.event_nft, Some(text(0xab)));
    assert_eq!(r.new_owner, text(0x02));

    let ev = event(
        "NftCreated",
        vec![uint("id", 1), addr("nft", 0x03), addr("owner", 0x04), addr("manager", 0x05), addr("creator", 0x06)],
    );
    let r = NftCreated::build_from(&ev).unwrap();
    assert_eq!(r.header.event_collection, Some(text(0xab)));
    assert_eq!(r.header.event_nft, Some(text(0x03)));
    assert_eq!(r.creator, text(0x06));
}
