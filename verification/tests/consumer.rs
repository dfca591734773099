use nft_indexer::consumer::{
    build_record, contract_kinds_vec, events_are_wf, find_event, record_for, whitelist_after, ContractKind, RecordKind,
};
use nft_indexer::dependent_tables::ContractRecord;
use nft_indexer::decimal::u128_to_bigdecimal;
use nft_indexer::settings::TrustedAddresses;
use nft_indexer::tokens::{ExtractedEvent, Token, TokenValue};

fn addr(name: &str, byte: u8) -> Token {
    Token { name: name.to_string(), value: TokenValue::Address(vec![byte; 32]) }
}

fn uint(name: &str, v: u128) -> Token {
    Token { name: name.to_string(), value: TokenValue::Uint(u128_to_bigdecimal(v).magnitude, 64) }
}

fn event(name: &str, account: u8, tokens: Vec<Token>) -> ExtractedEvent {
    ExtractedEvent {
        name: name.to_string(),
        tokens,
        account_id: vec![account; 32],
        ext_out_header: Some((10, 20)),
        message_hash: "h".to_string(),
    }
}

fn text(byte: u8) -> String {
    format!("0:{}", format!("{:02x}", byte).repeat(32))
}

#[test]
fn the_handlers_and_their_events() {
    let kinds = contract_kinds_vec();
    assert_eq!(kinds.len(), 8);
    assert_eq!(kinds[0], ContractKind::AuctionTip3);
    assert_eq!(kinds[7], ContractKind::Collection);
    assert_eq!(ContractKind::Nft.abi_path(), "./abi/Nft.abi.json");
    let h = ContractKind::AuctionTip3.handled();
    assert_eq!(h.len(), 6);
    assert_eq!(h[2], ("BidPlaced", RecordKind::AuctionBidPlaced));
    let h = ContractKind::Collection.handled();
    assert_eq!(
        h,
        vec![
            ("OwnershipTransferred", RecordKind::CollectionOwnershipTransferred),
            ("NftCreated", RecordKind::NftCreated),
            ("NftBurned", RecordKind::NftBurned),
        ]
    );
}

#[test]
fn the_first_event_of_a_name_is_handled() {
    let evs = vec![
        event("OwnerChanged", 0x01, vec![addr("oldOwner", 1), addr("newOwner", 2)]),
        event("OwnerChanged", 0x02, vec![addr("oldOwner", 3), addr("newOwner", 4)]),
    ];
    assert_eq!(find_event(&evs, "OwnerChanged").unwrap().account_id, vec![0x01; 32]);
    assert!(find_event(&evs, "ManagerChanged").is_none());
    assert!(record_for(RecordKind::NftManagerChanged, "ManagerChanged", &evs).is_none());
    match record_for(RecordKind::NftOwnerChanged, "OwnerChanged", &evs) {
        Some(Ok(ContractRecord::NftOwnerChanged(r))) => assert_eq!(r.new_owner, text(2)),
        _ => panic!("expected an owner change"),
    }
}

#[test]
fn a_malformed_event_gives_an_error() {
    let evs = vec![event("OwnerChanged", 0x01, vec![addr("oldOwner", 1)])];
    assert!(matches!(record_for(RecordKind::NftOwnerChanged, "OwnerChanged", &evs), Some(Err(_))));
}

#[test]
fn trusted_deployments_whitelist_their_offers() {
    let factory = text(0x0f);
    let trusted = TrustedAddresses::init_trusted_addresses(vec![], vec![factory.clone()], vec![]);
    let ev = event(
        "DirectBuyDeployed",
        0x0f,
        vec![
            addr("directBuy", 0x21),
            addr("sender", 0x22),
            addr("token", 0x23),
            addr("nft", 0x24),
            uint("nonce", 1),
            uint("amount", 100),
        ],
    );
    let rec = build_record(RecordKind::DirectBuyDeployed, &ev).unwrap_or_else(|_| panic!("must build"));
    assert_eq!(whitelist_after(&rec, &trusted), Some(text(0x21)));
    let untrusted = TrustedAddresses::init_trusted_addresses(vec![factory], vec![], vec![]);
    assert_eq!(whitelist_after(&rec, &untrusted), None);
}

#[test]
fn extracted_events_are_checked_for_malformed_numbers() {
    let good = vec![event("NftCreated", 1, vec![uint("id", 256), addr("nft", 2)])];
    assert!(events_are_wf(&good));
    let bad_number = Token { name: "id".to_string(), value: TokenValue::Uint(nft_indexer::natural::Natural { digits: vec![1, 12] }, 64) };
    assert!(!events_are_wf(&vec![event("NftCreated", 1, vec![bad_number])]));
    let nested = Token {
        name: "value0".to_string(),
        value: TokenValue::Tuple(vec![Token { name: "x".to_string(), value: TokenValue::Uint(nft_indexer::natural::Natural { digits: vec![10] }, 8) }]),
    };
    assert!(!events_are_wf(&vec![event("AuctionCreated", 1, vec![nested])]));
    assert!(events_are_wf(&vec![]));
}
