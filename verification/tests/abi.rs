use nft_indexer::abi::{abi_has_event, extractable_contracts_vec, extractable_events, filter_abi_events, AbiContract};
use nft_indexer::json::Json;

fn event(name: &str) -> Json {
    Json::Object(vec![
        ("name".to_string(), Json::Str(name.to_string())),
        ("inputs".to_string(), Json::Array(vec![])),
    ])
}

fn abi(events: &[&str]) -> Json {
    Json::Object(vec![
        ("ABI version".to_string(), Json::Number("2".to_string())),
        ("events".to_string(), Json::Array(events.iter().map(|e| event(e)).collect())),
    ])
}

fn load(contract: AbiContract, raw: Json) -> Json {
    filter_abi_events(raw, &contract.only_events(), &contract.excluded_events())
}

fn collection() -> Json {
    load(AbiContract::Collection, abi(&["NftCreated", "NftBurned", "OwnershipTransferred"]))
}

fn nft() -> Json {
    load(AbiContract::Nft, abi(&["NftCreated", "NftBurned", "OwnerChanged", "ManagerChanged"]))
}

fn collection4_2_2() -> Json {
    load(
        AbiContract::Collection4_2_2,
        abi(&["NftCreated", "NftBurned", "NftMetadataUpdated", "CollectionMetadataUpdated"]),
    )
}

fn nft4_2_2() -> Json {
    load(AbiContract::Nft4_2_2, abi(&["NftCreated", "MetadataUpdated", "OwnerChanged"]))
}

#[test]
fn ensure_excluded_event() {
    let col = collection();
    let nft = nft();
    let col422 = collection4_2_2();
    let nft422 = nft4_2_2();

    assert!(abi_has_event(&col, "NftCreated"));
    assert!(abi_has_event(&col, "NftBurned"));
    assert!(abi_has_event(&nft, "NftBurned"));
    assert!(abi_has_event(&col422, "NftMetadataUpdated"));
    assert!(abi_has_event(&col422, "CollectionMetadataUpdated"));
    assert!(abi_has_event(&nft422, "MetadataUpdated"));

    assert!(!abi_has_event(&nft, "NftCreated"));
    assert!(!abi_has_event(&col422, "NftCreated"));
    assert!(!abi_has_event(&nft422, "NftCreated"));
}

#[test]
fn filtering_keeps_the_order_and_the_other_members() {
    let r = load(AbiContract::Collection4_2_2, abi(&["CollectionMetadataUpdated", "NftCreated", "NftMetadataUpdated"]));
    match r {
        Json::Object(members) => {
            assert_eq!(members.len(), 2);
            assert_eq!(members[0].0, "ABI version");
            assert_eq!(members[1].0, "events");
            match &members[1].1 {
                Json::Array(items) => {
                    let names: Vec<String> = items
                        .iter()
                        .map(|e| e.str_member("name").unwrap().clone())
                        .collect();
                    assert_eq!(names, vec!["CollectionMetadataUpdated", "NftMetadataUpdated"]);
                },
                _ => panic!("events must stay an array"),
            }
        },
        _ => panic!("the ABI must stay an object"),
    }
}

#[test]
fn events_without_a_name_are_dropped_only_by_a_list_of_kept_events() {
    let nameless = Json::Object(vec![("inputs".to_string(), Json::Array(vec![]))]);
    let raw = Json::Object(vec![("events".to_string(), Json::Array(vec![nameless]))]);
    let kept = filter_abi_events(raw, &AbiContract::Nft.only_events(), &AbiContract::Nft.excluded_events());
    assert!(matches!(&kept, Json::Object(m) if matches!(&m[0].1, Json::Array(items) if items.len() == 1)));
    let nameless = Json::Object(vec![("inputs".to_string(), Json::Array(vec![]))]);
    let raw = Json::Object(vec![("events".to_string(), Json::Array(vec![nameless]))]);
    let kept = filter_abi_events(
        raw,
        &AbiContract::Nft4_2_2.only_events(),
        &AbiContract::Nft4_2_2.excluded_events(),
    );
    assert!(matches!(&kept, Json::Object(m) if matches!(&m[0].1, Json::Array(items) if items.is_empty())));
}

#[test]
fn an_abi_without_events_is_left_alone() {
    let raw = Json::Object(vec![("functions".to_string(), Json::Array(vec![]))]);
    let r = filter_abi_events(raw, &vec!["A"], &vec!["B"]);
    assert!(!abi_has_event(&r, "A"));
    assert!(matches!(r, Json::Object(m) if m.len() == 1 && m[0].0 == "functions"));
}

#[test]
fn the_sources_of_the_abis() {
    assert_eq!(AbiContract::AuctionRootTip3.source(), "json/FactoryAuction.abi.json");
    assert_eq!(AbiContract::Nft4_2_2.source(), "json/Nft4_2_2.abi.json");
    assert_eq!(AbiContract::Nft.excluded_events(), vec!["NftCreated"]);
    assert!(AbiContract::Collection.only_events().is_empty());
}

#[test]
fn filtering_twice_keeps_the_same_events() {
    let once = load(AbiContract::Nft, abi(&["NftCreated", "NftBurned", "NftCreated", "OwnerChanged"]));
    let twice = filter_abi_events(
        load(AbiContract::Nft, abi(&["NftCreated", "NftBurned", "NftCreated", "OwnerChanged"])),
        &AbiContract::Nft.only_events(),
        &AbiContract::Nft.excluded_events(),
    );
    let names = |j: &Json| -> Vec<String> {
        j.array_member("events").unwrap().iter().map(|e| e.str_member("name").unwrap().clone()).collect()
    };
    assert_eq!(names(&once), vec!["NftBurned", "OwnerChanged"]);
    assert_eq!(names(&twice), names(&once));
}

#[test]
fn only_events_in_scope_are_extracted() {
    let contracts = extractable_contracts_vec();
    assert_eq!(contracts.len(), 12);
    assert_eq!(contracts[0], AbiContract::AuctionRootTip3);
    assert_eq!(contracts[11], AbiContract::Collection4_2_2);
    let names = extractable_events(&abi(&["NftCreated", "Transfer", "NftBurned", "MetadataUpdated"]));
    assert_eq!(names, vec!["NftCreated", "NftBurned", "MetadataUpdated"]);
    assert!(extractable_events(&Json::Null).is_empty());
    let names = extractable_events(&nft());
    assert_eq!(names, vec!["NftBurned", "OwnerChanged", "ManagerChanged"]);
}
