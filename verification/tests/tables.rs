use nft_indexer::contract_events::{
    AuctionBidPlaced, AuctionCancelled, AuctionDeployed, CollectionOwnershipTransferred, DirectSellStateChanged,
    Header, NftBurned, NftCreated, NftOwnerChanged,
};
use nft_indexer::decimal::u128_to_bigdecimal;
use nft_indexer::dependent_tables::{is_whitelisted_collection, ContractRecord, Found, Query};
use nft_indexer::json::Json;
use nft_indexer::records::{DirectSellState, NftPriceSource};
use nft_indexer::tables::{first_action, next_action, Action, AuctionState, Instr, Reply, Table, Write};

const WHITELISTED: &str = "0:ec0ab798c85aa7256865221bacd4f3df220cf60277a2b79b3091b76c265d1cd7";

fn header(address: &str) -> Header {
    Header {
        address: address.to_string(),
        created_lt: 77,
        created_at: 1_700_000_000,
        message_hash: "hash".to_string(),
        event_nft: None,
        event_collection: None,
    }
}

fn nothing_found() -> Found {
    Found { nft: None, collection: None, price_token: None, meta: Json::Null }
}

fn run(script: &Vec<Instr>, start: Action, replies: &[Reply]) -> Vec<Action> {
    let mut actions = vec![start];
    let mut last = start;
    for r in replies {
        last = next_action(script, last, *r);
        actions.push(last);
    }
    actions
}

#[test]
fn a_deployment_only_saves_its_event() {
    let rec = ContractRecord::AuctionDeployed(AuctionDeployed {
        header: header("0:aa"),
        collection: "0:c".to_string(),
        nft_owner: "0:o".to_string(),
        nft: "0:n".to_string(),
        offer: "0:f".to_string(),
        price: u128_to_bigdecimal(1),
        auction_duration: 10,
        deploy_nonce: u128_to_bigdecimal(2),
    });
    assert!(rec.queries().is_empty());
    let plan = rec.plan(&nothing_found());
    assert!(!plan.skip);
    assert!(plan.before.is_empty() && plan.middle.is_empty() && plan.after.is_empty());
    assert!(plan.check.is_none());
    let script = plan.script();
    assert_eq!(script.len(), 2);
    assert!(matches!(script[0], Instr::Save(_)));
    assert!(matches!(script[1], Instr::Commit));
}

#[test]
fn a_save_that_writes_no_row_is_rolled_back() {
    let rec = ContractRecord::AuctionCancelled(AuctionCancelled { header: header("0:auction") });
    let found = Found { nft: Some("0:nft".to_string()), collection: None, price_token: None, meta: Json::Null };
    let plan = rec.plan(&found);
    let start = first_action(&plan);
    let script = plan.script();
    let actions = run(&script, start, &[Reply::Completed, Reply::Completed, Reply::Rows(0), Reply::Completed]);
    assert_eq!(
        actions,
        vec![Action::Begin, Action::Perform(0), Action::Perform(1), Action::Rollback, Action::Done]
    );
    match &script[0] {
        Instr::Write(Write::UpsertAuction(a)) => {
            assert_eq!(a.status, Some(AuctionState::Cancelled));
            assert_eq!(a.nft.as_deref(), Some("0:nft"));
            assert_eq!(a.tx_lt, 77);
        },
        _ => panic!("expected the auction"),
    }
}

#[test]
fn a_saved_event_is_committed() {
    let rec = ContractRecord::AuctionCancelled(AuctionCancelled { header: header("0:auction") });
    let plan = rec.plan(&nothing_found());
    let start = first_action(&plan);
    let script = plan.script();
    let actions = run(&script, start, &[Reply::Completed, Reply::Completed, Reply::Rows(1), Reply::Completed]);
    assert_eq!(
        actions,
        vec![Action::Begin, Action::Perform(0), Action::Perform(1), Action::Perform(2), Action::Done]
    );
    assert!(matches!(script[2], Instr::Commit));
}

#[test]
fn a_missing_collection_is_fetched_and_written() {
    let rec = ContractRecord::AuctionCancelled(AuctionCancelled { header: header("0:auction") });
    let found = Found { nft: None, collection: Some("0:col".to_string()), price_token: None, meta: Json::Null };
    let plan = rec.plan(&found);
    assert_eq!(plan.header.event_collection.as_deref(), Some("0:col"));
    let start = first_action(&plan);
    let script = plan.script();
    let actions = run(
        &script,
        start,
        &[Reply::Completed, Reply::Completed, Reply::Exists(false), Reply::Completed, Reply::Completed, Reply::Rows(1), Reply::Completed],
    );
    assert_eq!(
        actions,
        vec![
            Action::Begin,
            Action::Perform(0),
            Action::AskExists(1),
            Action::FetchCollection(1),
            Action::UpsertCollection(1),
            Action::Perform(2),
            Action::Perform(3),
            Action::Done,
        ]
    );
    let known = run(&script, start, &[Reply::Completed, Reply::Completed, Reply::Exists(true)]);
    assert_eq!(known[3], Action::Perform(2));
}

#[test]
fn a_failure_ends_the_run() {
    let rec = ContractRecord::AuctionCancelled(AuctionCancelled { header: header("0:auction") });
    let plan = rec.plan(&nothing_found());
    let start = first_action(&plan);
    let script = plan.script();
    assert_eq!(next_action(&script, start, Reply::Failed), Action::Done);
    assert_eq!(next_action(&script, Action::Perform(0), Reply::Exists(true)), Action::Done);
}

#[test]
fn bids_placed_write_the_bid_the_auction_and_the_price() {
    let rec = ContractRecord::AuctionBidPlaced(AuctionBidPlaced {
        header: header("0:auction"),
        buyer: "0:buyer".to_string(),
        value: u128_to_bigdecimal(500),
        next_bid_value: u128_to_bigdecimal(550),
    });
    let queries = rec.queries();
    assert_eq!(queries.len(), 1);
    assert!(matches!(&queries[0], Query::NftAndCollectionByAuction(a) if a == "0:auction"));
    let found = Found { nft: Some("0:nft".to_string()), collection: Some("0:col".to_string()), price_token: None, meta: Json::Null };
    let plan = rec.plan(&found);
    assert_eq!(plan.before.len(), 3);
    match &plan.before[0] {
        Write::InsertBid(b) => {
            assert!(!b.declined);
            assert_eq!(b.created_at, 1_700_000_000);
            assert_eq!(b.next_bid_value.as_ref().unwrap().magnitude.digits, vec![5, 5, 0]);
        },
        _ => panic!("expected the bid"),
    }
    match &plan.before[1] {
        Write::UpsertAuction(a) => {
            assert_eq!(a.max_bid.as_ref().unwrap().magnitude.digits, vec![5, 0, 0]);
            assert_eq!(a.status, None);
        },
        _ => panic!("expected the auction"),
    }
    match &plan.before[2] {
        Write::UpsertPriceHistory(p) => {
            assert_eq!(p.source_type, NftPriceSource::AuctionBid);
            assert_eq!(p.collection.as_deref(), Some("0:col"));
        },
        _ => panic!("expected the price"),
    }
    assert_eq!(plan.header.event_nft.as_deref(), Some("0:nft"));
    assert!(plan.check.is_some());
}

#[test]
fn a_direct_sell_that_is_created_has_no_price() {
    let mut ds = DirectSellStateChanged {
        header: header("0:ds"),
        from_state: 0,
        to_state: 0,
        factory: "0:f".to_string(),
        creator: "0:c".to_string(),
        token: "0:t".to_string(),
        nft: "0:n".to_string(),
        time_tx: 1,
        start: 10,
        end: 20,
        price: u128_to_bigdecimal(9),
        wallet: "0:w".to_string(),
        status: 0,
    };
    ds.header.event_nft = Some("0:n".to_string());
    let plan = ContractRecord::DirectSellStateChanged(ds).plan(&nothing_found());
    assert_eq!(plan.before.len(), 1);
    match &plan.before[0] {
        Write::UpsertDirectSell(r) => {
            assert_eq!(r.state, DirectSellState::Create);
            assert_eq!(r.expired_at, 20);
            assert_eq!(r.created, 10);
        },
        _ => panic!("expected the direct sell"),
    }
}

#[test]
fn a_filled_direct_sell_adds_its_price() {
    let ds = DirectSellStateChanged {
        header: header("0:ds"),
        from_state: 2,
        to_state: 3,
        factory: "0:f".to_string(),
        creator: "0:c".to_string(),
        token: "0:t".to_string(),
        nft: "0:n".to_string(),
        time_tx: 1,
        start: 10,
        end: 20,
        price: u128_to_bigdecimal(9),
        wallet: "0:w".to_string(),
        status: 3,
    };
    let plan = ContractRecord::DirectSellStateChanged(ds).plan(&nothing_found());
    assert_eq!(plan.before.len(), 2);
    assert!(matches!(&plan.before[0], Write::UpsertPriceHistory(p) if p.source_type == NftPriceSource::DirectSell));
    assert!(matches!(&plan.before[1], Write::UpsertDirectSell(r) if r.state == DirectSellState::Filled));
}

#[test]
fn new_nfts_of_other_collections_are_skipped() {
    let mut h = header("0:othercollection");
    h.event_collection = Some("0:othercollection".to_string());
    let rec = ContractRecord::NftCreated(NftCreated {
        header: h,
        id: u128_to_bigdecimal(1),
        nft: "0:nft".to_string(),
        owner: "0:o".to_string(),
        manager: "0:m".to_string(),
        creator: "0:c".to_string(),
    });
    let plan = rec.plan(&nothing_found());
    assert!(plan.skip);
    assert_eq!(first_action(&plan), Action::Done);
}

#[test]
fn new_nfts_of_whitelisted_collections_update_five_tables() {
    assert!(is_whitelisted_collection(WHITELISTED));
    let mut h = header(WHITELISTED);
    h.event_collection = Some(WHITELISTED.to_string());
    let rec = ContractRecord::NftCreated(NftCreated {
        header: h,
        id: u128_to_bigdecimal(1),
        nft: "0:nft".to_string(),
        owner: "0:o".to_string(),
        manager: "0:m".to_string(),
        creator: "0:c".to_string(),
    });
    let plan = rec.plan(&nothing_found());
    assert!(!plan.skip);
    let check = plan.check.as_ref().unwrap();
    assert!(!check.always);
    assert_eq!(check.created, Some(1_700_000_000));
    assert_eq!(plan.after.len(), 5);
    let tables: Vec<Table> = plan
        .after
        .iter()
        .map(|w| match w {
            Write::UpdateCollectionByNft { table, nft, collection } => {
                assert_eq!(nft, "0:nft");
                assert_eq!(collection, WHITELISTED);
                *table
            },
            _ => panic!("expected an update"),
        })
        .collect();
    assert_eq!(
        tables,
        vec![Table::NftEvents, Table::NftDirectSell, Table::NftDirectBuy, Table::NftPriceHistory, Table::NftAttributes]
    );
    assert_eq!(Table::NftPriceHistory.name(), "nft_price_history");
}

#[test]
fn burned_nfts_write_attributes_only_where_the_metadata_has_them() {
    let mut h = header("0:col");
    h.event_collection = Some("0:col".to_string());
    let burned = |h: Header| NftBurned {
        header: h,
        id: u128_to_bigdecimal(1),
        nft: "0:nft".to_string(),
        owner: "0:o".to_string(),
        manager: "0:m".to_string(),
    };
    let with_attrs = Found {
        nft: None,
        collection: None,
        price_token: None,
        meta: Json::Object(vec![(
            "attributes".to_string(),
            Json::Array(vec![
                Json::Object(vec![("trait_type".to_string(), Json::Str("eyes".to_string()))]),
                Json::Number("7".to_string()),
            ]),
        )]),
    };
    let plan = ContractRecord::NftBurned(burned(h.clone_header())).plan(&with_attrs);
    assert_eq!(plan.before.len(), 2);
    match &plan.before[0] {
        Write::UpsertNftAttributes { items, .. } => {
            assert_eq!(items.len(), 2);
            assert_eq!(items[0].str_member("trait_type").map(|x| x.as_str()), Some("eyes"));
            assert!(matches!(&items[1], Json::Number(n) if n == "7"));
        },
        _ => panic!("expected the attributes"),
    }
    assert!(matches!(&plan.before[1], Write::UpsertNft(n) if n.burned));
    assert_eq!(plan.after.len(), 4);
    let plan = ContractRecord::NftBurned(burned(h)).plan(&nothing_found());
    assert_eq!(plan.before.len(), 1);
}

trait CloneHeader {
    fn clone_header(&self) -> Header;
}

impl CloneHeader for Header {
    fn clone_header(&self) -> Header {
        Header {
            address: self.address.clone(),
            created_lt: self.created_lt,
            created_at: self.created_at,
            message_hash: self.message_hash.clone(),
            event_nft: self.event_nft.clone(),
            event_collection: self.event_collection.clone(),
        }
    }
}

#[test]
fn owner_changes_recount_the_owners_of_the_collection() {
    let rec = ContractRecord::NftOwnerChanged(NftOwnerChanged {
        header: header("0:nft"),
        old_owner: "0:a".to_string(),
        new_owner: "0:b".to_string(),
    });
    let found = Found { nft: None, collection: Some("0:col".to_string()), price_token: None, meta: Json::Null };
    let plan = rec.plan(&found);
    assert_eq!(plan.before.len(), 2);
    match &plan.before[0] {
        Write::UpsertNft(n) => {
            assert_eq!(n.owner.as_deref(), Some("0:b"));
            assert_eq!(n.manager, None);
            assert_eq!(n.owner_update_lt, 77);
            assert_eq!(n.manager_update_lt, 0);
        },
        _ => panic!("expected the nft"),
    }
    assert!(matches!(&plan.before[1], Write::RefreshOwnersCount(c) if c == "0:col"));
    let plan = ContractRecord::NftOwnerChanged(NftOwnerChanged {
        header: header("0:nft"),
        old_owner: "0:a".to_string(),
        new_owner: "0:b".to_string(),
    })
    .plan(&nothing_found());
    assert_eq!(plan.before.len(), 1);
}

#[test]
fn a_collection_changing_owner_is_always_fetched() {
    let rec = ContractRecord::CollectionOwnershipTransferred(CollectionOwnershipTransferred {
        header: header("0:col"),
        old_owner: "0:a".to_string(),
        new_owner: "0:b".to_string(),
    });
    let plan = rec.plan(&nothing_found());
    let start = first_action(&plan);
    let script = plan.script();
    let actions = run(&script, start, &[Reply::Completed, Reply::Completed, Reply::Completed, Reply::Rows(1), Reply::Completed]);
    assert_eq!(
        actions,
        vec![
            Action::Begin,
            Action::FetchCollection(0),
            Action::UpsertCollection(0),
            Action::Perform(1),
            Action::Perform(2),
            Action::Done,
        ]
    );
}
