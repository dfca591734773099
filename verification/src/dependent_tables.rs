//! The plan of each record of the event consumer: what it asks the database
//! first, and, given the answers, the writes of its transaction.
use vstd::prelude::*;
use crate::context::{datetime_opt, datetime_seconds, timestamp_to_datetime, timestamp_to_datetime_opt};
use crate::contract_events::{
    AddCollectionRules, AuctionActive, AuctionBidDeclined, AuctionBidPlaced, AuctionCancelled,
    AuctionComplete, AuctionCreated, AuctionDeclined, AuctionDeployed,
    AuctionRootOwnershipTransferred, CollectionOwnershipTransferred, DirectBuyDeclined,
    DirectBuyDeployed, DirectBuyStateChanged, DirectSellDeclined, DirectSellDeployed,
    DirectSellStateChanged, FactoryDirectBuyOwnershipTransferred,
    FactoryDirectSellOwnershipTransferred, Header, HeaderView, MarketFeeChanged,
    MarketFeeDefaultChanged, NftBurned, NftCreated, NftManagerChanged, NftOwnerChanged,
    RemoveCollectionRules,
};
use crate::decimal::Decimal;
use crate::json::{items_copy, items_value, json_array_member, Json};
use crate::records::{direct_buy_state_of, direct_sell_state_of, DirectBuyState, DirectSellState, NftPriceSource};
use crate::tables::{
    AuctionRow, AuctionRowView, AuctionState, BidRow, BidRowView, CollectionCheck,
    CollectionCheckView, DirectBuyRow, DirectBuyRowView, DirectSellRow, DirectSellRowView,
    NftRow, NftRowView, PriceRow, PriceRowView, Table, TxPlan, TxPlanView, Write, WriteView, opt_decimal,
    writes_view,
};
use crate::text::str_eq;

verus! {

/// A record of the event consumer, of any of its events.
pub enum ContractRecord {
    AuctionDeployed(AuctionDeployed),
    AuctionDeclined(AuctionDeclined),
    AddCollectionRules(AddCollectionRules),
    RemoveCollectionRules(RemoveCollectionRules),
    AuctionRootOwnershipTransferred(AuctionRootOwnershipTransferred),
    MarketFeeDefaultChanged(MarketFeeDefaultChanged),
    MarketFeeChanged(MarketFeeChanged),
    AuctionCreated(AuctionCreated),
    AuctionActive(AuctionActive),
    AuctionBidPlaced(AuctionBidPlaced),
    AuctionBidDeclined(AuctionBidDeclined),
    AuctionComplete(AuctionComplete),
    AuctionCancelled(AuctionCancelled),
    DirectBuyDeployed(DirectBuyDeployed),
    DirectBuyDeclined(DirectBuyDeclined),
    FactoryDirectBuyOwnershipTransferred(FactoryDirectBuyOwnershipTransferred),
    DirectSellDeployed(DirectSellDeployed),
    DirectSellDeclined(DirectSellDeclined),
    FactoryDirectSellOwnershipTransferred(FactoryDirectSellOwnershipTransferred),
    DirectBuyStateChanged(DirectBuyStateChanged),
    DirectSellStateChanged(DirectSellStateChanged),
    NftOwnerChanged(NftOwnerChanged),
    NftManagerChanged(NftManagerChanged),
    CollectionOwnershipTransferred(CollectionOwnershipTransferred),
    NftCreated(NftCreated),
    NftBurned(NftBurned),
}

/// A question that a record asks before it writes.
pub enum Query {
    /// The collection of an NFT.
    CollectionByNft(String),
    /// The NFT and the collection of an auction.
    NftAndCollectionByAuction(String),
    /// The token in which an auction is priced.
    AuctionPriceToken(String),
    /// The metadata of an NFT, from the network.
    NftMetadata(String),
}

/// The view of a `Query`.
pub enum QueryView {
    CollectionByNft(Seq<char>),
    NftAndCollectionByAuction(Seq<char>),
    AuctionPriceToken(Seq<char>),
    NftMetadata(Seq<char>),
}

impl View for Query {
    type V = QueryView;

    open spec fn view(&self) -> QueryView {
        match self {
            Query::CollectionByNft(a) => QueryView::CollectionByNft(a@),
            Query::NftAndCollectionByAuction(a) => QueryView::NftAndCollectionByAuction(a@),
            Query::AuctionPriceToken(a) => QueryView::AuctionPriceToken(a@),
            Query::NftMetadata(a) => QueryView::NftMetadata(a@),
        }
    }
}

/// The answers to the questions of a record; what was not asked is `None`,
/// and the metadata `Null`.
pub struct Found {
    pub nft: Option<String>,
    pub collection: Option<String>,
    pub price_token: Option<String>,
    pub meta: Json,
}

/// The date-time of a timestamp, as seconds, or the epoch when it is out of
/// range.
pub open spec fn dt(ts: i64) -> i64 {
    datetime_seconds(ts as int) as i64
}

/// A header with the NFT and the collection of the event set.
pub open spec fn with_links(h: HeaderView, nft: Option<Seq<char>>, collection: Option<Seq<char>>) -> HeaderView {
    HeaderView {
        address: h.address,
        created_lt: h.created_lt,
        created_at: h.created_at,
        message_hash: h.message_hash,
        event_nft: nft,
        event_collection: collection,
    }
}

/// A plan that only saves the event, with its header as it is.
pub open spec fn save_only(h: HeaderView) -> TxPlanView {
    TxPlanView {
        skip: false,
        before: seq![],
        check: None,
        middle: seq![],
        header: h,
        after: seq![],
    }
}

/// The check of a collection, where there is one, that is made only when
/// the database does not hold it.
pub open spec fn check_if_missing(collection: Option<Seq<char>>, created: Option<i64>) -> Option<CollectionCheckView> {
    match collection {
        Some(c) => Some(CollectionCheckView { collection: c, always: false, created }),
        None => None,
    }
}

/// The collections whose new NFTs are indexed.
pub open spec fn whitelisted_collection(c: Seq<char>) -> bool {
    ||| c == "0:ec0ab798c85aa7256865221bacd4f3df220cf60277a2b79b3091b76c265d1cd7"@
    ||| c == "0:33a630f9c54fc4092f43ab978f3fd65964bb0d775553c16953aa1568eb63ab0f"@
    ||| c == "0:d62691c79f447f512d7ad235a291435a8a886debff1b72dfc3ff5e486798d96e"@
    ||| c == "0:7eb6488246ba08f88fe8779e9257ca9ebc7d2f82f6111ce6747abda368e3c7a8"@
}

/// Whether `c` is one of the collections whose new NFTs are indexed.
pub fn is_whitelisted_collection(c: &str) -> (r: bool)
    ensures
        r == whitelisted_collection(c@),
{
    str_eq(c, "0:ec0ab798c85aa7256865221bacd4f3df220cf60277a2b79b3091b76c265d1cd7")
        || str_eq(c, "0:33a630f9c54fc4092f43ab978f3fd65964bb0d775553c16953aa1568eb63ab0f")
        || str_eq(c, "0:d62691c79f447f512d7ad235a291435a8a886debff1b72dfc3ff5e486798d96e")
        || str_eq(c, "0:7eb6488246ba08f88fe8779e9257ca9ebc7d2f82f6111ce6747abda368e3c7a8")
}

/// The writes that set the collection of the rows about an NFT in `tables`.
pub open spec fn collection_updates(tables: Seq<Table>, nft: Seq<char>, collection: Seq<char>) -> Seq<WriteView> {
    tables.map_values(|t: Table| WriteView::UpdateCollectionByNft { table: t, nft, collection })
}

/// The tables whose collection a new NFT sets.
pub open spec fn created_tables() -> Seq<Table> {
    seq![Table::NftEvents, Table::NftDirectSell, Table::NftDirectBuy, Table::NftPriceHistory, Table::NftAttributes]
}

/// The tables whose collection a burned NFT sets.
pub open spec fn burned_tables() -> Seq<Table> {
    seq![Table::NftEvents, Table::NftDirectSell, Table::NftDirectBuy, Table::NftPriceHistory]
}

/// The questions that a record asks before it writes.
pub open spec fn queries_spec(r: ContractRecord) -> Seq<QueryView> {
    match r {
        ContractRecord::AuctionCreated(e) => seq![QueryView::CollectionByNft(e.auction_subject@)],
        ContractRecord::AuctionActive(e) => seq![QueryView::CollectionByNft(e.auction_subject@)],
        ContractRecord::AuctionBidPlaced(e) => seq![QueryView::NftAndCollectionByAuction(e.header.address@)],
        ContractRecord::AuctionComplete(e) => seq![
            QueryView::NftAndCollectionByAuction(e.header.address@),
            QueryView::AuctionPriceToken(e.header.address@),
        ],
        ContractRecord::AuctionCancelled(e) => seq![QueryView::NftAndCollectionByAuction(e.header.address@)],
        ContractRecord::DirectBuyDeployed(e) => seq![QueryView::CollectionByNft(e.nft@)],
        ContractRecord::DirectSellDeployed(e) => seq![QueryView::CollectionByNft(e.nft@)],
        ContractRecord::DirectBuyStateChanged(e) => seq![QueryView::CollectionByNft(e.nft@)],
        ContractRecord::DirectSellStateChanged(e) => seq![QueryView::CollectionByNft(e.nft@)],
        ContractRecord::NftOwnerChanged(e) => seq![QueryView::CollectionByNft(e.header.address@)],
        ContractRecord::NftManagerChanged(e) => seq![QueryView::CollectionByNft(e.header.address@)],
        ContractRecord::NftBurned(e) => seq![QueryView::NftMetadata(e.nft@)],
        _ => seq![],
    }
}

/// The auction row of an active auction.
pub open spec fn active_auction_row(e: AuctionActive) -> AuctionRowView {
    AuctionRowView {
        address: e.header.address@,
        nft: e.header.event_nft.deep_view(),
        wallet_for_bids: Some(e.wallet_for_bids@),
        price_token: Some(e.payment_token@),
        start_price: Some(e.price@),
        min_bid: Some(e.price@),
        max_bid: None,
        status: Some(AuctionState::Active),
        created_at: datetime_opt(e.start_time),
        finished_at: datetime_opt(e.finish_time),
        tx_lt: e.header.created_lt,
    }
}

/// The plan of an active auction.
pub open spec fn auction_active_plan(e: AuctionActive, f: Found) -> TxPlanView {
    let c = f.collection.deep_view();
    TxPlanView {
        skip: false,
        before: seq![
            WriteView::UpsertAuction(active_auction_row(e)),
            WriteView::UpdateNftByAuction { table: Table::NftEvents, auction: e.header.address@, nft: e.auction_subject@ },
        ],
        check: check_if_missing(c, None),
        middle: seq![
            WriteView::UpsertPriceHistory(PriceRowView {
                source: e.header.address@,
                source_type: NftPriceSource::AuctionBid,
                created_at: dt(e.header.created_at),
                price: e.price@,
                price_token: Some(e.payment_token@),
                nft: e.header.event_nft.deep_view(),
                collection: c,
            }),
        ],
        header: with_links(e.header@, e.header.event_nft.deep_view(), c),
        after: seq![],
    }
}

/// The plan of a bid that was placed.
pub open spec fn bid_placed_plan(e: AuctionBidPlaced, f: Found) -> TxPlanView {
    let n = f.nft.deep_view();
    let c = f.collection.deep_view();
    TxPlanView {
        skip: false,
        before: seq![
            WriteView::InsertBid(BidRowView {
                auction: e.header.address@,
                buyer: e.buyer@,
                price: e.value@,
                next_bid_value: Some(e.next_bid_value@),
                declined: false,
                created_at: dt(e.header.created_at),
                tx_lt: e.header.created_lt,
            }),
            WriteView::UpsertAuction(AuctionRowView {
                address: e.header.address@,
                nft: n,
                wallet_for_bids: None,
                price_token: None,
                start_price: None,
                min_bid: Some(e.next_bid_value@),
                max_bid: Some(e.value@),
                status: None,
                created_at: None,
                finished_at: None,
                tx_lt: e.header.created_lt,
            }),
            WriteView::UpsertPriceHistory(PriceRowView {
                source: e.header.address@,
                source_type: NftPriceSource::AuctionBid,
                created_at: dt(e.header.created_at),
                price: e.value@,
                price_token: None,
                nft: n,
                collection: c,
            }),
        ],
        check: check_if_missing(c, None),
        middle: seq![],
        header: with_links(e.header@, n, c),
        after: seq![],
    }
}

/// The plan of a bid that was declined.
pub open spec fn bid_declined_plan(e: AuctionBidDeclined) -> TxPlanView {
    TxPlanView {
        skip: false,
        before: seq![
            WriteView::InsertBid(BidRowView {
                auction: e.header.address@,
                buyer: e.buyer@,
                price: e.value@,
                next_bid_value: None,
                declined: true,
                created_at: dt(e.header.created_at),
                tx_lt: e.header.created_lt,
            }),
        ],
        check: None,
        middle: seq![],
        header: e.header@,
        after: seq![],
    }
}

/// The auction row of an auction that ended, with its status, its price
/// token and its highest bid where they are known.
pub open spec fn ended_auction_row(
    h: HeaderView,
    nft: Option<Seq<char>>,
    price_token: Option<Seq<char>>,
    max_bid: Option<(int, int)>,
    status: AuctionState,
) -> AuctionRowView {
    AuctionRowView {
        address: h.address,
        nft,
        wallet_for_bids: None,
        price_token,
        start_price: None,
        min_bid: None,
        max_bid,
        status: Some(status),
        created_at: None,
        finished_at: None,
        tx_lt: h.created_lt as i64,
    }
}

/// The plan of an auction that was completed.
pub open spec fn auction_complete_plan(e: AuctionComplete, f: Found) -> TxPlanView {
    let n = f.nft.deep_view();
    let c = f.collection.deep_view();
    TxPlanView {
        skip: false,
        before: seq![
            WriteView::UpsertAuction(
                ended_auction_row(e.header@, n, f.price_token.deep_view(), Some(e.value@), AuctionState::Completed),
            ),
        ],
        check: check_if_missing(c, None),
        middle: seq![],
        header: with_links(e.header@, n, c),
        after: seq![],
    }
}

/// The plan of an auction that was cancelled.
pub open spec fn auction_cancelled_plan(e: AuctionCancelled, f: Found) -> TxPlanView {
    let n = f.nft.deep_view();
    let c = f.collection.deep_view();
    TxPlanView {
        skip: false,
        before: seq![WriteView::UpsertAuction(ended_auction_row(e.header@, n, None, None, AuctionState::Cancelled))],
        check: check_if_missing(c, None),
        middle: seq![],
        header: with_links(e.header@, n, c),
        after: seq![],
    }
}

/// The plan of a direct buy whose state changed; `to_state` is a state of
/// the numbering.
pub open spec fn direct_buy_changed_plan(e: DirectBuyStateChanged, f: Found) -> TxPlanView {
    let c = f.collection.deep_view();
    let row = WriteView::UpsertDirectBuy(DirectBuyRowView {
        address: e.header.address@,
        nft: e.nft@,
        collection: c,
        price_token: e.spent_token@,
        price: e.price@,
        buyer: e.creator@,
        expired_at: dt(e.end_time_buy),
        state: direct_buy_state_of(e.to_state as u8),
        created: dt(e.start_time_buy),
        updated: dt(e.header.created_at),
        tx_lt: e.header.created_lt,
    });
    let price = WriteView::UpsertPriceHistory(PriceRowView {
        source: e.header.address@,
        source_type: NftPriceSource::DirectBuy,
        created_at: dt(e.header.created_at),
        price: e.price@,
        price_token: Some(e.spent_token@),
        nft: e.header.event_nft.deep_view(),
        collection: c,
    });
    TxPlanView {
        skip: false,
        before: if e.to_state == 0 { seq![row] } else { seq![price, row] },
        check: None,
        middle: seq![],
        header: with_links(e.header@, e.header.event_nft.deep_view(), c),
        after: seq![],
    }
}

/// The plan of a direct sell whose state changed; `to_state` is a state of
/// the numbering.
pub open spec fn direct_sell_changed_plan(e: DirectSellStateChanged, f: Found) -> TxPlanView {
    let c = f.collection.deep_view();
    let row = WriteView::UpsertDirectSell(DirectSellRowView {
        address: e.header.address@,
        nft: e.nft@,
        collection: c,
        price_token: e.token@,
        price: e.price@,
        seller: e.creator@,
        expired_at: dt(e.end),
        state: direct_sell_state_of(e.to_state as u8),
        created: dt(e.start),
        updated: dt(e.header.created_at),
        tx_lt: e.header.created_lt,
    });
    let price = WriteView::UpsertPriceHistory(PriceRowView {
        source: e.header.address@,
        source_type: NftPriceSource::DirectSell,
        created_at: dt(e.header.created_at),
        price: e.price@,
        price_token: Some(e.token@),
        nft: e.header.event_nft.deep_view(),
        collection: c,
    });
    TxPlanView {
        skip: false,
        before: if e.to_state == 0 { seq![row] } else { seq![price, row] },
        check: check_if_missing(c, None),
        middle: seq![],
        header: with_links(e.header@, e.header.event_nft.deep_view(), c),
        after: seq![],
    }
}

/// The writes after a change of the owner or the manager of an NFT: the NFT
/// row, and the recount of the owners of its collection where it has one.
pub open spec fn nft_change_writes(row: NftRowView, c: Option<Seq<char>>) -> Seq<WriteView> {
    match c {
        Some(x) => seq![WriteView::UpsertNft(row), WriteView::RefreshOwnersCount(x)],
        None => seq![WriteView::UpsertNft(row)],
    }
}

/// The plan of an NFT whose owner changed.
pub open spec fn owner_changed_plan(e: NftOwnerChanged, f: Found) -> TxPlanView {
    let c = f.collection.deep_view();
    let row = NftRowView {
        address: e.header.address@,
        collection: c,
        owner: Some(e.new_owner@),
        manager: None,
        burned: false,
        updated: dt(e.header.created_at),
        owner_update_lt: e.header.created_lt,
        manager_update_lt: 0,
    };
    TxPlanView {
        skip: false,
        before: nft_change_writes(row, c),
        check: None,
        middle: seq![],
        header: with_links(e.header@, e.header.event_nft.deep_view(), c),
        after: seq![],
    }
}

/// The plan of an NFT whose manager changed.
pub open spec fn manager_changed_plan(e: NftManagerChanged, f: Found) -> TxPlanView {
    let c = f.collection.deep_view();
    let row = NftRowView {
        address: e.header.address@,
        collection: c,
        owner: None,
        manager: Some(e.new_manager@),
        burned: false,
        updated: dt(e.header.created_at),
        owner_update_lt: 0,
        manager_update_lt: e.header.created_lt,
    };
    TxPlanView {
        skip: false,
        before: nft_change_writes(row, c),
        check: None,
        middle: seq![],
        header: with_links(e.header@, e.header.event_nft.deep_view(), c),
        after: seq![],
    }
}

/// The plan of a new NFT: skipped unless its collection is whitelisted.
pub open spec fn nft_created_plan(e: NftCreated) -> TxPlanView {
    let c = e.header.event_collection.deep_view();
    TxPlanView {
        skip: c is Some && !whitelisted_collection(c->0),
        before: seq![
            WriteView::UpsertNft(NftRowView {
                address: e.nft@,
                collection: c,
                owner: Some(e.owner@),
                manager: Some(e.manager@),
                burned: false,
                updated: dt(e.header.created_at),
                owner_update_lt: e.header.created_lt,
                manager_update_lt: e.header.created_lt,
            }),
        ],
        check: check_if_missing(c, datetime_opt(e.header.created_at)),
        middle: seq![],
        header: e.header@,
        after: collection_updates(created_tables(), e.nft@, e.header.address@),
    }
}

/// The plan of a burned NFT; its attributes are written where its metadata
/// has an array of them.
pub open spec fn nft_burned_plan(e: NftBurned, f: Found) -> TxPlanView {
    let c = e.header.event_collection.deep_view();
    let nft = WriteView::UpsertNft(NftRowView {
        address: e.nft@,
        collection: c,
        owner: Some(e.owner@),
        manager: Some(e.manager@),
        burned: true,
        updated: dt(e.header.created_at),
        owner_update_lt: e.header.created_lt,
        manager_update_lt: e.header.created_lt,
    });
    TxPlanView {
        skip: false,
        before: match json_array_member(f.meta, "attributes"@) {
            Some(items) => seq![WriteView::UpsertNftAttributes { nft: e.nft@, collection: c, items: items_value(items) }, nft],
            None => seq![nft],
        },
        check: check_if_missing(c, None),
        middle: seq![],
        header: e.header@,
        after: collection_updates(burned_tables(), e.nft@, e.header.address@),
    }
}

/// The plan of a record, given the answers to its questions.
pub open spec fn plan_spec(r: ContractRecord, f: Found) -> TxPlanView {
    match r {
        ContractRecord::AuctionDeployed(e) => save_only(e.header@),
        ContractRecord::AuctionDeclined(e) => save_only(e.header@),
        ContractRecord::AddCollectionRules(e) => TxPlanView {
            before: seq![
                WriteView::UpdateCollectionFee {
                    numerator: Some(e.numerator),
                    denominator: Some(e.denominator),
                    collection: e.collection@,
                },
            ],
            ..save_only(e.header@)
        },
        ContractRecord::RemoveCollectionRules(e) => TxPlanView {
            before: seq![WriteView::UpdateCollectionFee { numerator: None, denominator: None, collection: e.collection@ }],
            ..save_only(e.header@)
        },
        ContractRecord::AuctionRootOwnershipTransferred(e) => save_only(e.header@),
        ContractRecord::MarketFeeDefaultChanged(e) => save_only(e.header@),
        ContractRecord::MarketFeeChanged(e) => save_only(e.header@),
        ContractRecord::AuctionCreated(e) => TxPlanView {
            before: seq![
                WriteView::UpdateNftByAuction { table: Table::NftEvents, auction: e.header.address@, nft: e.auction_subject@ },
            ],
            ..save_only(with_links(e.header@, e.header.event_nft.deep_view(), f.collection.deep_view()))
        },
        ContractRecord::AuctionActive(e) => auction_active_plan(e, f),
        ContractRecord::AuctionBidPlaced(e) => bid_placed_plan(e, f),
        ContractRecord::AuctionBidDeclined(e) => bid_declined_plan(e),
        ContractRecord::AuctionComplete(e) => auction_complete_plan(e, f),
        ContractRecord::AuctionCancelled(e) => auction_cancelled_plan(e, f),
        ContractRecord::DirectBuyDeployed(e) => save_only(
            with_links(e.header@, e.header.event_nft.deep_view(), f.collection.deep_view()),
        ),
        ContractRecord::DirectBuyDeclined(e) => save_only(e.header@),
        ContractRecord::FactoryDirectBuyOwnershipTransferred(e) => save_only(e.header@),
        ContractRecord::DirectSellDeployed(e) => save_only(
            with_links(e.header@, e.header.event_nft.deep_view(), f.collection.deep_view()),
        ),
        ContractRecord::DirectSellDeclined(e) => save_only(e.header@),
        ContractRecord::FactoryDirectSellOwnershipTransferred(e) => save_only(e.header@),
        ContractRecord::DirectBuyStateChanged(e) => direct_buy_changed_plan(e, f),
        ContractRecord::DirectSellStateChanged(e) => direct_sell_changed_plan(e, f),
        ContractRecord::NftOwnerChanged(e) => owner_changed_plan(e, f),
        ContractRecord::NftManagerChanged(e) => manager_changed_plan(e, f),
        ContractRecord::CollectionOwnershipTransferred(e) => TxPlanView {
            check: Some(CollectionCheckView { collection: e.header.address@, always: true, created: None }),
            ..save_only(e.header@)
        },
        ContractRecord::NftCreated(e) => nft_created_plan(e),
        ContractRecord::NftBurned(e) => nft_burned_plan(e, f),
    }
}

/// The header of the event of a record.
pub open spec fn record_header(r: ContractRecord) -> HeaderView {
    match r {
        ContractRecord::AuctionDeployed(e) => e.header@,
        ContractRecord::AuctionDeclined(e) => e.header@,
        ContractRecord::AddCollectionRules(e) => e.header@,
        ContractRecord::RemoveCollectionRules(e) => e.header@,
        ContractRecord::AuctionRootOwnershipTransferred(e) => e.header@,
        ContractRecord::MarketFeeDefaultChanged(e) => e.header@,
        ContractRecord::MarketFeeChanged(e) => e.header@,
        ContractRecord::AuctionCreated(e) => e.header@,
        ContractRecord::AuctionActive(e) => e.header@,
        ContractRecord::AuctionBidPlaced(e) => e.header@,
        ContractRecord::AuctionBidDeclined(e) => e.header@,
        ContractRecord::AuctionComplete(e) => e.header@,
        ContractRecord::AuctionCancelled(e) => e.header@,
        ContractRecord::DirectBuyDeployed(e) => e.header@,
        ContractRecord::DirectBuyDeclined(e) => e.header@,
        ContractRecord::FactoryDirectBuyOwnershipTransferred(e) => e.header@,
        ContractRecord::DirectSellDeployed(e) => e.header@,
        ContractRecord::DirectSellDeclined(e) => e.header@,
        ContractRecord::FactoryDirectSellOwnershipTransferred(e) => e.header@,
        ContractRecord::DirectBuyStateChanged(e) => e.header@,
        ContractRecord::DirectSellStateChanged(e) => e.header@,
        ContractRecord::NftOwnerChanged(e) => e.header@,
        ContractRecord::NftManagerChanged(e) => e.header@,
        ContractRecord::CollectionOwnershipTransferred(e) => e.header@,
        ContractRecord::NftCreated(e) => e.header@,
        ContractRecord::NftBurned(e) => e.header@,
    }
}

/// The event that a plan saves is the event of the record: its account,
/// times and message hash are those the record was built with; only the
/// NFT and the collection that it concerns may be filled in from the
/// answers. A plan that is skipped is that of a new NFT outside the
/// whitelisted collections.
pub proof fn lemma_plan_saves_own_event(r: ContractRecord, f: Found)
    ensures
        plan_spec(r, f).header.address == record_header(r).address,
        plan_spec(r, f).header.created_lt == record_header(r).created_lt,
        plan_spec(r, f).header.created_at == record_header(r).created_at,
        plan_spec(r, f).header.message_hash == record_header(r).message_hash,
        plan_spec(r, f).skip ==> r is NftCreated,
{
}

/// Whether a record can be planned: the state that a direct offer moves to
/// is one of the numbering, whose conversion panics on any other number.
pub open spec fn plannable(r: ContractRecord) -> bool {
    match r {
        ContractRecord::DirectBuyStateChanged(e) => 0 <= e.to_state <= 5,
        ContractRecord::DirectSellStateChanged(e) => 0 <= e.to_state <= 5,
        _ => true,
    }
}

/// An exact copy of an optional text.
fn opt_clone(o: &Option<String>) -> (r: Option<String>)
    ensures
        r.deep_view() == o.deep_view(),
{
    match o {
        Some(x) => Some(x.clone()),
        None => None,
    }
}

/// A copy of a header with the NFT and the collection of the event set.
fn linked_header(h: &Header, nft: Option<String>, collection: Option<String>) -> (r: Header)
    ensures
        r@ == with_links(h@, nft.deep_view(), collection.deep_view()),
{
    Header {
        address: h.address.clone(),
        created_lt: h.created_lt,
        created_at: h.created_at,
        message_hash: h.message_hash.clone(),
        event_nft: nft,
        event_collection: collection,
    }
}

/// An exact copy of a header.
fn copy_header(h: &Header) -> (r: Header)
    ensures
        r@ == h@,
{
    linked_header(h, opt_clone(&h.event_nft), opt_clone(&h.event_collection))
}

/// No writes.
fn no_writes() -> (r: Vec<Write>)
    ensures
        writes_view(r@) == Seq::<WriteView>::empty(),
{
    let r: Vec<Write> = Vec::new();
    proof {
        assert(writes_view(r@) =~= Seq::<WriteView>::empty());
    }
    r
}

/// One write.
fn writes1(a: Write) -> (r: Vec<Write>)
    ensures
        writes_view(r@) == seq![a@],
{
    let mut r: Vec<Write> = Vec::new();
    r.push(a);
    proof {
        assert(writes_view(r@) =~= seq![a@]);
    }
    r
}

/// Two writes, in order.
fn writes2(a: Write, b: Write) -> (r: Vec<Write>)
    ensures
        writes_view(r@) == seq![a@, b@],
{
    let ghost (va, vb) = (a@, b@);
    let mut r: Vec<Write> = Vec::new();
    r.push(a);
    r.push(b);
    proof {
        assert(writes_view(r@) =~= seq![va, vb]);
    }
    r
}

/// Three writes, in order.
fn writes3(a: Write, b: Write, c: Write) -> (r: Vec<Write>)
    ensures
        writes_view(r@) == seq![a@, b@, c@],
{
    let ghost (va, vb, vc) = (a@, b@, c@);
    let mut r: Vec<Write> = Vec::new();
    r.push(a);
    r.push(b);
    r.push(c);
    proof {
        assert(writes_view(r@) =~= seq![va, vb, vc]);
    }
    r
}

/// A plan that only saves the event.
fn save_only_plan(h: Header) -> (r: TxPlan)
    ensures
        r@ == save_only(h@),
{
    TxPlan { skip: false, before: no_writes(), check: None, middle: no_writes(), header: h, after: no_writes() }
}

/// The check of a collection where there is one, made only when the
/// database does not hold it.
fn check_if_missing_exec(collection: &Option<String>, created: Option<i64>) -> (r: Option<CollectionCheck>)
    ensures
        r matches Some(c) ==> check_if_missing(collection.deep_view(), created) == Some(c@),
        r is None ==> check_if_missing(collection.deep_view(), created) is None,
{
    match collection {
        Some(c) => Some(CollectionCheck { collection: c.clone(), always: false, created }),
        None => None,
    }
}

/// The view of an optional check.
pub open spec fn check_view(c: Option<CollectionCheck>) -> Option<CollectionCheckView> {
    match c {
        Some(x) => Some(x@),
        None => None,
    }
}

/// The writes that set the collection of the rows about an NFT in `tables`.
fn collection_update_writes(tables: Vec<Table>, nft: &String, collection: &String) -> (r: Vec<Write>)
    ensures
        writes_view(r@) == collection_updates(tables@, nft@, collection@),
{
    let mut r: Vec<Write> = Vec::new();
    let ghost all = collection_updates(tables@, nft@, collection@);
    let mut i: usize = 0;
    while i < tables.len()
        invariant
            i <= tables.len(),
            all == collection_updates(tables@, nft@, collection@),
            writes_view(r@) == all.take(i as int),
        decreases tables.len() - i,
    {
        let ghost prev = r@;
        r.push(Write::UpdateCollectionByNft { table: tables[i], nft: nft.clone(), collection: collection.clone() });
        proof {
            assert(writes_view(r@) =~= writes_view(prev).push(all[i as int]));
            assert(all.take(i + 1) =~= all.take(i as int).push(all[i as int]));
        }
        i = i + 1;
    }
    proof {
        assert(all.take(i as int) =~= all);
    }
    r
}

/// The tables whose collection a new NFT sets.
fn created_tables_vec() -> (r: Vec<Table>)
    ensures
        r@ == created_tables(),
{
    let mut r: Vec<Table> = Vec::new();
    r.push(Table::NftEvents);
    r.push(Table::NftDirectSell);
    r.push(Table::NftDirectBuy);
    r.push(Table::NftPriceHistory);
    r.push(Table::NftAttributes);
    proof {
        assert(r@ =~= created_tables());
    }
    r
}

/// The tables whose collection a burned NFT sets.
fn burned_tables_vec() -> (r: Vec<Table>)
    ensures
        r@ == burned_tables(),
{
    let mut r: Vec<Table> = Vec::new();
    r.push(Table::NftEvents);
    r.push(Table::NftDirectSell);
    r.push(Table::NftDirectBuy);
    r.push(Table::NftPriceHistory);
    proof {
        assert(r@ =~= burned_tables());
    }
    r
}

/// A price of the price history.
fn price_row(
    source: &String,
    source_type: NftPriceSource,
    created_at: i64,
    price: &Decimal,
    price_token: Option<String>,
    nft: Option<String>,
    collection: Option<String>,
) -> (r: PriceRow)
    ensures
        r@ == (PriceRowView {
            source: source@,
            source_type,
            created_at: dt(created_at),
            price: price@,
            price_token: price_token.deep_view(),
            nft: nft.deep_view(),
            collection: collection.deep_view(),
        }),
{
    PriceRow {
        source: source.clone(),
        source_type,
        created_at: timestamp_to_datetime(created_at),
        price: price.copy(),
        price_token,
        nft,
        collection,
    }
}

/// The plan of an active auction.
fn plan_auction_active(e: &AuctionActive, f: &Found) -> (r: TxPlan)
    ensures
        r@ == auction_active_plan(*e, *f),
{
    let auction = AuctionRow {
        address: e.header.address.clone(),
        nft: opt_clone(&e.header.event_nft),
        wallet_for_bids: Some(e.wallet_for_bids.clone()),
        price_token: Some(e.payment_token.clone()),
        start_price: Some(e.price.copy()),
        min_bid: Some(e.price.copy()),
        max_bid: None,
        status: Some(AuctionState::Active),
        created_at: timestamp_to_datetime_opt(e.start_time),
        finished_at: timestamp_to_datetime_opt(e.finish_time),
        tx_lt: e.header.created_lt,
    };
    let by_auction = Write::UpdateNftByAuction {
        table: Table::NftEvents,
        auction: e.header.address.clone(),
        nft: e.auction_subject.clone(),
    };
    let price = price_row(
        &e.header.address,
        NftPriceSource::AuctionBid,
        e.header.created_at,
        &e.price,
        Some(e.payment_token.clone()),
        opt_clone(&e.header.event_nft),
        opt_clone(&f.collection),
    );
    let check = check_if_missing_exec(&f.collection, None);
    let r = TxPlan {
        skip: false,
        before: writes2(Write::UpsertAuction(auction), by_auction),
        check,
        middle: writes1(Write::UpsertPriceHistory(price)),
        header: linked_header(&e.header, opt_clone(&e.header.event_nft), opt_clone(&f.collection)),
        after: no_writes(),
    };
    proof {
        assert(r@.check == check_if_missing(f.collection.deep_view(), None));
    }
    r
}

/// The plan of a bid that was placed.
fn plan_bid_placed(e: &AuctionBidPlaced, f: &Found) -> (r: TxPlan)
    ensures
        r@ == bid_placed_plan(*e, *f),
{
    let bid = BidRow {
        auction: e.header.address.clone(),
        buyer: e.buyer.clone(),
        price: e.value.copy(),
        next_bid_value: Some(e.next_bid_value.copy()),
        declined: false,
        created_at: timestamp_to_datetime(e.header.created_at),
        tx_lt: e.header.created_lt,
    };
    let auction = AuctionRow {
        address: e.header.address.clone(),
        nft: opt_clone(&f.nft),
        wallet_for_bids: None,
        price_token: None,
        start_price: None,
        min_bid: Some(e.next_bid_value.copy()),
        max_bid: Some(e.value.copy()),
        status: None,
        created_at: None,
        finished_at: None,
        tx_lt: e.header.created_lt,
    };
    let price = price_row(
        &e.header.address,
        NftPriceSource::AuctionBid,
        e.header.created_at,
        &e.value,
        None,
        opt_clone(&f.nft),
        opt_clone(&f.collection),
    );
    let check = check_if_missing_exec(&f.collection, None);
    let r = TxPlan {
        skip: false,
        before: writes3(Write::InsertBid(bid), Write::UpsertAuction(auction), Write::UpsertPriceHistory(price)),
        check,
        middle: no_writes(),
        header: linked_header(&e.header, opt_clone(&f.nft), opt_clone(&f.collection)),
        after: no_writes(),
    };
    proof {
        assert(r@.check == check_if_missing(f.collection.deep_view(), None));
    }
    r
}

/// The plan of a bid that was declined.
fn plan_bid_declined(e: &AuctionBidDeclined) -> (r: TxPlan)
    ensures
        r@ == bid_declined_plan(*e),
{
    let bid = BidRow {
        auction: e.header.address.clone(),
        buyer: e.buyer.clone(),
        price: e.value.copy(),
        next_bid_value: None,
        declined: true,
        created_at: timestamp_to_datetime(e.header.created_at),
        tx_lt: e.header.created_lt,
    };
    TxPlan {
        skip: false,
        before: writes1(Write::InsertBid(bid)),
        check: None,
        middle: no_writes(),
        header: copy_header(&e.header),
        after: no_writes(),
    }
}

/// The auction row of an auction that ended.
fn ended_auction(
    h: &Header,
    nft: Option<String>,
    price_token: Option<String>,
    max_bid: Option<Decimal>,
    status: AuctionState,
) -> (r: AuctionRow)
    ensures
        r@ == ended_auction_row(h@, nft.deep_view(), price_token.deep_view(), opt_decimal(max_bid), status),
{
    AuctionRow {
        address: h.address.clone(),
        nft,
        wallet_for_bids: None,
        price_token,
        start_price: None,
        min_bid: None,
        max_bid,
        status: Some(status),
        created_at: None,
        finished_at: None,
        tx_lt: h.created_lt,
    }
}

/// The plan of an auction that was completed.
fn plan_auction_complete(e: &AuctionComplete, f: &Found) -> (r: TxPlan)
    ensures
        r@ == auction_complete_plan(*e, *f),
{
    let auction = ended_auction(
        &e.header,
        opt_clone(&f.nft),
        opt_clone(&f.price_token),
        Some(e.value.copy()),
        AuctionState::Completed,
    );
    let check = check_if_missing_exec(&f.collection, None);
    let r = TxPlan {
        skip: false,
        before: writes1(Write::UpsertAuction(auction)),
        check,
        middle: no_writes(),
        header: linked_header(&e.header, opt_clone(&f.nft), opt_clone(&f.collection)),
        after: no_writes(),
    };
    proof {
        assert(r@.check == check_if_missing(f.collection.deep_view(), None));
    }
    r
}

/// The plan of an auction that was cancelled.
fn plan_auction_cancelled(e: &AuctionCancelled, f: &Found) -> (r: TxPlan)
    ensures
        r@ == auction_cancelled_plan(*e, *f),
{
    let auction = ended_auction(&e.header, opt_clone(&f.nft), None, None, AuctionState::Cancelled);
    let check = check_if_missing_exec(&f.collection, None);
    let r = TxPlan {
        skip: false,
        before: writes1(Write::UpsertAuction(auction)),
        check,
        middle: no_writes(),
        header: linked_header(&e.header, opt_clone(&f.nft), opt_clone(&f.collection)),
        after: no_writes(),
    };
    proof {
        assert(r@.check == check_if_missing(f.collection.deep_view(), None));
    }
    r
}

/// The plan of a direct buy whose state changed.
fn plan_direct_buy_changed(e: &DirectBuyStateChanged, f: &Found) -> (r: TxPlan)
    requires
        0 <= e.to_state <= 5,
    ensures
        r@ == direct_buy_changed_plan(*e, *f),
{
    let row = DirectBuyRow {
        address: e.header.address.clone(),
        nft: e.nft.clone(),
        collection: opt_clone(&f.collection),
        price_token: e.spent_token.clone(),
        price: e.price.copy(),
        buyer: e.creator.clone(),
        expired_at: timestamp_to_datetime(e.end_time_buy),
        state: DirectBuyState::from_u8(e.to_state as u8),
        created: timestamp_to_datetime(e.start_time_buy),
        updated: timestamp_to_datetime(e.header.created_at),
        tx_lt: e.header.created_lt,
    };
    let before = if e.to_state == 0 {
        writes1(Write::UpsertDirectBuy(row))
    } else {
        let price = price_row(
            &e.header.address,
            NftPriceSource::DirectBuy,
            e.header.created_at,
            &e.price,
            Some(e.spent_token.clone()),
            opt_clone(&e.header.event_nft),
            opt_clone(&f.collection),
        );
        writes2(Write::UpsertPriceHistory(price), Write::UpsertDirectBuy(row))
    };
    TxPlan {
        skip: false,
        before,
        check: None,
        middle: no_writes(),
        header: linked_header(&e.header, opt_clone(&e.header.event_nft), opt_clone(&f.collection)),
        after: no_writes(),
    }
}

/// The plan of a direct sell whose state changed.
fn plan_direct_sell_changed(e: &DirectSellStateChanged, f: &Found) -> (r: TxPlan)
    requires
        0 <= e.to_state <= 5,
    ensures
        r@ == direct_sell_changed_plan(*e, *f),
{
    let row = DirectSellRow {
        address: e.header.address.clone(),
        nft: e.nft.clone(),
        collection: opt_clone(&f.collection),
        price_token: e.token.clone(),
        price: e.price.copy(),
        seller: e.creator.clone(),
        expired_at: timestamp_to_datetime(e.end),
        state: DirectSellState::from_u8(e.to_state as u8),
        created: timestamp_to_datetime(e.start),
        updated: timestamp_to_datetime(e.header.created_at),
        tx_lt: e.header.created_lt,
    };
    let before = if e.to_state == 0 {
        writes1(Write::UpsertDirectSell(row))
    } else {
        let price = price_row(
            &e.header.address,
            NftPriceSource::DirectSell,
            e.header.created_at,
            &e.price,
            Some(e.token.clone()),
            opt_clone(&e.header.event_nft),
            opt_clone(&f.collection),
        );
        writes2(Write::UpsertPriceHistory(price), Write::UpsertDirectSell(row))
    };
    let check = check_if_missing_exec(&f.collection, None);
    let r = TxPlan {
        skip: false,
        before,
        check,
        middle: no_writes(),
        header: linked_header(&e.header, opt_clone(&e.header.event_nft), opt_clone(&f.collection)),
        after: no_writes(),
    };
    proof {
        assert(r@.check == check_if_missing(f.collection.deep_view(), None));
    }
    r
}

/// The writes after a change of the owner or the manager of an NFT.
fn nft_change_writes_exec(row: NftRow, c: &Option<String>) -> (r: Vec<Write>)
    ensures
        writes_view(r@) == nft_change_writes(row@, c.deep_view()),
{
    match c {
        Some(x) => writes2(Write::UpsertNft(row), Write::RefreshOwnersCount(x.clone())),
        None => writes1(Write::UpsertNft(row)),
    }
}

/// The plan of an NFT whose owner changed.
fn plan_owner_changed(e: &NftOwnerChanged, f: &Found) -> (r: TxPlan)
    ensures
        r@ == owner_changed_plan(*e, *f),
{
    let row = NftRow {
        address: e.header.address.clone(),
        collection: opt_clone(&f.collection),
        owner: Some(e.new_owner.clone()),
        manager: None,
        burned: false,
        updated: timestamp_to_datetime(e.header.created_at),
        owner_update_lt: e.header.created_lt,
        manager_update_lt: 0,
    };
    TxPlan {
        skip: false,
        before: nft_change_writes_exec(row, &f.collection),
        check: None,
        middle: no_writes(),
        header: linked_header(&e.header, opt_clone(&e.header.event_nft), opt_clone(&f.collection)),
        after: no_writes(),
    }
}

/// The plan of an NFT whose manager changed.
fn plan_manager_changed(e: &NftManagerChanged, f: &Found) -> (r: TxPlan)
    ensures
        r@ == manager_changed_plan(*e, *f),
{
    let row = NftRow {
        address: e.header.address.clone(),
        collection: opt_clone(&f.collection),
        owner: None,
        manager: Some(e.new_manager.clone()),
        burned: false,
        updated: timestamp_to_datetime(e.header.created_at),
        owner_update_lt: 0,
        manager_update_lt: e.header.created_lt,
    };
    TxPlan {
        skip: false,
        before: nft_change_writes_exec(row, &f.collection),
        check: None,
        middle: no_writes(),
        header: linked_header(&e.header, opt_clone(&e.header.event_nft), opt_clone(&f.collection)),
        after: no_writes(),
    }
}

/// The plan of a new NFT.
fn plan_nft_created(e: &NftCreated) -> (r: TxPlan)
    ensures
        r@ == nft_created_plan(*e),
{
    let skip = match &e.header.event_collection {
        Some(c) => !is_whitelisted_collection(c.as_str()),
        None => false,
    };
    let nft = NftRow {
        address: e.nft.clone(),
        collection: opt_clone(&e.header.event_collection),
        owner: Some(e.owner.clone()),
        manager: Some(e.manager.clone()),
        burned: false,
        updated: timestamp_to_datetime(e.header.created_at),
        owner_update_lt: e.header.created_lt,
        manager_update_lt: e.header.created_lt,
    };
    let check = check_if_missing_exec(&e.header.event_collection, timestamp_to_datetime_opt(e.header.created_at));
    let r = TxPlan {
        skip,
        before: writes1(Write::UpsertNft(nft)),
        check,
        middle: no_writes(),
        header: copy_header(&e.header),
        after: collection_update_writes(created_tables_vec(), &e.nft, &e.header.address),
    };
    proof {
        assert(r@.check == check_if_missing(e.header.event_collection.deep_view(), datetime_opt(e.header.created_at)));
    }
    r
}

/// The plan of a burned NFT.
fn plan_nft_burned(e: &NftBurned, f: &Found) -> (r: TxPlan)
    ensures
        r@ == nft_burned_plan(*e, *f),
{
    let nft = Write::UpsertNft(NftRow {
        address: e.nft.clone(),
        collection: opt_clone(&e.header.event_collection),
        owner: Some(e.owner.clone()),
        manager: Some(e.manager.clone()),
        burned: true,
        updated: timestamp_to_datetime(e.header.created_at),
        owner_update_lt: e.header.created_lt,
        manager_update_lt: e.header.created_lt,
    });
    let before = match f.meta.array_member("attributes") {
        Some(items) => writes2(
            Write::UpsertNftAttributes {
                nft: e.nft.clone(),
                collection: opt_clone(&e.header.event_collection),
                items: items_copy(items),
            },
            nft,
        ),
        None => writes1(nft),
    };
    let check = check_if_missing_exec(&e.header.event_collection, None);
    let r = TxPlan {
        skip: false,
        before,
        check,
        middle: no_writes(),
        header: copy_header(&e.header),
        after: collection_update_writes(burned_tables_vec(), &e.nft, &e.header.address),
    };
    proof {
        assert(r@.check == check_if_missing(e.header.event_collection.deep_view(), None));
    }
    r
}

impl ContractRecord {
    /// The questions that the record asks before it writes, in order.
    pub fn queries(&self) -> (r: Vec<Query>)
        ensures
            r@.map_values(|q: Query| q@) == queries_spec(*self),
    {
        let mut r: Vec<Query> = Vec::new();
        match self {
            ContractRecord::AuctionCreated(e) => r.push(Query::CollectionByNft(e.auction_subject.clone())),
            ContractRecord::AuctionActive(e) => r.push(Query::CollectionByNft(e.auction_subject.clone())),
            ContractRecord::AuctionBidPlaced(e) => r.push(Query::NftAndCollectionByAuction(e.header.address.clone())),
            ContractRecord::AuctionComplete(e) => {
                r.push(Query::NftAndCollectionByAuction(e.header.address.clone()));
                r.push(Query::AuctionPriceToken(e.header.address.clone()));
            },
            ContractRecord::AuctionCancelled(e) => r.push(Query::NftAndCollectionByAuction(e.header.address.clone())),
            ContractRecord::DirectBuyDeployed(e) => r.push(Query::CollectionByNft(e.nft.clone())),
            ContractRecord::DirectSellDeployed(e) => r.push(Query::CollectionByNft(e.nft.clone())),
            ContractRecord::DirectBuyStateChanged(e) => r.push(Query::CollectionByNft(e.nft.clone())),
            ContractRecord::DirectSellStateChanged(e) => r.push(Query::CollectionByNft(e.nft.clone())),
            ContractRecord::NftOwnerChanged(e) => r.push(Query::CollectionByNft(e.header.address.clone())),
            ContractRecord::NftManagerChanged(e) => r.push(Query::CollectionByNft(e.header.address.clone())),
            ContractRecord::NftBurned(e) => r.push(Query::NftMetadata(e.nft.clone())),
            _ => {},
        }
        proof {
            assert(r@.map_values(|q: Query| q@) =~= queries_spec(*self));
        }
        r
    }

    /// The plan of the record, given the answers to its questions.
    pub fn plan(&self, found: &Found) -> (r: TxPlan)
        requires
            plannable(*self),
        ensures
            r@ == plan_spec(*self, *found),
    {
        match self {
            ContractRecord::AuctionDeployed(e) => save_only_plan(copy_header(&e.header)),
            ContractRecord::AuctionDeclined(e) => save_only_plan(copy_header(&e.header)),
            ContractRecord::AddCollectionRules(e) => TxPlan {
                before: writes1(Write::UpdateCollectionFee {
                    numerator: Some(e.numerator),
                    denominator: Some(e.denominator),
                    collection: e.collection.clone(),
                }),
                ..save_only_plan(copy_header(&e.header))
            },
            ContractRecord::RemoveCollectionRules(e) => TxPlan {
                before: writes1(Write::UpdateCollectionFee {
                    numerator: None,
                    denominator: None,
                    collection: e.collection.clone(),
                }),
                ..save_only_plan(copy_header(&e.header))
            },
            ContractRecord::AuctionRootOwnershipTransferred(e) => save_only_plan(copy_header(&e.header)),
            ContractRecord::MarketFeeDefaultChanged(e) => save_only_plan(copy_header(&e.header)),
            ContractRecord::MarketFeeChanged(e) => save_only_plan(copy_header(&e.header)),
            ContractRecord::AuctionCreated(e) => TxPlan {
                before: writes1(Write::UpdateNftByAuction {
                    table: Table::NftEvents,
                    auction: e.header.address.clone(),
                    nft: e.auction_subject.clone(),
                }),
                ..save_only_plan(linked_header(&e.header, opt_clone(&e.header.event_nft), opt_clone(&found.collection)))
            },
            ContractRecord::AuctionActive(e) => plan_auction_active(e, found),
            ContractRecord::AuctionBidPlaced(e) => plan_bid_placed(e, found),
            ContractRecord::AuctionBidDeclined(e) => plan_bid_declined(e),
            ContractRecord::AuctionComplete(e) => plan_auction_complete(e, found),
            ContractRecord::AuctionCancelled(e) => plan_auction_cancelled(e, found),
            ContractRecord::DirectBuyDeployed(e) => save_only_plan(
                linked_header(&e.header, opt_clone(&e.header.event_nft), opt_clone(&found.collection)),
            ),
            ContractRecord::DirectBuyDeclined(e) => save_only_plan(copy_header(&e.header)),
            ContractRecord::FactoryDirectBuyOwnershipTransferred(e) => save_only_plan(copy_header(&e.header)),
            ContractRecord::DirectSellDeployed(e) => save_only_plan(
                linked_header(&e.header, opt_clone(&e.header.event_nft), opt_clone(&found.collection)),
            ),
            ContractRecord::DirectSellDeclined(e) => save_only_plan(copy_header(&e.header)),
            ContractRecord::FactoryDirectSellOwnershipTransferred(e) => save_only_plan(copy_header(&e.header)),
            ContractRecord::DirectBuyStateChanged(e) => plan_direct_buy_changed(e, found),
            ContractRecord::DirectSellStateChanged(e) => plan_direct_sell_changed(e, found),
            ContractRecord::NftOwnerChanged(e) => plan_owner_changed(e, found),
            ContractRecord::NftManagerChanged(e) => plan_manager_changed(e, found),
            ContractRecord::CollectionOwnershipTransferred(e) => TxPlan {
                check: Some(CollectionCheck { collection: e.header.address.clone(), always: true, created: None }),
                ..save_only_plan(copy_header(&e.header))
            },
            ContractRecord::NftCreated(e) => plan_nft_created(e),
            ContractRecord::NftBurned(e) => plan_nft_burned(e, found),
        }
    }
}

/// What a plan writes of an auction follows the event: only the events of
/// an auction (its activation, a bid, its completion, its cancellation)
/// write an auction row, and always the row of the auction that emitted the
/// event; the status written is `Active` exactly for an activation,
/// `Completed` exactly for a completion and `Cancelled` exactly for a
/// cancellation (a bid writes none). A completion writes the winning bid as
/// the highest bid, with the NFT and the token found for the auction; a
/// cancellation writes no bid.
pub proof fn lemma_auction_rows_follow_the_event(r: ContractRecord, f: Found)
    ensures
        forall|i: int| 0 <= i < plan_spec(r, f).before.len() ==> match #[trigger] plan_spec(r, f).before[i] {
            WriteView::UpsertAuction(a) => {
                &&& a.address == record_header(r).address
                &&& (r is AuctionActive || r is AuctionBidPlaced || r is AuctionComplete || r is AuctionCancelled)
                &&& (a.status == Some(AuctionState::Active) <==> r is AuctionActive)
                &&& (a.status == Some(AuctionState::Completed) <==> r is AuctionComplete)
                &&& (a.status == Some(AuctionState::Cancelled) <==> r is AuctionCancelled)
            },
            _ => true,
        },
        forall|i: int| 0 <= i < plan_spec(r, f).middle.len() ==> !(#[trigger] plan_spec(r, f).middle[i] is UpsertAuction),
        forall|i: int| 0 <= i < plan_spec(r, f).after.len() ==> !(#[trigger] plan_spec(r, f).after[i] is UpsertAuction),
        r matches ContractRecord::AuctionComplete(e) ==> plan_spec(r, f).before.len() == 1 && match plan_spec(r, f).before[0] {
            WriteView::UpsertAuction(a) => {
                &&& a.status == Some(AuctionState::Completed)
                &&& a.max_bid == Some(e.value@)
                &&& a.nft == f.nft.deep_view()
                &&& a.price_token == f.price_token.deep_view()
            },
            _ => false,
        },
        r matches ContractRecord::AuctionCancelled(e) ==> plan_spec(r, f).before.len() == 1 && match plan_spec(r, f).before[0] {
            WriteView::UpsertAuction(a) => {
                &&& a.status == Some(AuctionState::Cancelled)
                &&& a.max_bid is None
                &&& a.nft == f.nft.deep_view()
            },
            _ => false,
        },
{
}

/// What a plan writes to the price history follows the event: only a bid
/// placed (at the bid's value), an auction that becomes active (at its start
/// price and in its token, after the collection check) and a state change of
/// a direct buy or a direct sell past its creation (at the offer's price and
/// in its token) write a price row, always from the contract that emitted
/// the event and with the source that matches it.
pub proof fn lemma_price_rows_follow_the_event(r: ContractRecord, f: Found)
    ensures
        forall|i: int| 0 <= i < plan_spec(r, f).before.len() ==> match #[trigger] plan_spec(r, f).before[i] {
            WriteView::UpsertPriceHistory(p) => {
                &&& p.source == record_header(r).address
                &&& match r {
                    ContractRecord::AuctionBidPlaced(e) => p.source_type == NftPriceSource::AuctionBid
                        && p.price == e.value@,
                    ContractRecord::DirectBuyStateChanged(e) => p.source_type == NftPriceSource::DirectBuy
                        && p.price == e.price@ && p.price_token == Some(e.spent_token@) && e.to_state != 0,
                    ContractRecord::DirectSellStateChanged(e) => p.source_type == NftPriceSource::DirectSell
                        && p.price == e.price@ && p.price_token == Some(e.token@) && e.to_state != 0,
                    _ => false,
                }
            },
            _ => true,
        },
        forall|i: int| 0 <= i < plan_spec(r, f).middle.len() ==> match #[trigger] plan_spec(r, f).middle[i] {
            WriteView::UpsertPriceHistory(p) => match r {
                ContractRecord::AuctionActive(e) => p.source == e.header.address@ && p.source_type
                    == NftPriceSource::AuctionBid && p.price == e.price@ && p.price_token == Some(e.payment_token@),
                _ => false,
            },
            _ => true,
        },
        forall|i: int| 0 <= i < plan_spec(r, f).after.len() ==> !(#[trigger] plan_spec(r, f).after[i] is UpsertPriceHistory),
        r is AuctionBidPlaced ==> plan_spec(r, f).before[2] is UpsertPriceHistory,
        r matches ContractRecord::DirectBuyStateChanged(e) ==> (plan_spec(r, f).before[0] is UpsertPriceHistory
            <==> e.to_state != 0),
        r matches ContractRecord::DirectSellStateChanged(e) ==> (plan_spec(r, f).before[0] is UpsertPriceHistory
            <==> e.to_state != 0),
{
    let a = plan_spec(r, f).after;
    assert forall|i: int| 0 <= i < a.len() implies !(#[trigger] a[i] is UpsertPriceHistory) by {
        match r {
            ContractRecord::NftCreated(e) => {
                assert(a[i] == WriteView::UpdateCollectionByNft { table: created_tables()[i], nft: e.nft@, collection: e.header.address@ });
            },
            ContractRecord::NftBurned(e) => {
                assert(a[i] == WriteView::UpdateCollectionByNft { table: burned_tables()[i], nft: e.nft@, collection: e.header.address@ });
            },
            _ => {},
        }
    }
}

/// A change of owner writes the new owner of the NFT that emitted it and
/// leaves its manager as it is; a change of manager writes the new manager
/// and leaves the owner as it is.
pub proof fn lemma_nft_changes_write_their_party(r: ContractRecord, f: Found)
    ensures
        r matches ContractRecord::NftOwnerChanged(e) ==> match plan_spec(r, f).before[0] {
            WriteView::UpsertNft(n) => n.address == e.header.address@ && n.owner == Some(e.new_owner@)
                && n.manager is None,
            _ => false,
        },
        r matches ContractRecord::NftManagerChanged(e) ==> match plan_spec(r, f).before[0] {
            WriteView::UpsertNft(n) => n.address == e.header.address@ && n.manager == Some(e.new_manager@)
                && n.owner is None,
            _ => false,
        },
{
}

} // verus!
