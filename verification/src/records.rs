//! The records that decoding produces, which the indexer writes to its
//! database, and their views as plain mathematical values.
use vstd::prelude::*;
use crate::decimal::Decimal;

verus! {

/// The category under which an event is logged.
#[derive(Clone, Copy, PartialEq, Eq, Structural, Debug)]
pub enum EventCategory {
    Common,
    Collection,
    Auction,
    DirectBuy,
    DirectSell,
    Nft,
}

/// The type under which an event is logged.
#[derive(Clone, Copy, PartialEq, Eq, Structural, Debug)]
pub enum EventType {
    OwnershipTransferred,
    MarketFeeDefaultChanged,
    MarketFeeChanged,
    AddCollectionRules,
    RemoveCollectionRules,
    AuctionDeployed,
    AuctionDeclined,
    AuctionCreated,
    AuctionActive,
    AuctionBidPlaced,
    AuctionBidDeclined,
    AuctionComplete,
    AuctionCancelled,
    NftCreated,
    NftBurned,
    NftOwnerChanged,
    NftManagerChanged,
    DirectBuyStateChanged,
    DirectBuyDeployed,
    DirectBuyDeclined,
    DirectSellStateChanged,
    DirectSellDeployed,
    DirectSellDeclined,
}

/// Where a price in the price history comes from.
#[derive(Clone, Copy, PartialEq, Eq, Structural, Debug)]
pub enum NftPriceSource {
    AuctionBid,
    DirectBuy,
    DirectSell,
}

/// A raw event, as it is stored in the event log.
pub struct EventRecord {
    pub event_category: EventCategory,
    pub event_type: EventType,
    pub address: String,
    pub created_lt: i64,
    pub created_at: i64,
    pub message_hash: String,
    pub nft: Option<String>,
    pub collection: Option<String>,
}

/// The view of a `EventRecord`.
pub struct EventRecordView {
    pub event_category: EventCategory,
    pub event_type: EventType,
    pub address: Seq<char>,
    pub created_lt: i64,
    pub created_at: i64,
    pub message_hash: Seq<char>,
    pub nft: Option<Seq<char>>,
    pub collection: Option<Seq<char>>,
}

impl View for EventRecord {
    type V = EventRecordView;

    open spec fn view(&self) -> EventRecordView {
        EventRecordView {
            event_category: self.event_category,
            event_type: self.event_type,
            address: self.address@,
            created_lt: self.created_lt,
            created_at: self.created_at,
            message_hash: self.message_hash@,
            nft: self.nft.deep_view(),
            collection: self.collection.deep_view(),
        }
    }
}

/// An NFT that a collection minted.
pub struct NftCreatedRecord {
    pub id: Decimal,
    pub address: String,
    pub collection: String,
    pub owner: String,
    pub manager: String,
    pub updated: i64,
    pub owner_update_lt: u64,
    pub manager_update_lt: u64,
}

/// The view of a `NftCreatedRecord`.
pub struct NftCreatedRecordView {
    pub id: (int, int),
    pub address: Seq<char>,
    pub collection: Seq<char>,
    pub owner: Seq<char>,
    pub manager: Seq<char>,
    pub updated: i64,
    pub owner_update_lt: u64,
    pub manager_update_lt: u64,
}

impl View for NftCreatedRecord {
    type V = NftCreatedRecordView;

    open spec fn view(&self) -> NftCreatedRecordView {
        NftCreatedRecordView {
            id: self.id@,
            address: self.address@,
            collection: self.collection@,
            owner: self.owner@,
            manager: self.manager@,
            updated: self.updated,
            owner_update_lt: self.owner_update_lt,
            manager_update_lt: self.manager_update_lt,
        }
    }
}

/// An NFT that was burned.
pub struct NftBurnedRecord {
    pub address: String,
    pub owner: String,
    pub manager: String,
}

/// The view of a `NftBurnedRecord`.
pub struct NftBurnedRecordView {
    pub address: Seq<char>,
    pub owner: Seq<char>,
    pub manager: Seq<char>,
}

impl View for NftBurnedRecord {
    type V = NftBurnedRecordView;

    open spec fn view(&self) -> NftBurnedRecordView {
        NftBurnedRecordView {
            address: self.address@,
            owner: self.owner@,
            manager: self.manager@,
        }
    }
}

/// A new owner or manager of an NFT.
pub struct AddressChanged {
    pub id_address: String,
    pub new_address: String,
    pub logical_time: u64,
    pub timestamp: i64,
}

/// The view of a `AddressChanged`.
pub struct AddressChangedView {
    pub id_address: Seq<char>,
    pub new_address: Seq<char>,
    pub logical_time: u64,
    pub timestamp: i64,
}

impl View for AddressChanged {
    type V = AddressChangedView;

    open spec fn view(&self) -> AddressChangedView {
        AddressChangedView {
            id_address: self.id_address@,
            new_address: self.new_address@,
            logical_time: self.logical_time,
            timestamp: self.timestamp,
        }
    }
}

/// What the indexer keeps in memory about an auction.
#[derive(Clone)]
pub struct AuctionCachedInfo {
    pub nft: String,
    pub collection: String,
    pub nft_owner: String,
    pub price_token: Option<String>,
    pub start_time: Option<i64>,
}

/// The view of a `AuctionCachedInfo`.
pub struct AuctionCachedInfoView {
    pub nft: Seq<char>,
    pub collection: Seq<char>,
    pub nft_owner: Seq<char>,
    pub price_token: Option<Seq<char>>,
    pub start_time: Option<i64>,
}

impl View for AuctionCachedInfo {
    type V = AuctionCachedInfoView;

    open spec fn view(&self) -> AuctionCachedInfoView {
        AuctionCachedInfoView {
            nft: self.nft@,
            collection: self.collection@,
            nft_owner: self.nft_owner@,
            price_token: self.price_token.deep_view(),
            start_time: self.start_time,
        }
    }
}

/// An auction that became active.
pub struct AuctionActiveRecord {
    pub address: String,
    pub nft: String,
    pub wallet_for_bids: String,
    pub price_token: String,
    pub start_price: Decimal,
    pub min_bid: Decimal,
    pub created_at: i64,
    pub finished_at: i64,
    pub tx_lt: i64,
}

/// The view of a `AuctionActiveRecord`.
pub struct AuctionActiveRecordView {
    pub address: Seq<char>,
    pub nft: Seq<char>,
    pub wallet_for_bids: Seq<char>,
    pub price_token: Seq<char>,
    pub start_price: (int, int),
    pub min_bid: (int, int),
    pub created_at: i64,
    pub finished_at: i64,
    pub tx_lt: i64,
}

impl View for AuctionActiveRecord {
    type V = AuctionActiveRecordView;

    open spec fn view(&self) -> AuctionActiveRecordView {
        AuctionActiveRecordView {
            address: self.address@,
            nft: self.nft@,
            wallet_for_bids: self.wallet_for_bids@,
            price_token: self.price_token@,
            start_price: self.start_price@,
            min_bid: self.min_bid@,
            created_at: self.created_at,
            finished_at: self.finished_at,
            tx_lt: self.tx_lt,
        }
    }
}

/// A bid placed on an auction, or declined by it.
pub struct AuctionBid {
    pub address: String,
    pub collection: String,
    pub nft: String,
    pub nft_owner: String,
    pub price_token: String,
    pub bid_value: Decimal,
    pub next_value: Decimal,
    pub buyer: String,
    pub created_at: i64,
    pub tx_lt: i64,
    pub declined: bool,
}

/// The view of a `AuctionBid`.
pub struct AuctionBidView {
    pub address: Seq<char>,
    pub collection: Seq<char>,
    pub nft: Seq<char>,
    pub nft_owner: Seq<char>,
    pub price_token: Seq<char>,
    pub bid_value: (int, int),
    pub next_value: (int, int),
    pub buyer: Seq<char>,
    pub created_at: i64,
    pub tx_lt: i64,
    pub declined: bool,
}

impl View for AuctionBid {
    type V = AuctionBidView;

    open spec fn view(&self) -> AuctionBidView {
        AuctionBidView {
            address: self.address@,
            collection: self.collection@,
            nft: self.nft@,
            nft_owner: self.nft_owner@,
            price_token: self.price_token@,
            bid_value: self.bid_value@,
            next_value: self.next_value@,
            buyer: self.buyer@,
            created_at: self.created_at,
            tx_lt: self.tx_lt,
            declined: self.declined,
        }
    }
}

/// An auction that completed, with its highest bid.
pub struct AuctionCompleteRecord {
    pub address: String,
    pub max_bid: Decimal,
}

/// The view of a `AuctionCompleteRecord`.
pub struct AuctionCompleteRecordView {
    pub address: Seq<char>,
    pub max_bid: (int, int),
}

impl View for AuctionCompleteRecord {
    type V = AuctionCompleteRecordView;

    open spec fn view(&self) -> AuctionCompleteRecordView {
        AuctionCompleteRecordView {
            address: self.address@,
            max_bid: self.max_bid@,
        }
    }
}

/// A price at which an NFT was offered or sold.
pub struct NftPriceHistory {
    pub source: String,
    pub source_type: NftPriceSource,
    pub created_at: i64,
    pub price: Decimal,
    pub price_token: String,
    pub nft: String,
    pub collection: String,
}

/// The view of a `NftPriceHistory`.
pub struct NftPriceHistoryView {
    pub source: Seq<char>,
    pub source_type: NftPriceSource,
    pub created_at: i64,
    pub price: (int, int),
    pub price_token: Seq<char>,
    pub nft: Seq<char>,
    pub collection: Seq<char>,
}

impl View for NftPriceHistory {
    type V = NftPriceHistoryView;

    open spec fn view(&self) -> NftPriceHistoryView {
        NftPriceHistoryView {
            source: self.source@,
            source_type: self.source_type,
            created_at: self.created_at,
            price: self.price@,
            price_token: self.price_token@,
            nft: self.nft@,
            collection: self.collection@,
        }
    }
}

/// An auction that was cancelled.
pub struct AuctionCancelledRecord {
    pub address: String,
}

/// The view of a `AuctionCancelledRecord`.
pub struct AuctionCancelledRecordView {
    pub address: Seq<char>,
}

impl View for AuctionCancelledRecord {
    type V = AuctionCancelledRecordView;

    open spec fn view(&self) -> AuctionCancelledRecordView {
        AuctionCancelledRecordView {
            address: self.address@,
        }
    }
}

/// The fee of a collection, or its removal.
pub struct CollectionFee {
    pub address: String,
    pub timestamp: i64,
    pub numerator: Option<i32>,
    pub denominator: Option<i32>,
}

/// The view of a `CollectionFee`.
pub struct CollectionFeeView {
    pub address: Seq<char>,
    pub timestamp: i64,
    pub numerator: Option<i32>,
    pub denominator: Option<i32>,
}

impl View for CollectionFee {
    type V = CollectionFeeView;

    open spec fn view(&self) -> CollectionFeeView {
        CollectionFeeView {
            address: self.address@,
            timestamp: self.timestamp,
            numerator: self.numerator,
            denominator: self.denominator,
        }
    }
}

/// The state of a direct-buy offer.
pub struct DirectBuyRecord {
    pub address: String,
    pub root: String,
    pub nft: String,
    pub collection: Option<String>,
    pub price_token: String,
    pub price: Decimal,
    pub buyer: String,
    pub finished_at: Option<i64>,
    pub expired_at: i64,
    pub state: DirectBuyState,
    pub created: i64,
    pub updated: i64,
    pub tx_lt: i64,
}

/// The view of a `DirectBuyRecord`.
pub struct DirectBuyRecordView {
    pub address: Seq<char>,
    pub root: Seq<char>,
    pub nft: Seq<char>,
    pub collection: Option<Seq<char>>,
    pub price_token: Seq<char>,
    pub price: (int, int),
    pub buyer: Seq<char>,
    pub finished_at: Option<i64>,
    pub expired_at: i64,
    pub state: DirectBuyState,
    pub created: i64,
    pub updated: i64,
    pub tx_lt: i64,
}

impl View for DirectBuyRecord {
    type V = DirectBuyRecordView;

    open spec fn view(&self) -> DirectBuyRecordView {
        DirectBuyRecordView {
            address: self.address@,
            root: self.root@,
            nft: self.nft@,
            collection: self.collection.deep_view(),
            price_token: self.price_token@,
            price: self.price@,
            buyer: self.buyer@,
            finished_at: self.finished_at,
            expired_at: self.expired_at,
            state: self.state,
            created: self.created,
            updated: self.updated,
            tx_lt: self.tx_lt,
        }
    }
}

/// The state of a direct-sell offer.
pub struct DirectSellRecord {
    pub address: String,
    pub root: String,
    pub nft: String,
    pub collection: Option<String>,
    pub price_token: String,
    pub price: Decimal,
    pub seller: String,
    pub finished_at: Option<i64>,
    pub expired_at: i64,
    pub state: DirectSellState,
    pub created: i64,
    pub updated: i64,
    pub tx_lt: i64,
}

/// The view of a `DirectSellRecord`.
pub struct DirectSellRecordView {
    pub address: Seq<char>,
    pub root: Seq<char>,
    pub nft: Seq<char>,
    pub collection: Option<Seq<char>>,
    pub price_token: Seq<char>,
    pub price: (int, int),
    pub seller: Seq<char>,
    pub finished_at: Option<i64>,
    pub expired_at: i64,
    pub state: DirectSellState,
    pub created: i64,
    pub updated: i64,
    pub tx_lt: i64,
}

impl View for DirectSellRecord {
    type V = DirectSellRecordView;

    open spec fn view(&self) -> DirectSellRecordView {
        DirectSellRecordView {
            address: self.address@,
            root: self.root@,
            nft: self.nft@,
            collection: self.collection.deep_view(),
            price_token: self.price_token@,
            price: self.price@,
            seller: self.seller@,
            finished_at: self.finished_at,
            expired_at: self.expired_at,
            state: self.state,
            created: self.created,
            updated: self.updated,
            tx_lt: self.tx_lt,
        }
    }
}

/// An offer that a trusted root deployed.
pub struct OfferDeployed {
    pub address: String,
    pub root: String,
    pub created: i64,
}

/// The view of a `OfferDeployed`.
pub struct OfferDeployedView {
    pub address: Seq<char>,
    pub root: Seq<char>,
    pub created: i64,
}

impl View for OfferDeployed {
    type V = OfferDeployedView;

    open spec fn view(&self) -> OfferDeployedView {
        OfferDeployedView {
            address: self.address@,
            root: self.root@,
            created: self.created,
        }
    }
}

/// A royalty set on a contract.
pub struct SetRoyalty {
    pub address: String,
    pub denominator: i32,
    pub numerator: i32,
}

/// The view of a `SetRoyalty`.
pub struct SetRoyaltyView {
    pub address: Seq<char>,
    pub denominator: i32,
    pub numerator: i32,
}

impl View for SetRoyalty {
    type V = SetRoyaltyView;

    open spec fn view(&self) -> SetRoyaltyView {
        SetRoyaltyView {
            address: self.address@,
            denominator: self.denominator,
            numerator: self.numerator,
        }
    }
}
/// The state of a direct-buy offer, as the contract numbers it (from 0).
#[derive(Clone, Copy, PartialEq, Eq, Structural, Debug)]
pub enum DirectBuyState {
    Create,
    AwaitTokens,
    Active,
    Filled,
    Cancelled,
    Expired,
}

/// The direct-buy state numbered `v`.
pub open spec fn direct_buy_state_of(v: u8) -> DirectBuyState {
    if v == 0 {
        DirectBuyState::Create
    } else if v == 1 {
        DirectBuyState::AwaitTokens
    } else if v == 2 {
        DirectBuyState::Active
    } else if v == 3 {
        DirectBuyState::Filled
    } else if v == 4 {
        DirectBuyState::Cancelled
    } else {
        DirectBuyState::Expired
    }
}

impl DirectBuyState {
    /// The state numbered `v`; the numbering has six states, and any other
    /// number makes the conversion panic, so it is left out.
    pub fn from_u8(v: u8) -> (r: DirectBuyState)
        requires
            v <= 5,
        ensures
            r == direct_buy_state_of(v),
    {
        match v {
            0 => DirectBuyState::Create,
            1 => DirectBuyState::AwaitTokens,
            2 => DirectBuyState::Active,
            3 => DirectBuyState::Filled,
            4 => DirectBuyState::Cancelled,
            _ => DirectBuyState::Expired,
        }
    }
}

/// The state of a direct-sell offer, as the contract numbers it (from 0).
#[derive(Clone, Copy, PartialEq, Eq, Structural, Debug)]
pub enum DirectSellState {
    Create,
    AwaitNft,
    Active,
    Filled,
    Cancelled,
    Expired,
}

/// The direct-sell state numbered `v`.
pub open spec fn direct_sell_state_of(v: u8) -> DirectSellState {
    if v == 0 {
        DirectSellState::Create
    } else if v == 1 {
        DirectSellState::AwaitNft
    } else if v == 2 {
        DirectSellState::Active
    } else if v == 3 {
        DirectSellState::Filled
    } else if v == 4 {
        DirectSellState::Cancelled
    } else {
        DirectSellState::Expired
    }
}

impl DirectSellState {
    /// The state numbered `v`; the numbering has six states, and any other
    /// number makes the conversion panic, so it is left out.
    pub fn from_u8(v: u8) -> (r: DirectSellState)
        requires
            v <= 5,
        ensures
            r == direct_sell_state_of(v),
    {
        match v {
            0 => DirectSellState::Create,
            1 => DirectSellState::AwaitNft,
            2 => DirectSellState::Active,
            3 => DirectSellState::Filled,
            4 => DirectSellState::Cancelled,
            _ => DirectSellState::Expired,
        }
    }
}

/// What decoding an event gives: a record for one of the tables, or
/// nothing to store.
pub enum Decoded {
    ShouldSkip,
    CreateNft(NftCreatedRecord),
    BurnNft(NftBurnedRecord),
    OwnerChangedNft(AddressChanged),
    ManagerChangedNft(AddressChanged),
    AuctionDeployed(String),
    AuctionActive(AuctionActiveRecord),
    AuctionBidPlaced(AuctionBid),
    AuctionBidDeclined(AuctionBid),
    AuctionComplete((AuctionCompleteRecord, NftPriceHistory)),
    AuctionCancelled(AuctionCancelledRecord),
    RawEventRecord(EventRecord),
    AuctionRulesChanged(CollectionFee),
    DirectBuyDeployed((DirectBuyRecord, OfferDeployed)),
    DirectBuyStateChanged((DirectBuyRecord, Option<NftPriceHistory>)),
    DirectSellDeployed((DirectSellRecord, OfferDeployed)),
    DirectSellStateChanged((DirectSellRecord, Option<NftPriceHistory>)),
    RoyaltySet(SetRoyalty),
}

/// The view of a `Decoded`.
pub enum DecodedView {
    ShouldSkip,
    CreateNft(NftCreatedRecordView),
    BurnNft(NftBurnedRecordView),
    OwnerChangedNft(AddressChangedView),
    ManagerChangedNft(AddressChangedView),
    AuctionDeployed(Seq<char>),
    AuctionActive(AuctionActiveRecordView),
    AuctionBidPlaced(AuctionBidView),
    AuctionBidDeclined(AuctionBidView),
    AuctionComplete((AuctionCompleteRecordView, NftPriceHistoryView)),
    AuctionCancelled(AuctionCancelledRecordView),
    RawEventRecord(EventRecordView),
    AuctionRulesChanged(CollectionFeeView),
    DirectBuyDeployed((DirectBuyRecordView, OfferDeployedView)),
    DirectBuyStateChanged((DirectBuyRecordView, Option<NftPriceHistoryView>)),
    DirectSellDeployed((DirectSellRecordView, OfferDeployedView)),
    DirectSellStateChanged((DirectSellRecordView, Option<NftPriceHistoryView>)),
    RoyaltySet(SetRoyaltyView),
}

/// The view of an optional price.
pub open spec fn price_view(p: Option<NftPriceHistory>) -> Option<NftPriceHistoryView> {
    match p {
        Some(h) => Some(h@),
        None => None,
    }
}

impl View for Decoded {
    type V = DecodedView;

    open spec fn view(&self) -> DecodedView {
        match self {
            Decoded::ShouldSkip => DecodedView::ShouldSkip,
            Decoded::CreateNft(r) => DecodedView::CreateNft(r@),
            Decoded::BurnNft(r) => DecodedView::BurnNft(r@),
            Decoded::OwnerChangedNft(r) => DecodedView::OwnerChangedNft(r@),
            Decoded::ManagerChangedNft(r) => DecodedView::ManagerChangedNft(r@),
            Decoded::AuctionDeployed(a) => DecodedView::AuctionDeployed(a@),
            Decoded::AuctionActive(r) => DecodedView::AuctionActive(r@),
            Decoded::AuctionBidPlaced(r) => DecodedView::AuctionBidPlaced(r@),
            Decoded::AuctionBidDeclined(r) => DecodedView::AuctionBidDeclined(r@),
            Decoded::AuctionComplete(r) => DecodedView::AuctionComplete((r.0@, r.1@)),
            Decoded::AuctionCancelled(r) => DecodedView::AuctionCancelled(r@),
            Decoded::RawEventRecord(r) => DecodedView::RawEventRecord(r@),
            Decoded::AuctionRulesChanged(r) => DecodedView::AuctionRulesChanged(r@),
            Decoded::DirectBuyDeployed(r) => DecodedView::DirectBuyDeployed((r.0@, r.1@)),
            Decoded::DirectBuyStateChanged(r) => DecodedView::DirectBuyStateChanged(
                (r.0@, price_view(r.1)),
            ),
            Decoded::DirectSellDeployed(r) => DecodedView::DirectSellDeployed((r.0@, r.1@)),
            Decoded::DirectSellStateChanged(r) => DecodedView::DirectSellStateChanged(
                (r.0@, price_view(r.1)),
            ),
            Decoded::RoyaltySet(r) => DecodedView::RoyaltySet(r@),
        }
    }
}

} // verus!
