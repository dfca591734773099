//! Decoding of events into records: `decode` gives the record of the
//! table that the event updates, `decode_event` the raw record of the event
//! log.
use vstd::prelude::*;
use crate::address::{to_address, MsgAddress};
use crate::context::{
    account_text, datetime_seconds, event_view, lt_column, make_event_record, timestamp_to_datetime,
    tx_datetime, u32_to_i32, u64_to_i64, DecodeContext, DecodeError, Found, KeyInfo, Lookup,
    LookupView,
};
use crate::decimal::{u128_to_bigdecimal, u256_to_bigdecimal, Decimal};
use crate::events::{
    AuctionCancelled, AuctionDeclined, DirectBuyDeclined, DirectSellDeclined, Event, MarketFeeChanged,
    MarketFeeDefaultChanged, OwnershipTransferred,
    AddCollectionRules, AuctionActive, AuctionComplete, AuctionCreated, AuctionDeployed, BidDeclined,
    BidPlaced, DirectBuyDeployed, DirectBuyStateChanged, DirectSellDeployed, DirectSellStateChanged,
    ManagerChanged, NftBurned, NftCreated, OwnerChanged, RemoveCollectionRules, RoyaltySet,
};
use crate::natural::bytes_be_value;
use crate::records::{
    direct_buy_state_of, direct_sell_state_of, AddressChanged, EventCategory, EventRecordView, EventType, AddressChangedView, AuctionActiveRecord,
    AuctionActiveRecordView, AuctionBid, AuctionBidView, AuctionCachedInfo, AuctionCachedInfoView,
    AuctionCancelledRecord, AuctionCancelledRecordView, AuctionCompleteRecord,
    AuctionCompleteRecordView, CollectionFee, CollectionFeeView, Decoded, DecodedView, DirectBuyRecord,
    DirectBuyRecordView, DirectBuyState, DirectSellRecord, DirectSellRecordView, DirectSellState,
    NftBurnedRecord, NftBurnedRecordView, NftCreatedRecord, NftCreatedRecordView, NftPriceHistory,
    NftPriceHistoryView, NftPriceSource, OfferDeployed, OfferDeployedView, SetRoyalty, SetRoyaltyView,
};
use crate::settings::{OfferRootType, TrustedAddresses};
use crate::text::{int_text, int_to_string};

verus! {

/// A write to the in-memory caches that decoding asks for.
pub enum CacheWrite {
    Nothing,
    /// The NFT at the first address belongs to the collection at the second.
    CollectionOfNft(String, String),
    /// What is kept of the auction at this address.
    AuctionInfo(String, AuctionCachedInfo),
}

/// The view of a `CacheWrite`.
pub enum CacheWriteView {
    Nothing,
    CollectionOfNft(Seq<char>, Seq<char>),
    AuctionInfo(Seq<char>, AuctionCachedInfoView),
}

impl View for CacheWrite {
    type V = CacheWriteView;

    open spec fn view(&self) -> CacheWriteView {
        match self {
            CacheWrite::Nothing => CacheWriteView::Nothing,
            CacheWrite::CollectionOfNft(a, b) => CacheWriteView::CollectionOfNft(a@, b@),
            CacheWrite::AuctionInfo(a, i) => CacheWriteView::AuctionInfo(a@, i@),
        }
    }
}

// ---------------------------------------------------------------------
// What was found of an auction, with the defaults that decoding uses.

/// The collection of the auction that was found, or the empty text.
pub open spec fn info_collection(found: &Found) -> Seq<char> {
    match found.auction {
        Some(i) => i.collection@,
        None => Seq::empty(),
    }
}

/// The NFT of the auction that was found, or the empty text.
pub open spec fn info_nft(found: &Found) -> Seq<char> {
    match found.auction {
        Some(i) => i.nft@,
        None => Seq::empty(),
    }
}

/// The owner of the NFT of the auction that was found, or the empty text.
pub open spec fn info_nft_owner(found: &Found) -> Seq<char> {
    match found.auction {
        Some(i) => i.nft_owner@,
        None => Seq::empty(),
    }
}

/// The payment token of the auction that was found, or the empty text.
pub open spec fn info_price_token(found: &Found) -> Seq<char> {
    match found.auction {
        Some(i) => match i.price_token {
            Some(t) => t@,
            None => Seq::empty(),
        },
        None => Seq::empty(),
    }
}

/// The start time of the auction that was found, or zero.
pub open spec fn info_start_time(found: &Found) -> int {
    match found.auction {
        Some(i) => match i.start_time {
            Some(t) => t as int,
            None => 0,
        },
        None => 0,
    }
}

/// The NFT of the auction that was found, if one was.
pub open spec fn info_nft_opt(found: &Found) -> Option<Seq<char>> {
    match found.auction {
        Some(i) => Some(i.nft@),
        None => None,
    }
}

/// The collection of the auction that was found, if one was.
pub open spec fn info_collection_opt(found: &Found) -> Option<Seq<char>> {
    match found.auction {
        Some(i) => Some(i.collection@),
        None => None,
    }
}

fn found_collection(found: &Found) -> (r: String)
    ensures
        r@ == info_collection(found),
{
    match &found.auction {
        Some(i) => i.collection.clone(),
        None => String::new(),
    }
}

fn found_nft(found: &Found) -> (r: String)
    ensures
        r@ == info_nft(found),
{
    match &found.auction {
        Some(i) => i.nft.clone(),
        None => String::new(),
    }
}

fn found_nft_owner(found: &Found) -> (r: String)
    ensures
        r@ == info_nft_owner(found),
{
    match &found.auction {
        Some(i) => i.nft_owner.clone(),
        None => String::new(),
    }
}

fn found_price_token(found: &Found) -> (r: String)
    ensures
        r@ == info_price_token(found),
{
    match &found.auction {
        Some(i) => match &i.price_token {
            Some(t) => t.clone(),
            None => String::new(),
        },
        None => String::new(),
    }
}

fn found_start_time(found: &Found) -> (r: i64)
    ensures
        r == info_start_time(found),
{
    match &found.auction {
        Some(i) => match i.start_time {
            Some(t) => t,
            None => 0,
        },
        None => 0,
    }
}

fn found_nft_opt(found: &Found) -> (r: Option<String>)
    ensures
        r.deep_view() == info_nft_opt(found),
{
    match &found.auction {
        Some(i) => Some(i.nft.clone()),
        None => None,
    }
}

fn found_collection_opt(found: &Found) -> (r: Option<String>)
    ensures
        r.deep_view() == info_collection_opt(found),
{
    match &found.auction {
        Some(i) => Some(i.collection.clone()),
        None => None,
    }
}

fn clone_opt(s: &Option<String>) -> (r: Option<String>)
    ensures
        r.deep_view() == s.deep_view(),
{
    match s {
        Some(t) => Some(t.clone()),
        None => None,
    }
}

fn unwrap_or_empty(s: &Option<String>) -> (r: String)
    ensures
        r@ == match s.deep_view() {
            Some(t) => t,
            None => Seq::empty(),
        },
{
    match s {
        Some(t) => t.clone(),
        None => String::new(),
    }
}

// ---------------------------------------------------------------------
// Events of several contracts.

/// `OwnershipTransferred`, `MarketFeeDefaultChanged` and `MarketFeeChanged`
/// update no table.
pub fn decode_skip() -> (r: Result<Decoded, DecodeError>)
    ensures
        r matches Ok(d) && d@ == DecodedView::ShouldSkip,
{
    Ok(Decoded::ShouldSkip)
}

/// The fee of the collection, from `AddCollectionRules`.
pub open spec fn add_collection_rules_view(ev: &AddCollectionRules, ctx: &DecodeContext) -> CollectionFeeView {
    CollectionFeeView {
        address: ev.collection.text(),
        timestamp: tx_datetime(ctx) as i64,
        numerator: Some(ev.collection_fee_info.numerator as i32),
        denominator: Some(ev.collection_fee_info.denominator as i32),
    }
}

/// `AddCollectionRules` sets the fee of the collection; a part of the fee
/// that does not fit a signed 32-bit column is an error.
pub fn decode_add_collection_rules(ev: &AddCollectionRules, ctx: &DecodeContext) -> (r: Result<Decoded, DecodeError>)
    ensures
        r is Err <==> (ev.collection_fee_info.numerator > i32::MAX || ev.collection_fee_info.denominator > i32::MAX),
        r matches Ok(d) ==> d@ == DecodedView::AuctionRulesChanged(add_collection_rules_view(ev, ctx)),
{
    let numerator = u32_to_i32(ev.collection_fee_info.numerator)?;
    let denominator = u32_to_i32(ev.collection_fee_info.denominator)?;
    Ok(Decoded::AuctionRulesChanged(CollectionFee {
        address: ev.collection.to_string(),
        timestamp: timestamp_to_datetime(ctx.tx_data.get_timestamp()),
        numerator: Some(numerator),
        denominator: Some(denominator),
    }))
}

/// The removal of the fee of the collection, from `RemoveCollectionRules`.
pub open spec fn remove_collection_rules_view(ev: &RemoveCollectionRules, ctx: &DecodeContext) -> CollectionFeeView {
    CollectionFeeView {
        address: ev.collection.text(),
        timestamp: tx_datetime(ctx) as i64,
        numerator: None,
        denominator: None,
    }
}

/// `RemoveCollectionRules` removes the fee of the collection.
pub fn decode_remove_collection_rules(ev: &RemoveCollectionRules, ctx: &DecodeContext) -> (r: Result<Decoded, DecodeError>)
    ensures
        r matches Ok(d) && d@ == DecodedView::AuctionRulesChanged(remove_collection_rules_view(ev, ctx)),
{
    Ok(Decoded::AuctionRulesChanged(CollectionFee {
        address: ev.collection.to_string(),
        timestamp: timestamp_to_datetime(ctx.tx_data.get_timestamp()),
        numerator: None,
        denominator: None,
    }))
}

// ---------------------------------------------------------------------
// Auction events.

/// What is kept of an auction when it is created: its NFT, the collection
/// that was found, the owner of the NFT, the payment token and the start.
pub open spec fn auction_created_info(ev: &AuctionCreated, found: &Found) -> AuctionCachedInfoView {
    AuctionCachedInfoView {
        nft: ev.value0.auction_subject.text(),
        collection: match found.collection.deep_view() {
            Some(c) => c,
            None => Seq::empty(),
        },
        nft_owner: ev.value0.subject_owner.text(),
        price_token: Some(ev.value0.payment_token.text()),
        start_time: Some(ev.value0.start_time as i64),
    }
}

/// `AuctionCreated` updates no table; it asks to keep what is known of the
/// auction, with the collection that was found for the auction's own
/// address.
pub fn decode_auction_created(ev: &AuctionCreated, ctx: &DecodeContext, found: &Found) -> (r: Result<(Decoded, CacheWrite), DecodeError>)
    ensures
        r matches Ok((d, w)) && d@ == DecodedView::ShouldSkip
            && w@ == CacheWriteView::AuctionInfo(account_text(&ctx.tx_data), auction_created_info(ev, found)),
{
    let address = ctx.tx_data.get_account();
    let info = AuctionCachedInfo {
        nft: ev.value0.auction_subject.to_string(),
        collection: unwrap_or_empty(&found.collection),
        nft_owner: ev.value0.subject_owner.to_string(),
        price_token: Some(ev.value0.payment_token.to_string()),
        start_time: Some(ev.value0.start_time as i64),
    };
    Ok((Decoded::ShouldSkip, CacheWrite::AuctionInfo(address, info)))
}

/// The active auction, from `AuctionActive`.
pub open spec fn auction_active_view(ev: &AuctionActive, ctx: &DecodeContext) -> AuctionActiveRecordView {
    AuctionActiveRecordView {
        address: account_text(&ctx.tx_data),
        nft: ev.value0.auction_subject.text(),
        wallet_for_bids: ev.value0.wallet_for_bids.text(),
        price_token: ev.value0.payment_token.text(),
        start_price: (ev.value0.price as int, 0int),
        min_bid: (ev.value0.price as int, 0int),
        created_at: datetime_seconds(ev.value0.start_time as int) as i64,
        finished_at: datetime_seconds(ev.value0.end_time as int) as i64,
        tx_lt: lt_column(ctx),
    }
}

/// `AuctionActive` records the auction with its start price as first
/// minimal bid; a start or end time beyond the signed 64-bit range is an
/// error.
pub fn decode_auction_active(ev: &AuctionActive, ctx: &DecodeContext) -> (r: Result<Decoded, DecodeError>)
    ensures
        r is Err <==> (ev.value0.start_time > i64::MAX || ev.value0.end_time > i64::MAX),
        r matches Ok(d) ==> d@ == DecodedView::AuctionActive(auction_active_view(ev, ctx)),
{
    let start = u64_to_i64(ev.value0.start_time)?;
    let end = u64_to_i64(ev.value0.end_time)?;
    Ok(Decoded::AuctionActive(AuctionActiveRecord {
        address: ctx.tx_data.get_account(),
        nft: ev.value0.auction_subject.to_string(),
        wallet_for_bids: ev.value0.wallet_for_bids.to_string(),
        price_token: ev.value0.payment_token.to_string(),
        start_price: u128_to_bigdecimal(ev.value0.price),
        min_bid: u128_to_bigdecimal(ev.value0.price),
        created_at: timestamp_to_datetime(start),
        finished_at: timestamp_to_datetime(end),
        tx_lt: ctx.tx_data.lt as i64,
    }))
}

/// A bid, from `BidPlaced` or `BidDeclined`, with what was found of the
/// auction.
pub open spec fn bid_view(
    buyer: &MsgAddress,
    value: u128,
    next_value: (int, int),
    declined: bool,
    ctx: &DecodeContext,
    found: &Found,
) -> AuctionBidView {
    AuctionBidView {
        address: account_text(&ctx.tx_data),
        collection: info_collection(found),
        nft: info_nft(found),
        nft_owner: info_nft_owner(found),
        price_token: info_price_token(found),
        bid_value: (value as int, 0int),
        next_value,
        buyer: buyer.text(),
        created_at: tx_datetime(ctx) as i64,
        tx_lt: ctx.tx_data.lt as i64,
        declined,
    }
}

fn make_bid(
    buyer: &MsgAddress,
    value: u128,
    next_value: Decimal,
    declined: bool,
    ctx: &DecodeContext,
    found: &Found,
) -> (r: Result<AuctionBid, DecodeError>)
    ensures
        r is Err <==> ctx.tx_data.lt > i64::MAX,
        r matches Ok(b) ==> b@ == bid_view(buyer, value, next_value@, declined, ctx, found),
{
    let tx_lt = u64_to_i64(ctx.tx_data.lt)?;
    Ok(AuctionBid {
        address: ctx.tx_data.get_account(),
        collection: found_collection(found),
        nft: found_nft(found),
        nft_owner: found_nft_owner(found),
        price_token: found_price_token(found),
        bid_value: u128_to_bigdecimal(value),
        next_value,
        buyer: buyer.to_string(),
        created_at: timestamp_to_datetime(ctx.tx_data.get_timestamp()),
        tx_lt,
        declined,
    })
}

/// `BidPlaced` records the bid and the next bid value, with what was found
/// of the auction; a logical time beyond the signed 64-bit range is an
/// error.
pub fn decode_bid_placed(ev: &BidPlaced, ctx: &DecodeContext, found: &Found) -> (r: Result<Decoded, DecodeError>)
    ensures
        r is Err <==> ctx.tx_data.lt > i64::MAX,
        r matches Ok(d) ==> d@ == DecodedView::AuctionBidPlaced(
            bid_view(&ev.buyer, ev.value, (ev.next_bid_value as int, 0int), false, ctx, found),
        ),
{
    let bid = make_bid(&ev.buyer, ev.value, u128_to_bigdecimal(ev.next_bid_value), false, ctx, found)?;
    Ok(Decoded::AuctionBidPlaced(bid))
}

/// `BidDeclined` records the declined bid, with a next value of zero.
pub fn decode_bid_declined(ev: &BidDeclined, ctx: &DecodeContext, found: &Found) -> (r: Result<Decoded, DecodeError>)
    ensures
        r is Err <==> ctx.tx_data.lt > i64::MAX,
        r matches Ok(d) ==> d@ == DecodedView::AuctionBidDeclined(
            bid_view(&ev.buyer, ev.value, (0int, 0int), true, ctx, found),
        ),
{
    let bid = make_bid(&ev.buyer, ev.value, Decimal::zero(), true, ctx, found)?;
    Ok(Decoded::AuctionBidDeclined(bid))
}

/// The completed auction and the sale price, from `AuctionComplete`.
pub open spec fn auction_complete_view(ev: &AuctionComplete, ctx: &DecodeContext, found: &Found) -> (
    AuctionCompleteRecordView,
    NftPriceHistoryView,
) {
    (
        AuctionCompleteRecordView { address: account_text(&ctx.tx_data), max_bid: (ev.value as int, 0int) },
        NftPriceHistoryView {
            source: account_text(&ctx.tx_data),
            source_type: NftPriceSource::AuctionBid,
            created_at: datetime_seconds(info_start_time(found)) as i64,
            price: (ev.value as int, 0int),
            price_token: info_price_token(found),
            nft: info_nft(found),
            collection: info_collection(found),
        },
    )
}

/// `AuctionComplete` records the highest bid and a sale at that price,
/// dated at the start of the auction that was found.
pub fn decode_auction_complete(ev: &AuctionComplete, ctx: &DecodeContext, found: &Found) -> (r: Result<Decoded, DecodeError>)
    ensures
        r matches Ok(d) && d@ == DecodedView::AuctionComplete(auction_complete_view(ev, ctx, found)),
{
    let address = ctx.tx_data.get_account();
    let auc = AuctionCompleteRecord { address: address.clone(), max_bid: u128_to_bigdecimal(ev.value) };
    let price_hist = NftPriceHistory {
        source: address,
        source_type: NftPriceSource::AuctionBid,
        created_at: timestamp_to_datetime(found_start_time(found)),
        price: u128_to_bigdecimal(ev.value),
        price_token: found_price_token(found),
        nft: found_nft(found),
        collection: found_collection(found),
    };
    Ok(Decoded::AuctionComplete((auc, price_hist)))
}

/// `AuctionCancelled` records the cancelled auction.
pub fn decode_auction_cancelled(ctx: &DecodeContext) -> (r: Result<Decoded, DecodeError>)
    ensures
        r matches Ok(d) && d@ == DecodedView::AuctionCancelled(
            AuctionCancelledRecordView { address: account_text(&ctx.tx_data) },
        ),
{
    Ok(Decoded::AuctionCancelled(AuctionCancelledRecord { address: ctx.tx_data.get_account() }))
}

/// `RoyaltySet` records the royalty; a part that does not fit a signed
/// 32-bit column is an error.
pub fn decode_royalty_set(ev: &RoyaltySet, ctx: &DecodeContext) -> (r: Result<Decoded, DecodeError>)
    ensures
        r is Err <==> (ev._royalty.denominator > i32::MAX || ev._royalty.numerator > i32::MAX),
        r matches Ok(d) ==> d@ == DecodedView::RoyaltySet(
            SetRoyaltyView {
                address: account_text(&ctx.tx_data),
                denominator: ev._royalty.denominator as i32,
                numerator: ev._royalty.numerator as i32,
            },
        ),
{
    let denominator = u32_to_i32(ev._royalty.denominator)?;
    let numerator = u32_to_i32(ev._royalty.numerator)?;
    Ok(Decoded::RoyaltySet(SetRoyalty { address: ctx.tx_data.get_account(), denominator, numerator }))
}

// ---------------------------------------------------------------------
// Collection events.

/// The minted NFT, from `NftCreated`.
pub open spec fn nft_created_view(ev: &NftCreated, ctx: &DecodeContext) -> NftCreatedRecordView {
    NftCreatedRecordView {
        id: (bytes_be_value(ev.id@) as int, 0int),
        address: ev.nft.text(),
        collection: account_text(&ctx.tx_data),
        owner: ev.owner.text(),
        manager: ev.manager.text(),
        updated: tx_datetime(ctx) as i64,
        owner_update_lt: ctx.tx_data.lt,
        manager_update_lt: ctx.tx_data.lt,
    }
}

/// `NftCreated` records the NFT as one of the emitting collection, and asks
/// to remember that.
pub fn decode_nft_created(ev: &NftCreated, ctx: &DecodeContext) -> (r: Result<(Decoded, CacheWrite), DecodeError>)
    ensures
        r matches Ok((d, w)) && d@ == DecodedView::CreateNft(nft_created_view(ev, ctx))
            && w@ == CacheWriteView::CollectionOfNft(ev.nft.text(), account_text(&ctx.tx_data)),
{
    let address = to_address(&ev.nft);
    let collection = ctx.tx_data.get_account();
    let write = CacheWrite::CollectionOfNft(address.clone(), collection.clone());
    let record = NftCreatedRecord {
        id: u256_to_bigdecimal(ev.id.as_slice()),
        address,
        collection,
        owner: to_address(&ev.owner),
        manager: to_address(&ev.manager),
        updated: timestamp_to_datetime(ctx.tx_data.get_timestamp()),
        owner_update_lt: ctx.tx_data.lt,
        manager_update_lt: ctx.tx_data.lt,
    };
    Ok((Decoded::CreateNft(record), write))
}

/// `NftBurned` records the burned NFT with its last owner and manager.
pub fn decode_nft_burned(ev: &NftBurned) -> (r: Result<Decoded, DecodeError>)
    ensures
        r matches Ok(d) && d@ == DecodedView::BurnNft(
            NftBurnedRecordView { address: ev.nft.text(), owner: ev.owner.text(), manager: ev.manager.text() },
        ),
{
    Ok(Decoded::BurnNft(NftBurnedRecord {
        address: to_address(&ev.nft),
        owner: to_address(&ev.owner),
        manager: to_address(&ev.manager),
    }))
}

// ---------------------------------------------------------------------
// Direct buy and direct sell.

/// A direct-buy offer moving to a state other than `Create` or
/// `AwaitTokens` is recorded, with a sale when it is `Filled`.
pub open spec fn direct_buy_changed_view(ev: &DirectBuyStateChanged, ctx: &DecodeContext, found: &Found) -> DecodedView {
    let state = direct_buy_state_of(ev.to);
    if state == DirectBuyState::Create || state == DirectBuyState::AwaitTokens {
        DecodedView::ShouldSkip
    } else {
        let filled = state == DirectBuyState::Filled;
        let nft = ev.value2.nft.text();
        DecodedView::DirectBuyStateChanged(
            (
                DirectBuyRecordView {
                    address: account_text(&ctx.tx_data),
                    root: ev.value2.factory.text(),
                    nft,
                    collection: found.collection.deep_view(),
                    price_token: ev.value2.spent_token.text(),
                    price: (ev.value2._price as int, 0int),
                    buyer: ev.value2.creator.text(),
                    finished_at: if filled { Some(tx_datetime(ctx) as i64) } else { None },
                    expired_at: datetime_seconds(ev.value2.end_time_buy as int) as i64,
                    state,
                    created: datetime_seconds(ev.value2.start_time_buy as int) as i64,
                    updated: tx_datetime(ctx) as i64,
                    tx_lt: lt_column(ctx),
                },
                if filled {
                    Some(
                        NftPriceHistoryView {
                            source: account_text(&ctx.tx_data),
                            source_type: NftPriceSource::DirectBuy,
                            created_at: tx_datetime(ctx) as i64,
                            price: (ev.value2._price as int, 0int),
                            price_token: ev.value2.spent_token.text(),
                            nft,
                            collection: match found.collection.deep_view() {
                                Some(c) => c,
                                None => Seq::empty(),
                            },
                        },
                    )
                } else {
                    None
                },
            ),
        )
    }
}

/// Whether a direct-buy change is one that is recorded.
pub open spec fn direct_buy_change_recorded(ev: &DirectBuyStateChanged) -> bool {
    let state = direct_buy_state_of(ev.to);
    !(state == DirectBuyState::Create || state == DirectBuyState::AwaitTokens)
}

/// `DirectBuyStateChanged`; a recorded change with an end or start time
/// beyond the signed 64-bit range is an error.
pub fn decode_direct_buy_state_changed(ev: &DirectBuyStateChanged, ctx: &DecodeContext, found: &Found) -> (r: Result<Decoded, DecodeError>)
    requires
        ev.to <= 5,
    ensures
        r is Err <==> (direct_buy_change_recorded(ev) && (ev.value2.end_time_buy > i64::MAX
            || ev.value2.start_time_buy > i64::MAX)),
        r matches Ok(d) ==> d@ == direct_buy_changed_view(ev, ctx, found),
{
    let state = DirectBuyState::from_u8(ev.to);
    if state == DirectBuyState::Create || state == DirectBuyState::AwaitTokens {
        return Ok(Decoded::ShouldSkip);
    }
    let filled = state == DirectBuyState::Filled;
    let finished_at = if filled {
        Some(timestamp_to_datetime(ctx.tx_data.get_timestamp()))
    } else {
        None
    };
    let nft = ev.value2.nft.to_string();
    let price_history = if filled {
        Some(NftPriceHistory {
            source: ctx.tx_data.get_account(),
            source_type: NftPriceSource::DirectBuy,
            created_at: timestamp_to_datetime(ctx.tx_data.get_timestamp()),
            price: u128_to_bigdecimal(ev.value2._price),
            price_token: ev.value2.spent_token.to_string(),
            nft: nft.clone(),
            collection: unwrap_or_empty(&found.collection),
        })
    } else {
        None
    };
    let expired = u64_to_i64(ev.value2.end_time_buy)?;
    let created = u64_to_i64(ev.value2.start_time_buy)?;
    let direct_buy = DirectBuyRecord {
        address: ctx.tx_data.get_account(),
        root: ev.value2.factory.to_string(),
        nft,
        collection: clone_opt(&found.collection),
        price_token: ev.value2.spent_token.to_string(),
        price: u128_to_bigdecimal(ev.value2._price),
        buyer: ev.value2.creator.to_string(),
        finished_at,
        expired_at: timestamp_to_datetime(expired),
        state,
        created: timestamp_to_datetime(created),
        updated: timestamp_to_datetime(ctx.tx_data.get_timestamp()),
        tx_lt: ctx.tx_data.lt as i64,
    };
    Ok(Decoded::DirectBuyStateChanged((direct_buy, price_history)))
}

/// A direct-sell offer moving to a state other than `Create` or `AwaitNft`
/// is recorded, with a sale when it is `Filled`.
pub open spec fn direct_sell_changed_view(ev: &DirectSellStateChanged, ctx: &DecodeContext) -> DecodedView {
    let state = direct_sell_state_of(ev.to);
    if state == DirectSellState::Create || state == DirectSellState::AwaitNft {
        DecodedView::ShouldSkip
    } else {
        let filled = state == DirectSellState::Filled;
        DecodedView::DirectSellStateChanged(
            (
                DirectSellRecordView {
                    address: account_text(&ctx.tx_data),
                    root: ev.value2.factory.text(),
                    nft: ev.value2.nft.text(),
                    collection: Some(ev.value2.collection.text()),
                    price_token: ev.value2.token.text(),
                    price: (ev.value2._price as int, 0int),
                    seller: ev.value2.creator.text(),
                    finished_at: if filled { Some(tx_datetime(ctx) as i64) } else { None },
                    expired_at: datetime_seconds(ev.value2.end as int) as i64,
                    state,
                    created: datetime_seconds(ev.value2.start as int) as i64,
                    updated: tx_datetime(ctx) as i64,
                    tx_lt: lt_column(ctx),
                },
                if filled {
                    Some(
                        NftPriceHistoryView {
                            source: account_text(&ctx.tx_data),
                            source_type: NftPriceSource::DirectSell,
                            created_at: tx_datetime(ctx) as i64,
                            price: (ev.value2._price as int, 0int),
                            price_token: ev.value2.token.text(),
                            nft: ev.value2.nft.text(),
                            collection: ev.value2.collection.text(),
                        },
                    )
                } else {
                    None
                },
            ),
        )
    }
}

/// Whether a direct-sell change is one that is recorded.
pub open spec fn direct_sell_change_recorded(ev: &DirectSellStateChanged) -> bool {
    let state = direct_sell_state_of(ev.to);
    !(state == DirectSellState::Create || state == DirectSellState::AwaitNft)
}

/// `DirectSellStateChanged`; a recorded change with an end or start time
/// beyond the signed 64-bit range is an error.
pub fn decode_direct_sell_state_changed(ev: &DirectSellStateChanged, ctx: &DecodeContext) -> (r: Result<Decoded, DecodeError>)
    requires
        ev.to <= 5,
    ensures
        r is Err <==> (direct_sell_change_recorded(ev) && (ev.value2.end > i64::MAX || ev.value2.start > i64::MAX)),
        r matches Ok(d) ==> d@ == direct_sell_changed_view(ev, ctx),
{
    let state = DirectSellState::from_u8(ev.to);
    if state == DirectSellState::Create || state == DirectSellState::AwaitNft {
        return Ok(Decoded::ShouldSkip);
    }
    let filled = state == DirectSellState::Filled;
    let finished_at = if filled {
        Some(timestamp_to_datetime(ctx.tx_data.get_timestamp()))
    } else {
        None
    };
    let price_history = if filled {
        Some(NftPriceHistory {
            source: ctx.tx_data.get_account(),
            source_type: NftPriceSource::DirectSell,
            created_at: timestamp_to_datetime(ctx.tx_data.get_timestamp()),
            price: u128_to_bigdecimal(ev.value2._price),
            price_token: ev.value2.token.to_string(),
            nft: ev.value2.nft.to_string(),
            collection: ev.value2.collection.to_string(),
        })
    } else {
        None
    };
    let expired = u64_to_i64(ev.value2.end)?;
    let created = u64_to_i64(ev.value2.start)?;
    let direct_sell = DirectSellRecord {
        address: ctx.tx_data.get_account(),
        root: ev.value2.factory.to_string(),
        nft: ev.value2.nft.to_string(),
        collection: Some(ev.value2.collection.to_string()),
        price_token: ev.value2.token.to_string(),
        price: u128_to_bigdecimal(ev.value2._price),
        seller: ev.value2.creator.to_string(),
        finished_at,
        expired_at: timestamp_to_datetime(expired),
        state,
        created: timestamp_to_datetime(created),
        updated: timestamp_to_datetime(ctx.tx_data.get_timestamp()),
        tx_lt: ctx.tx_data.lt as i64,
    };
    Ok(Decoded::DirectSellStateChanged((direct_sell, price_history)))
}

// ---------------------------------------------------------------------
// Factories.

/// `DirectBuyDeployed` records a new direct-buy offer of the emitting
/// factory, and the offer to whitelist.
pub fn decode_direct_buy_deployed(ev: &DirectBuyDeployed, ctx: &DecodeContext) -> (r: Result<Decoded, DecodeError>)
    ensures
        r matches Ok(d) && d@ == DecodedView::DirectBuyDeployed(
            (
                DirectBuyRecordView {
                    address: ev.direct_buy.text(),
                    root: account_text(&ctx.tx_data),
                    nft: ev.nft.text(),
                    collection: None,
                    price_token: ev.token.text(),
                    price: (ev.amount as int, 0int),
                    buyer: ev.sender.text(),
                    finished_at: None,
                    expired_at: 0,
                    state: DirectBuyState::Create,
                    created: 0,
                    updated: 0,
                    tx_lt: lt_column(ctx),
                },
                OfferDeployedView {
                    address: ev.direct_buy.text(),
                    root: account_text(&ctx.tx_data),
                    created: tx_datetime(ctx) as i64,
                },
            ),
        ),
{
    Ok(Decoded::DirectBuyDeployed((
        DirectBuyRecord {
            address: ev.direct_buy.to_string(),
            root: ctx.tx_data.get_account(),
            nft: ev.nft.to_string(),
            collection: None,
            price_token: ev.token.to_string(),
            price: u128_to_bigdecimal(ev.amount),
            buyer: ev.sender.to_string(),
            finished_at: None,
            expired_at: 0,
            state: DirectBuyState::Create,
            created: 0,
            updated: 0,
            tx_lt: ctx.tx_data.lt as i64,
        },
        OfferDeployed {
            address: ev.direct_buy.to_string(),
            root: ctx.tx_data.get_account(),
            created: timestamp_to_datetime(ctx.tx_data.get_timestamp()),
        },
    )))
}

/// `DirectSellDeployed` records a new direct-sell offer of the emitting
/// factory, and the offer to whitelist.
pub fn decode_direct_sell_deployed(ev: &DirectSellDeployed, ctx: &DecodeContext) -> (r: Result<Decoded, DecodeError>)
    ensures
        r matches Ok(d) && d@ == DecodedView::DirectSellDeployed(
            (
                DirectSellRecordView {
                    address: ev.direct_sell.text(),
                    root: account_text(&ctx.tx_data),
                    nft: ev.nft.text(),
                    collection: None,
                    price_token: ev.payment_token.text(),
                    price: (ev.price as int, 0int),
                    seller: ev.sender.text(),
                    finished_at: None,
                    expired_at: 0,
                    state: DirectSellState::Create,
                    created: 0,
                    updated: 0,
                    tx_lt: lt_column(ctx),
                },
                OfferDeployedView {
                    address: ev.direct_sell.text(),
                    root: account_text(&ctx.tx_data),
                    created: tx_datetime(ctx) as i64,
                },
            ),
        ),
{
    Ok(Decoded::DirectSellDeployed((
        DirectSellRecord {
            address: ev.direct_sell.to_string(),
            root: ctx.tx_data.get_account(),
            nft: ev.nft.to_string(),
            collection: None,
            price_token: ev.payment_token.to_string(),
            price: u128_to_bigdecimal(ev.price),
            seller: ev.sender.to_string(),
            finished_at: None,
            expired_at: 0,
            state: DirectSellState::Create,
            created: 0,
            updated: 0,
            tx_lt: ctx.tx_data.lt as i64,
        },
        OfferDeployed {
            address: ev.direct_sell.to_string(),
            root: ctx.tx_data.get_account(),
            created: timestamp_to_datetime(ctx.tx_data.get_timestamp()),
        },
    )))
}

/// `AuctionDeployed` asks to whitelist the offer when the emitting root is
/// a trusted auction root, and is skipped otherwise.
pub fn decode_auction_deployed(ev: &AuctionDeployed, ctx: &DecodeContext, trusted: &TrustedAddresses) -> (r: Result<Decoded, DecodeError>)
    ensures
        r matches Ok(d) && d@ == if trusted.of_kind(OfferRootType::AuctionRoot).contains(account_text(&ctx.tx_data)) {
            DecodedView::AuctionDeployed(ev.offer.text())
        } else {
            DecodedView::ShouldSkip
        },
{
    let emitter_address = ctx.tx_data.get_account();
    if trusted.is_trusted(OfferRootType::AuctionRoot, &emitter_address) {
        Ok(Decoded::AuctionDeployed(ev.offer.to_string()))
    } else {
        Ok(Decoded::ShouldSkip)
    }
}

// ---------------------------------------------------------------------
// NFT events.

/// `OwnerChanged` and `ManagerChanged`: the new address for the emitting NFT.
pub open spec fn address_changed_view(new_address: &MsgAddress, ctx: &DecodeContext) -> AddressChangedView {
    AddressChangedView {
        id_address: account_text(&ctx.tx_data),
        new_address: new_address.text(),
        logical_time: ctx.tx_data.lt,
        timestamp: tx_datetime(ctx) as i64,
    }
}

fn make_address_changed(new_address: &MsgAddress, ctx: &DecodeContext) -> (r: AddressChanged)
    ensures
        r@ == address_changed_view(new_address, ctx),
{
    AddressChanged {
        id_address: ctx.tx_data.get_account(),
        new_address: new_address.to_string(),
        logical_time: ctx.tx_data.lt,
        timestamp: timestamp_to_datetime(ctx.tx_data.get_timestamp()),
    }
}

/// `OwnerChanged` records the new owner of the emitting NFT.
pub fn decode_owner_changed(ev: &OwnerChanged, ctx: &DecodeContext) -> (r: Result<Decoded, DecodeError>)
    ensures
        r matches Ok(d) && d@ == DecodedView::OwnerChangedNft(address_changed_view(&ev.new_owner, ctx)),
{
    Ok(Decoded::OwnerChangedNft(make_address_changed(&ev.new_owner, ctx)))
}

/// `ManagerChanged` records the new manager of the emitting NFT.
pub fn decode_manager_changed(ev: &ManagerChanged, ctx: &DecodeContext) -> (r: Result<Decoded, DecodeError>)
    ensures
        r matches Ok(d) && d@ == DecodedView::ManagerChangedNft(address_changed_view(&ev.new_manager, ctx)),
{
    Ok(Decoded::ManagerChangedNft(make_address_changed(&ev.new_manager, ctx)))
}


// ---------------------------------------------------------------------
// The raw record of every event.

/// What the event log takes of an event: its raw record, with its category
/// and type and the NFT and collection that it names, if any.
pub open spec fn decode_event_view(ev: &Event, ctx: &DecodeContext, found: &Found) -> DecodedView {
    match ev {
        Event::OwnershipTransferred(_) => DecodedView::RawEventRecord(event_view(EventCategory::Common, EventType::OwnershipTransferred, ctx, None, None)),
        Event::MarketFeeDefaultChanged(_) => DecodedView::RawEventRecord(event_view(EventCategory::Collection, EventType::MarketFeeDefaultChanged, ctx, None, None)),
        Event::MarketFeeChanged(_) => DecodedView::RawEventRecord(event_view(EventCategory::Collection, EventType::MarketFeeChanged, ctx, None, None)),
        Event::AddCollectionRules(e) => DecodedView::RawEventRecord(event_view(EventCategory::Collection, EventType::AddCollectionRules, ctx, None, Some(e.collection.text()))),
        Event::RemoveCollectionRules(e) => DecodedView::RawEventRecord(event_view(EventCategory::Collection, EventType::RemoveCollectionRules, ctx, None, Some(e.collection.text()))),
        Event::AuctionCreated(e) => DecodedView::RawEventRecord(event_view(EventCategory::Auction, EventType::AuctionCreated, ctx, Some(e.value0.auction_subject.text()), found.collection.deep_view())),
        Event::AuctionActive(e) => DecodedView::RawEventRecord(event_view(EventCategory::Auction, EventType::AuctionActive, ctx, Some(e.value0.auction_subject.text()), found.collection.deep_view())),
        Event::BidPlaced(_) => DecodedView::RawEventRecord(event_view(EventCategory::Auction, EventType::AuctionBidPlaced, ctx, None, None)),
        Event::BidDeclined(_) => DecodedView::RawEventRecord(event_view(EventCategory::Auction, EventType::AuctionBidDeclined, ctx, info_nft_opt(found), info_collection_opt(found))),
        Event::AuctionComplete(_) => DecodedView::RawEventRecord(event_view(EventCategory::Auction, EventType::AuctionComplete, ctx, info_nft_opt(found), info_collection_opt(found))),
        Event::AuctionCancelled(_) => DecodedView::RawEventRecord(event_view(EventCategory::Auction, EventType::AuctionCancelled, ctx, info_nft_opt(found), info_collection_opt(found))),
        Event::NftCreated(e) => DecodedView::RawEventRecord(event_view(EventCategory::Collection, EventType::NftCreated, ctx, Some(e.nft.text()), Some(account_text(&ctx.tx_data)))),
        Event::NftBurned(e) => DecodedView::RawEventRecord(event_view(EventCategory::Collection, EventType::NftBurned, ctx, Some(e.nft.text()), Some(account_text(&ctx.tx_data)))),
        Event::DirectBuyStateChanged(e) => DecodedView::RawEventRecord(event_view(EventCategory::DirectBuy, EventType::DirectBuyStateChanged, ctx, Some(e.value2.nft.text()), found.collection.deep_view())),
        Event::DirectSellStateChanged(e) => DecodedView::RawEventRecord(event_view(EventCategory::DirectSell, EventType::DirectSellStateChanged, ctx, Some(e.value2.nft.text()), Some(e.value2.collection.text()))),
        Event::DirectBuyDeployed(e) => DecodedView::RawEventRecord(event_view(EventCategory::DirectBuy, EventType::DirectBuyDeclined, ctx, Some(e.nft.text()), None)),
        Event::DirectBuyDeclined(e) => DecodedView::RawEventRecord(event_view(EventCategory::DirectBuy, EventType::DirectBuyDeclined, ctx, Some(e.nft.text()), None)),
        Event::DirectSellDeployed(e) => DecodedView::RawEventRecord(event_view(EventCategory::DirectSell, EventType::DirectSellDeployed, ctx, Some(e.nft.text()), None)),
        Event::DirectSellDeclined(e) => DecodedView::RawEventRecord(event_view(EventCategory::DirectSell, EventType::DirectSellDeclined, ctx, Some(e.nft.text()), None)),
        Event::AuctionDeployed(e) => DecodedView::RawEventRecord(event_view(EventCategory::Auction, EventType::AuctionDeployed, ctx, Some(e.offer_info.nft.text()), Some(e.offer_info.collection.text()))),
        Event::AuctionDeclined(e) => DecodedView::RawEventRecord(event_view(EventCategory::Auction, EventType::AuctionDeclined, ctx, Some(e.nft.text()), None)),
        Event::OwnerChanged(_) => DecodedView::RawEventRecord(event_view(EventCategory::Nft, EventType::NftOwnerChanged, ctx, Some(account_text(&ctx.tx_data)), None)),
        Event::ManagerChanged(_) => DecodedView::RawEventRecord(event_view(EventCategory::Nft, EventType::NftManagerChanged, ctx, Some(account_text(&ctx.tx_data)), None)),
    }
}

/// What the raw record of an event needs looked up first: the collection
/// of the NFT of an auction or a direct buy, or what is kept of the
/// emitting auction.
pub open spec fn event_lookup_view(ev: &Event, ctx: &DecodeContext) -> LookupView {
    match ev {
        Event::AuctionCreated(e) => LookupView::CollectionOfNft(e.value0.auction_subject.text()),
        Event::AuctionActive(e) => LookupView::CollectionOfNft(e.value0.auction_subject.text()),
        Event::DirectBuyStateChanged(e) => LookupView::CollectionOfNft(e.value2.nft.text()),
        Event::BidDeclined(_) => LookupView::AuctionInfo(account_text(&ctx.tx_data)),
        Event::AuctionComplete(_) => LookupView::AuctionInfo(account_text(&ctx.tx_data)),
        Event::AuctionCancelled(_) => LookupView::AuctionInfo(account_text(&ctx.tx_data)),
        _ => LookupView::Nothing,
    }
}

/// What the raw record of an event needs looked up first.
pub fn event_lookup(ev: &Event, ctx: &DecodeContext) -> (r: Lookup)
    ensures
        r@ == event_lookup_view(ev, ctx),
{
    match ev {
        Event::AuctionCreated(e) => Lookup::CollectionOfNft(e.value0.auction_subject.to_string()),
        Event::AuctionActive(e) => Lookup::CollectionOfNft(e.value0.auction_subject.to_string()),
        Event::DirectBuyStateChanged(e) => Lookup::CollectionOfNft(e.value2.nft.to_string()),
        Event::BidDeclined(_) => Lookup::AuctionInfo(ctx.tx_data.get_account()),
        Event::AuctionComplete(_) => Lookup::AuctionInfo(ctx.tx_data.get_account()),
        Event::AuctionCancelled(_) => Lookup::AuctionInfo(ctx.tx_data.get_account()),
        _ => Lookup::Nothing,
    }
}

/// What an event adds to the event log: its raw record.
pub fn decode_event(ev: &Event, ctx: &DecodeContext, found: &Found) -> (r: Result<Decoded, DecodeError>)
    ensures
        r matches Ok(d) && d@ == decode_event_view(ev, ctx, found),
{
    let record = match ev {
        Event::OwnershipTransferred(_) => make_event_record(EventCategory::Common, EventType::OwnershipTransferred, ctx, None, None),
        Event::MarketFeeDefaultChanged(_) => make_event_record(EventCategory::Collection, EventType::MarketFeeDefaultChanged, ctx, None, None),
        Event::MarketFeeChanged(_) => make_event_record(EventCategory::Collection, EventType::MarketFeeChanged, ctx, None, None),
        Event::AddCollectionRules(e) => make_event_record(EventCategory::Collection, EventType::AddCollectionRules, ctx, None, Some(e.collection.to_string())),
        Event::RemoveCollectionRules(e) => make_event_record(EventCategory::Collection, EventType::RemoveCollectionRules, ctx, None, Some(e.collection.to_string())),
        Event::AuctionCreated(e) => make_event_record(EventCategory::Auction, EventType::AuctionCreated, ctx, Some(e.value0.auction_subject.to_string()), clone_opt(&found.collection)),
        Event::AuctionActive(e) => make_event_record(EventCategory::Auction, EventType::AuctionActive, ctx, Some(e.value0.auction_subject.to_string()), clone_opt(&found.collection)),
        Event::BidPlaced(_) => make_event_record(EventCategory::Auction, EventType::AuctionBidPlaced, ctx, None, None),
        Event::BidDeclined(_) => make_event_record(EventCategory::Auction, EventType::AuctionBidDeclined, ctx, found_nft_opt(found), found_collection_opt(found)),
        Event::AuctionComplete(_) => make_event_record(EventCategory::Auction, EventType::AuctionComplete, ctx, found_nft_opt(found), found_collection_opt(found)),
        Event::AuctionCancelled(_) => make_event_record(EventCategory::Auction, EventType::AuctionCancelled, ctx, found_nft_opt(found), found_collection_opt(found)),
        Event::NftCreated(e) => make_event_record(EventCategory::Collection, EventType::NftCreated, ctx, Some(e.nft.to_string()), Some(ctx.tx_data.get_account())),
        Event::NftBurned(e) => make_event_record(EventCategory::Collection, EventType::NftBurned, ctx, Some(e.nft.to_string()), Some(ctx.tx_data.get_account())),
        Event::DirectBuyStateChanged(e) => make_event_record(EventCategory::DirectBuy, EventType::DirectBuyStateChanged, ctx, Some(e.value2.nft.to_string()), clone_opt(&found.collection)),
        Event::DirectSellStateChanged(e) => make_event_record(EventCategory::DirectSell, EventType::DirectSellStateChanged, ctx, Some(e.value2.nft.to_string()), Some(e.value2.collection.to_string())),
        Event::DirectBuyDeployed(e) => make_event_record(EventCategory::DirectBuy, EventType::DirectBuyDeclined, ctx, Some(e.nft.to_string()), None),
        Event::DirectBuyDeclined(e) => make_event_record(EventCategory::DirectBuy, EventType::DirectBuyDeclined, ctx, Some(e.nft.to_string()), None),
        Event::DirectSellDeployed(e) => make_event_record(EventCategory::DirectSell, EventType::DirectSellDeployed, ctx, Some(e.nft.to_string()), None),
        Event::DirectSellDeclined(e) => make_event_record(EventCategory::DirectSell, EventType::DirectSellDeclined, ctx, Some(e.nft.to_string()), None),
        Event::AuctionDeployed(e) => make_event_record(EventCategory::Auction, EventType::AuctionDeployed, ctx, Some(e.offer_info.nft.to_string()), Some(e.offer_info.collection.to_string())),
        Event::AuctionDeclined(e) => make_event_record(EventCategory::Auction, EventType::AuctionDeclined, ctx, Some(e.nft.to_string()), None),
        Event::OwnerChanged(_) => make_event_record(EventCategory::Nft, EventType::NftOwnerChanged, ctx, Some(ctx.tx_data.get_account()), None),
        Event::ManagerChanged(_) => make_event_record(EventCategory::Nft, EventType::NftManagerChanged, ctx, Some(ctx.tx_data.get_account()), None),
    };
    Ok(Decoded::RawEventRecord(record))
}

/// The raw record of a `RoyaltySet` event: filed as a created auction, with
/// the denominator of the royalty, as text, for both the NFT and the
/// collection.
pub fn decode_event_royalty_set(ev: &RoyaltySet, ctx: &DecodeContext) -> (r: Result<Decoded, DecodeError>)
    ensures
        r matches Ok(d) && d@ == DecodedView::RawEventRecord(
            event_view(
                EventCategory::Auction,
                EventType::AuctionCreated,
                ctx,
                Some(int_text(ev._royalty.denominator as int)),
                Some(int_text(ev._royalty.denominator as int)),
            ),
        ),
{
    let d = int_to_string(ev._royalty.denominator as i64);
    let d2 = int_to_string(ev._royalty.denominator as i64);
    Ok(Decoded::RawEventRecord(make_event_record(EventCategory::Auction, EventType::AuctionCreated, ctx, Some(d), Some(d2))))
}

// ---------------------------------------------------------------------
// The record of every event.

/// Whether an event can be decoded: the state numbers of direct offers are
/// among the six that the contracts use.
pub open spec fn decodable(ev: &Event) -> bool {
    match ev {
        Event::DirectBuyStateChanged(e) => e.to <= 5,
        Event::DirectSellStateChanged(e) => e.to <= 5,
        _ => true,
    }
}

/// What the record of an event needs looked up first: the collection of
/// the emitting auction's address when an auction is created, what is kept
/// of the emitting auction for bids and completions, and the collection of
/// the NFT of a direct buy that is recorded.
pub open spec fn decode_lookup_view(ev: &Event, ctx: &DecodeContext) -> LookupView {
    match ev {
        Event::AuctionCreated(_) => LookupView::CollectionOfNft(account_text(&ctx.tx_data)),
        Event::BidPlaced(_) => LookupView::AuctionInfo(account_text(&ctx.tx_data)),
        Event::BidDeclined(_) => LookupView::AuctionInfo(account_text(&ctx.tx_data)),
        Event::AuctionComplete(_) => LookupView::AuctionInfo(account_text(&ctx.tx_data)),
        Event::DirectBuyStateChanged(e) => if direct_buy_change_recorded(e) {
            LookupView::CollectionOfNft(e.value2.nft.text())
        } else {
            LookupView::Nothing
        },
        _ => LookupView::Nothing,
    }
}

/// What the record of an event needs looked up first.
pub fn decode_lookup(ev: &Event, ctx: &DecodeContext) -> (r: Lookup)
    requires
        decodable(ev),
    ensures
        r@ == decode_lookup_view(ev, ctx),
{
    match ev {
        Event::AuctionCreated(_) => Lookup::CollectionOfNft(ctx.tx_data.get_account()),
        Event::BidPlaced(_) => Lookup::AuctionInfo(ctx.tx_data.get_account()),
        Event::BidDeclined(_) => Lookup::AuctionInfo(ctx.tx_data.get_account()),
        Event::AuctionComplete(_) => Lookup::AuctionInfo(ctx.tx_data.get_account()),
        Event::DirectBuyStateChanged(e) => {
            let state = DirectBuyState::from_u8(e.to);
            if state == DirectBuyState::Create || state == DirectBuyState::AwaitTokens {
                Lookup::Nothing
            } else {
                Lookup::CollectionOfNft(e.value2.nft.to_string())
            }
        },
        _ => Lookup::Nothing,
    }
}

/// The record of an event, as a view, or the error of its decoding, with
/// the cache write that it asks for.
pub open spec fn decode_spec(ev: &Event, ctx: &DecodeContext, found: &Found, trusted: &TrustedAddresses) -> Result<(DecodedView, CacheWriteView), DecodeError> {
    match ev {
        Event::OwnershipTransferred(_) => Ok((DecodedView::ShouldSkip, CacheWriteView::Nothing)),
        Event::MarketFeeDefaultChanged(_) => Ok((DecodedView::ShouldSkip, CacheWriteView::Nothing)),
        Event::MarketFeeChanged(_) => Ok((DecodedView::ShouldSkip, CacheWriteView::Nothing)),
        Event::AddCollectionRules(e) => if e.collection_fee_info.numerator > i32::MAX || e.collection_fee_info.denominator > i32::MAX {
            Err(DecodeError::IntegerOverflow)
        } else {
            Ok((DecodedView::AuctionRulesChanged(add_collection_rules_view(e, ctx)), CacheWriteView::Nothing))
        },
        Event::RemoveCollectionRules(e) => Ok((DecodedView::AuctionRulesChanged(remove_collection_rules_view(e, ctx)), CacheWriteView::Nothing)),
        Event::AuctionCreated(e) => Ok((DecodedView::ShouldSkip, CacheWriteView::AuctionInfo(account_text(&ctx.tx_data), auction_created_info(e, found)))),
        Event::AuctionActive(e) => if e.value0.start_time > i64::MAX || e.value0.end_time > i64::MAX {
            Err(DecodeError::IntegerOverflow)
        } else {
            Ok((DecodedView::AuctionActive(auction_active_view(e, ctx)), CacheWriteView::Nothing))
        },
        Event::BidPlaced(e) => if ctx.tx_data.lt > i64::MAX {
            Err(DecodeError::IntegerOverflow)
        } else {
            Ok((DecodedView::AuctionBidPlaced(bid_view(&e.buyer, e.value, (e.next_bid_value as int, 0int), false, ctx, found)), CacheWriteView::Nothing))
        },
        Event::BidDeclined(e) => if ctx.tx_data.lt > i64::MAX {
            Err(DecodeError::IntegerOverflow)
        } else {
            Ok((DecodedView::AuctionBidDeclined(bid_view(&e.buyer, e.value, (0int, 0int), true, ctx, found)), CacheWriteView::Nothing))
        },
        Event::AuctionComplete(e) => Ok((DecodedView::AuctionComplete(auction_complete_view(e, ctx, found)), CacheWriteView::Nothing)),
        Event::AuctionCancelled(_) => Ok((DecodedView::AuctionCancelled(AuctionCancelledRecordView { address: account_text(&ctx.tx_data) }), CacheWriteView::Nothing)),
        Event::NftCreated(e) => Ok((DecodedView::CreateNft(nft_created_view(e, ctx)), CacheWriteView::CollectionOfNft(e.nft.text(), account_text(&ctx.tx_data)))),
        Event::NftBurned(e) => Ok((DecodedView::BurnNft(NftBurnedRecordView { address: e.nft.text(), owner: e.owner.text(), manager: e.manager.text() }), CacheWriteView::Nothing)),
        Event::DirectBuyStateChanged(e) => if direct_buy_change_recorded(e) && (e.value2.end_time_buy > i64::MAX || e.value2.start_time_buy > i64::MAX) {
            Err(DecodeError::IntegerOverflow)
        } else {
            Ok((direct_buy_changed_view(e, ctx, found), CacheWriteView::Nothing))
        },
        Event::DirectSellStateChanged(e) => if direct_sell_change_recorded(e) && (e.value2.end > i64::MAX || e.value2.start > i64::MAX) {
            Err(DecodeError::IntegerOverflow)
        } else {
            Ok((direct_sell_changed_view(e, ctx), CacheWriteView::Nothing))
        },
        Event::DirectBuyDeployed(e) => Ok((DecodedView::DirectBuyDeployed((
            DirectBuyRecordView {
                address: e.direct_buy.text(),
                root: account_text(&ctx.tx_data),
                nft: e.nft.text(),
                collection: None,
                price_token: e.token.text(),
                price: (e.amount as int, 0int),
                buyer: e.sender.text(),
                finished_at: None,
                expired_at: 0,
                state: DirectBuyState::Create,
                created: 0,
                updated: 0,
                tx_lt: lt_column(ctx),
            },
            OfferDeployedView { address: e.direct_buy.text(), root: account_text(&ctx.tx_data), created: tx_datetime(ctx) as i64 },
        )), CacheWriteView::Nothing)),
        Event::DirectBuyDeclined(_) => Ok((DecodedView::ShouldSkip, CacheWriteView::Nothing)),
        Event::DirectSellDeployed(e) => Ok((DecodedView::DirectSellDeployed((
            DirectSellRecordView {
                address: e.direct_sell.text(),
                root: account_text(&ctx.tx_data),
                nft: e.nft.text(),
                collection: None,
                price_token: e.payment_token.text(),
                price: (e.price as int, 0int),
                seller: e.sender.text(),
                finished_at: None,
                expired_at: 0,
                state: DirectSellState::Create,
                created: 0,
                updated: 0,
                tx_lt: lt_column(ctx),
            },
            OfferDeployedView { address: e.direct_sell.text(), root: account_text(&ctx.tx_data), created: tx_datetime(ctx) as i64 },
        )), CacheWriteView::Nothing)),
        Event::DirectSellDeclined(_) => Ok((DecodedView::ShouldSkip, CacheWriteView::Nothing)),
        Event::AuctionDeployed(e) => Ok((if trusted.of_kind(OfferRootType::AuctionRoot).contains(account_text(&ctx.tx_data)) {
            DecodedView::AuctionDeployed(e.offer.text())
        } else {
            DecodedView::ShouldSkip
        }, CacheWriteView::Nothing)),
        Event::AuctionDeclined(_) => Ok((DecodedView::ShouldSkip, CacheWriteView::Nothing)),
        Event::OwnerChanged(e) => Ok((DecodedView::OwnerChangedNft(address_changed_view(&e.new_owner, ctx)), CacheWriteView::Nothing)),
        Event::ManagerChanged(e) => Ok((DecodedView::ManagerChangedNft(address_changed_view(&e.new_manager, ctx)), CacheWriteView::Nothing)),
    }
}

/// The view of a decoding result.
pub open spec fn decode_result_view(r: Result<(Decoded, CacheWrite), DecodeError>) -> Result<(DecodedView, CacheWriteView), DecodeError> {
    match r {
        Ok((d, w)) => Ok((d@, w@)),
        Err(e) => Err(e),
    }
}

fn no_write(r: Result<Decoded, DecodeError>) -> (s: Result<(Decoded, CacheWrite), DecodeError>)
    ensures
        decode_result_view(s) == match r {
            Ok(d) => Ok((d@, CacheWriteView::Nothing)),
            Err(e) => Err::<(DecodedView, CacheWriteView), DecodeError>(e),
        },
{
    match r {
        Ok(d) => Ok((d, CacheWrite::Nothing)),
        Err(e) => Err(e),
    }
}

/// The record of an event for the table that it updates,
/// given what was looked up for it, and the cache write that it asks for.
pub fn decode(ev: &Event, ctx: &DecodeContext, found: &Found, trusted: &TrustedAddresses) -> (r: Result<(Decoded, CacheWrite), DecodeError>)
    requires
        decodable(ev),
    ensures
        decode_result_view(r) == decode_spec(ev, ctx, found, trusted),
{
    match ev {
        Event::OwnershipTransferred(_) => no_write(decode_skip()),
        Event::MarketFeeDefaultChanged(_) => no_write(decode_skip()),
        Event::MarketFeeChanged(_) => no_write(decode_skip()),
        Event::AddCollectionRules(e) => no_write(decode_add_collection_rules(e, ctx)),
        Event::RemoveCollectionRules(e) => no_write(decode_remove_collection_rules(e, ctx)),
        Event::AuctionCreated(e) => decode_auction_created(e, ctx, found),
        Event::AuctionActive(e) => no_write(decode_auction_active(e, ctx)),
        Event::BidPlaced(e) => no_write(decode_bid_placed(e, ctx, found)),
        Event::BidDeclined(e) => no_write(decode_bid_declined(e, ctx, found)),
        Event::AuctionComplete(e) => no_write(decode_auction_complete(e, ctx, found)),
        Event::AuctionCancelled(_) => no_write(decode_auction_cancelled(ctx)),
        Event::NftCreated(e) => decode_nft_created(e, ctx),
        Event::NftBurned(e) => no_write(decode_nft_burned(e)),
        Event::DirectBuyStateChanged(e) => no_write(decode_direct_buy_state_changed(e, ctx, found)),
        Event::DirectSellStateChanged(e) => no_write(decode_direct_sell_state_changed(e, ctx)),
        Event::DirectBuyDeployed(e) => no_write(decode_direct_buy_deployed(e, ctx)),
        Event::DirectBuyDeclined(_) => no_write(decode_skip()),
        Event::DirectSellDeployed(e) => no_write(decode_direct_sell_deployed(e, ctx)),
        Event::DirectSellDeclined(_) => no_write(decode_skip()),
        Event::AuctionDeployed(e) => no_write(decode_auction_deployed(e, ctx, trusted)),
        Event::AuctionDeclined(_) => no_write(decode_skip()),
        Event::OwnerChanged(e) => no_write(decode_owner_changed(e, ctx)),
        Event::ManagerChanged(e) => no_write(decode_manager_changed(e, ctx)),
    }
}

/// A change of a direct buy is recorded from the state `Active` (2) on, and
/// only a filled one (state 3) is a sale: the record of the offer carries
/// the offer's price and, exactly when the offer is filled, its finishing
/// time and an entry of the price history for the sale, at the offer's
/// price, for its NFT and token, from the offer as a direct buy. Changes to
/// `Create` (0) and `AwaitTokens` (1) are not recorded.
pub proof fn lemma_direct_buy_sale_recorded(ev: &DirectBuyStateChanged, ctx: &DecodeContext, found: &Found)
    requires
        ev.to <= 5,
    ensures
        ev.to < 2 ==> direct_buy_changed_view(ev, ctx, found) is ShouldSkip,
        ev.to >= 2 ==> match direct_buy_changed_view(ev, ctx, found) {
            DecodedView::DirectBuyStateChanged((db, ph)) => {
                &&& db.address == account_text(&ctx.tx_data)
                &&& db.nft == ev.value2.nft.text()
                &&& db.buyer == ev.value2.creator.text()
                &&& db.price == (ev.value2._price as int, 0int)
                &&& db.price_token == ev.value2.spent_token.text()
                &&& (db.finished_at is Some <==> ev.to == 3)
                &&& (ph is Some <==> ev.to == 3)
                &&& (ph matches Some(h) ==> {
                    &&& h.source_type == NftPriceSource::DirectBuy
                    &&& h.source == account_text(&ctx.tx_data)
                    &&& h.price == (ev.value2._price as int, 0int)
                    &&& h.price_token == ev.value2.spent_token.text()
                    &&& h.nft == ev.value2.nft.text()
                    &&& db.finished_at == Some(h.created_at)
                })
            },
            _ => false,
        },
{
}

/// A change of a direct sell is recorded from the state `Active` (2) on, and
/// only a filled one (state 3) is a sale: the record of the offer carries
/// the offer's price and, exactly when the offer is filled, its finishing
/// time and an entry of the price history for the sale, at the offer's
/// price, for its NFT, token and collection, from the offer as a direct
/// sell. Changes to `Create` (0) and `AwaitNft` (1) are not recorded.
pub proof fn lemma_direct_sell_sale_recorded(ev: &DirectSellStateChanged, ctx: &DecodeContext)
    requires
        ev.to <= 5,
    ensures
        ev.to < 2 ==> direct_sell_changed_view(ev, ctx) is ShouldSkip,
        ev.to >= 2 ==> match direct_sell_changed_view(ev, ctx) {
            DecodedView::DirectSellStateChanged((ds, ph)) => {
                &&& ds.address == account_text(&ctx.tx_data)
                &&& ds.nft == ev.value2.nft.text()
                &&& ds.seller == ev.value2.creator.text()
                &&& ds.price == (ev.value2._price as int, 0int)
                &&& ds.price_token == ev.value2.token.text()
                &&& (ds.finished_at is Some <==> ev.to == 3)
                &&& (ph is Some <==> ev.to == 3)
                &&& (ph matches Some(h) ==> {
                    &&& h.source_type == NftPriceSource::DirectSell
                    &&& h.source == account_text(&ctx.tx_data)
                    &&& h.price == (ev.value2._price as int, 0int)
                    &&& h.price_token == ev.value2.token.text()
                    &&& h.nft == ev.value2.nft.text()
                    &&& h.collection == ev.value2.collection.text()
                    &&& ds.finished_at == Some(h.created_at)
                })
            },
            _ => false,
        },
{
}

/// What decoding keeps of an event follows the event: a change of owner or
/// of manager records the new owner or manager of the emitting NFT; a new
/// NFT is recorded with its owner and manager as a member of the emitting
/// collection, which is remembered; a burned NFT with its owner and
/// manager; a bid with its buyer and value, declined exactly for a declined
/// bid; a completed auction with the winning value as its highest bid and a
/// sale at that value by auction bid; a cancelled auction as the emitting
/// auction; an auction is whitelisted exactly when its root is a trusted
/// auction root; and a deployed direct buy or direct sell is recorded as
/// created, under its own address, from the emitting factory.
pub proof fn lemma_decoded_records_follow_the_events(
    ev: &Event,
    ctx: &DecodeContext,
    found: &Found,
    trusted: &TrustedAddresses,
)
    requires
        decodable(ev),
    ensures
        match (ev, decode_spec(ev, ctx, found, trusted)) {
            (Event::OwnerChanged(e), Ok((DecodedView::OwnerChangedNft(a), _))) => a.id_address == account_text(
                &ctx.tx_data,
            ) && a.new_address == e.new_owner.text(),
            (Event::OwnerChanged(_), _) => false,
            (Event::ManagerChanged(e), Ok((DecodedView::ManagerChangedNft(a), _))) => a.id_address == account_text(
                &ctx.tx_data,
            ) && a.new_address == e.new_manager.text(),
            (Event::ManagerChanged(_), _) => false,
            (Event::NftCreated(e), Ok((DecodedView::CreateNft(n), w))) => {
                &&& n.address == e.nft.text()
                &&& n.collection == account_text(&ctx.tx_data)
                &&& n.owner == e.owner.text()
                &&& n.manager == e.manager.text()
                &&& w == CacheWriteView::CollectionOfNft(e.nft.text(), account_text(&ctx.tx_data))
            },
            (Event::NftCreated(_), _) => false,
            (Event::NftBurned(e), Ok((DecodedView::BurnNft(b), _))) => b.address == e.nft.text() && b.owner
                == e.owner.text() && b.manager == e.manager.text(),
            (Event::NftBurned(_), _) => false,
            (Event::BidPlaced(e), Ok((DecodedView::AuctionBidPlaced(b), _))) => b.buyer == e.buyer.text() && b.bid_value
                == (e.value as int, 0int) && !b.declined && b.address == account_text(&ctx.tx_data),
            (Event::BidPlaced(_), r) => r is Err,
            (Event::BidDeclined(e), Ok((DecodedView::AuctionBidDeclined(b), _))) => b.buyer == e.buyer.text()
                && b.bid_value == (e.value as int, 0int) && b.declined && b.address == account_text(&ctx.tx_data),
            (Event::BidDeclined(_), r) => r is Err,
            (Event::AuctionComplete(e), Ok((DecodedView::AuctionComplete((a, p)), _))) => {
                &&& a.address == account_text(&ctx.tx_data)
                &&& a.max_bid == (e.value as int, 0int)
                &&& p.source == account_text(&ctx.tx_data)
                &&& p.source_type == NftPriceSource::AuctionBid
                &&& p.price == (e.value as int, 0int)
            },
            (Event::AuctionComplete(_), _) => false,
            (Event::AuctionCancelled(_), Ok((DecodedView::AuctionCancelled(a), _))) => a.address == account_text(
                &ctx.tx_data,
            ),
            (Event::AuctionCancelled(_), _) => false,
            (Event::AuctionDeployed(e), Ok((d, _))) => if trusted.of_kind(OfferRootType::AuctionRoot).contains(
                account_text(&ctx.tx_data),
            ) {
                d == DecodedView::AuctionDeployed(e.offer.text())
            } else {
                d is ShouldSkip
            },
            (Event::AuctionDeployed(_), _) => false,
            (Event::DirectBuyDeployed(e), Ok((DecodedView::DirectBuyDeployed((db, o)), _))) => {
                &&& db.address == e.direct_buy.text()
                &&& db.root == account_text(&ctx.tx_data)
                &&& db.state == DirectBuyState::Create
                &&& db.buyer == e.sender.text()
                &&& o.address == e.direct_buy.text()
            },
            (Event::DirectBuyDeployed(_), _) => false,
            (Event::DirectSellDeployed(e), Ok((DecodedView::DirectSellDeployed((ds, o)), _))) => {
                &&& ds.address == e.direct_sell.text()
                &&& ds.root == account_text(&ctx.tx_data)
                &&& ds.state == DirectSellState::Create
                &&& ds.seller == e.sender.text()
                &&& o.address == e.direct_sell.text()
            },
            (Event::DirectSellDeployed(_), _) => false,
            _ => true,
        },
{
}

} // verus!
