//! What decoding knows of the transaction that carried an event, and the
//! conversions of its numbers.
use vstd::prelude::*;
use crate::address::MsgAddress;
use crate::records::{AuctionCachedInfo, EventCategory, EventRecord, EventRecordView, EventType};
use crate::text::{address_text, address_to_string};

verus! {

/// The earliest second that a date-time can hold: the start of the year
/// -262143.
pub open spec fn min_datetime_seconds() -> int {
    -8334601228800
}

/// The last second that a date-time can hold: the end of the year 262142.
pub open spec fn max_datetime_seconds() -> int {
    8210266876799
}

/// The seconds since the epoch of the date-time for timestamp `ts`: the
/// timestamp itself when a date-time can hold it, the epoch otherwise.
pub open spec fn datetime_seconds(ts: int) -> int {
    if min_datetime_seconds() <= ts <= max_datetime_seconds() {
        ts
    } else {
        0
    }
}

/// The seconds since the epoch of the date-time for timestamp `ts`, where a
/// date-time can hold it.
pub open spec fn datetime_opt(ts: i64) -> Option<i64> {
    if min_datetime_seconds() <= ts <= max_datetime_seconds() {
        Some(ts)
    } else {
        None
    }
}

/// `NaiveDateTime::from_timestamp_opt(ts, 0)` of chrono, the date-time given
/// back as its seconds since the epoch: chrono documents `None` for a
/// timestamp out of its range, which runs from the start of the year -262143
/// to the end of the year 262142.
#[verifier::external_body]
fn datetime_from_timestamp(ts: i64) -> (r: Option<i64>)
    ensures
        r == datetime_opt(ts),
{
    #[allow(deprecated)]
    chrono::NaiveDateTime::from_timestamp_opt(ts, 0).map(|d| d.timestamp())
}

/// `NaiveDateTime::from_timestamp_opt(ts, 0)`, given as its seconds since the
/// epoch, where a date-time can hold the timestamp.
pub fn timestamp_to_datetime_opt(ts: i64) -> (r: Option<i64>)
    ensures
        r == datetime_opt(ts),
{
    datetime_from_timestamp(ts)
}

/// The date-time of a UNIX timestamp, or the epoch when it is out of range
/// (`NaiveDateTime::from_timestamp_opt(ts, 0).unwrap_or_default()`), given
/// as its seconds since the epoch.
pub fn timestamp_to_datetime(ts: i64) -> (r: i64)
    ensures
        r == datetime_seconds(ts as int),
{
    match datetime_from_timestamp(ts) {
        Some(v) => v,
        None => 0,
    }
}

/// Why an event could not be decoded.
#[derive(Clone, Copy, PartialEq, Eq, Structural, Debug)]
pub enum DecodeError {
    /// A number did not fit the column that it is written to.
    IntegerOverflow,
}

/// `i64::try_from(u64)`.
pub fn u64_to_i64(v: u64) -> (r: Result<i64, DecodeError>)
    ensures
        r matches Ok(x) ==> x == v,
        r is Err <==> v > i64::MAX,
{
    if v <= 0x7fff_ffff_ffff_ffffu64 {
        Ok(v as i64)
    } else {
        Err(DecodeError::IntegerOverflow)
    }
}

/// `i32::try_from(u32)`.
pub fn u32_to_i32(v: u32) -> (r: Result<i32, DecodeError>)
    ensures
        r matches Ok(x) ==> x == v,
        r is Err <==> v > i32::MAX,
{
    if v <= 0x7fff_ffffu32 {
        Ok(v as i32)
    } else {
        Err(DecodeError::IntegerOverflow)
    }
}

/// What the indexer reads of a transaction.
pub struct TxInfo {
    /// The destination of the inbound message, when it has one that can be read.
    pub in_msg_dst: Option<MsgAddress>,
    /// The account that the transaction belongs to.
    pub account_addr: Vec<u8>,
    /// The representation hash of the transaction.
    pub hash: Vec<u8>,
    /// The logical time.
    pub lt: u64,
    /// The UNIX time.
    pub now: u32,
}

/// The account of a transaction: the destination of its inbound message,
/// or else `0:` and the hex of its account.
pub open spec fn account_text(tx: &TxInfo) -> Seq<char> {
    match tx.in_msg_dst {
        Some(a) => a.text(),
        None => address_text(0, tx.account_addr@),
    }
}

/// What the indexer reads of a transaction.
pub trait KeyInfo {
    /// The account that the transaction is for.
    fn get_account(&self) -> String;

    /// The hash of the transaction.
    fn get_hash(&self) -> Vec<u8>;

    /// The UNIX time of the transaction.
    fn get_timestamp(&self) -> i64;
}

impl KeyInfo for TxInfo {
    fn get_account(&self) -> (r: String)
        ensures
            r@ == account_text(self),
    {
        match &self.in_msg_dst {
            Some(a) => a.to_string(),
            None => address_to_string(0, self.account_addr.as_slice()),
        }
    }

    fn get_hash(&self) -> (r: Vec<u8>)
        ensures
            r@ == self.hash@,
    {
        self.hash.clone()
    }

    fn get_timestamp(&self) -> (r: i64)
        ensures
            r == self.now,
    {
        self.now as i64
    }
}

/// What decoding an event knows besides the event.
pub struct DecodeContext {
    pub tx_data: TxInfo,
    /// The hash of the message that carried the event, as text.
    pub message_hash: String,
}

/// The logical time as it is stored in a signed column (`lt as i64`).
pub open spec fn lt_column(ctx: &DecodeContext) -> i64 {
    ctx.tx_data.lt as i64
}

/// The date-time of the transaction, in seconds.
pub open spec fn tx_datetime(ctx: &DecodeContext) -> int {
    datetime_seconds(ctx.tx_data.now as int)
}

/// The raw record of an event: where and when it happened, and the NFT and
/// collection that it concerns.
pub open spec fn event_view(
    cat: EventCategory,
    ty: EventType,
    ctx: &DecodeContext,
    nft: Option<Seq<char>>,
    collection: Option<Seq<char>>,
) -> EventRecordView {
    EventRecordView {
        event_category: cat,
        event_type: ty,
        address: account_text(&ctx.tx_data),
        created_lt: lt_column(ctx),
        created_at: ctx.tx_data.now as i64,
        message_hash: ctx.message_hash@,
        nft,
        collection,
    }
}

/// Builds the raw record of an event.
pub fn make_event_record(
    cat: EventCategory,
    ty: EventType,
    ctx: &DecodeContext,
    nft: Option<String>,
    collection: Option<String>,
) -> (r: EventRecord)
    ensures
        r@ == event_view(cat, ty, ctx, nft.deep_view(), collection.deep_view()),
{
    EventRecord {
        event_category: cat,
        event_type: ty,
        address: ctx.tx_data.get_account(),
        created_lt: ctx.tx_data.lt as i64,
        created_at: ctx.tx_data.get_timestamp(),
        message_hash: ctx.message_hash.clone(),
        nft,
        collection,
    }
}

/// What the indexer looked up for decoding: the collection of an NFT, and
/// what it keeps of an auction.
pub struct Found {
    pub collection: Option<String>,
    pub auction: Option<AuctionCachedInfo>,
}

/// What decoding an event needs looked up first.
pub enum Lookup {
    Nothing,
    /// The collection of the NFT at this address.
    CollectionOfNft(String),
    /// What is kept of the auction at this address.
    AuctionInfo(String),
}

/// The view of a `Lookup`.
pub enum LookupView {
    Nothing,
    CollectionOfNft(Seq<char>),
    AuctionInfo(Seq<char>),
}

impl View for Lookup {
    type V = LookupView;

    open spec fn view(&self) -> LookupView {
        match self {
            Lookup::Nothing => LookupView::Nothing,
            Lookup::CollectionOfNft(a) => LookupView::CollectionOfNft(a@),
            Lookup::AuctionInfo(a) => LookupView::AuctionInfo(a@),
        }
    }
}

} // verus!
