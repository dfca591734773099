//! The structures that the marketplace contracts put in their events, with
//! addresses and numbers as plain values.
use vstd::prelude::*;
use crate::address::MsgAddress;

verus! {

/// The status of an auction, as the contract numbers it (from 1).
#[derive(Clone, Copy, PartialEq, Eq, Structural, Debug)]
pub enum AuctionStatus {
    Created,
    Active,
    Complete,
    Cancelled,
}

/// The number of each auction status.
pub open spec fn auction_status_number(s: AuctionStatus) -> u8 {
    match s {
        AuctionStatus::Created => 1,
        AuctionStatus::Active => 2,
        AuctionStatus::Complete => 3,
        AuctionStatus::Cancelled => 4,
    }
}

/// Why a value of an event could not be unpacked.
#[derive(Clone, Copy, PartialEq, Eq, Structural, Debug)]
pub enum UnpackerError {
    InvalidAbi,
}

impl AuctionStatus {
    /// The status numbered `v` (`FromPrimitive::from_u8`).
    pub fn from_u8(v: u8) -> (r: Option<AuctionStatus>)
        ensures
            r matches Some(s) ==> auction_status_number(s) == v,
            r is None <==> (v < 1 || v > 4),
    {
        match v {
            1 => Some(AuctionStatus::Created),
            2 => Some(AuctionStatus::Active),
            3 => Some(AuctionStatus::Complete),
            4 => Some(AuctionStatus::Cancelled),
            _ => None,
        }
    }

    /// The number of the status (`ToPrimitive::to_u8`), which is what the
    /// status is packed as (an 8-bit unsigned token).
    pub fn to_u8(&self) -> (r: u8)
        ensures
            r == auction_status_number(*self),
    {
        match self {
            AuctionStatus::Created => 1,
            AuctionStatus::Active => 2,
            AuctionStatus::Complete => 3,
            AuctionStatus::Cancelled => 4,
        }
    }

    /// Unpacks a status from the 8-bit number of its token: an unknown
    /// number is an invalid ABI.
    pub fn unpack(v: u8) -> (r: Result<AuctionStatus, UnpackerError>)
        ensures
            r matches Ok(s) ==> auction_status_number(s) == v,
            r is Err <==> (v < 1 || v > 4),
    {
        match AuctionStatus::from_u8(v) {
            Some(s) => Ok(s),
            None => Err(UnpackerError::InvalidAbi),
        }
    }
}

/// Unpacking a packed status gives the status back.
pub proof fn lemma_auction_status_round_trip(s: AuctionStatus)
    ensures
        1 <= auction_status_number(s) <= 4,
        forall|t: AuctionStatus| auction_status_number(t) == auction_status_number(s) ==> t == s,
{
}

/// The offer that a factory deployed.
pub struct MarketOffer {
    pub collection: MsgAddress,
    pub nft_owner: MsgAddress,
    pub nft: MsgAddress,
    pub offer: MsgAddress,
    pub price: u128,
    pub auction_duration: u128,
    pub deploy_nonce: u64,
}

/// The details of an auction.
pub struct AuctionDetails {
    pub auction_subject: MsgAddress,
    pub subject_owner: MsgAddress,
    pub payment_token: MsgAddress,
    pub wallet_for_bids: MsgAddress,
    pub start_time: u64,
    pub duration: u64,
    pub end_time: u64,
    pub price: u128,
    pub nonce: u64,
    pub status: AuctionStatus,
    pub collection: MsgAddress,
}

/// The state of a direct-buy offer.
pub struct DirectBuyInfo {
    pub factory: MsgAddress,
    pub creator: MsgAddress,
    pub spent_token: MsgAddress,
    pub nft: MsgAddress,
    pub _time_tx: u64,
    pub _price: u128,
    pub spent_wallet: MsgAddress,
    pub status: u8,
    pub start_time_buy: u64,
    pub duration_time_buy: u64,
    pub end_time_buy: u64,
    pub collection: MsgAddress,
}

/// The state of a direct-sell offer.
pub struct DirectSellInfo {
    pub factory: MsgAddress,
    pub creator: MsgAddress,
    pub token: MsgAddress,
    pub nft: MsgAddress,
    pub _time_tx: u64,
    pub start: u64,
    pub end: u64,
    pub _price: u128,
    pub wallet: MsgAddress,
    pub status: u8,
    pub collection: MsgAddress,
}

/// A market fee as a fraction.
#[derive(Clone, Copy, PartialEq, Eq, Structural, Debug)]
pub struct MarketFee {
    pub numerator: u32,
    pub denominator: u32,
}

/// The fee rules of a collection.
pub struct CollectionFeeInfo {
    pub code_hash: Vec<u8>,
    pub code_depth: u16,
    pub numerator: u32,
    pub denominator: u32,
}

/// A royalty as a fraction, and who receives it.
pub struct Royalty {
    pub numerator: u32,
    pub denominator: u32,
    pub receiver: MsgAddress,
}

} // verus!
