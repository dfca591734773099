//! The events of the marketplace contracts, as the indexer unpacks them.
use vstd::prelude::*;
use crate::address::MsgAddress;
use crate::chain_types::{
    AuctionDetails, CollectionFeeInfo, DirectBuyInfo, DirectSellInfo, MarketFee, MarketOffer, Royalty,
};

verus! {

/// `AuctionCreated` (emitted by Auction).
pub struct AuctionCreated {
    pub value0: AuctionDetails,
}

/// `AuctionActive` (emitted by Auction).
pub struct AuctionActive {
    pub value0: AuctionDetails,
}

/// `BidPlaced` (emitted by Auction).
pub struct BidPlaced {
    pub buyer: MsgAddress,
    pub value: u128,
    pub next_bid_value: u128,
    pub value3: AuctionDetails,
}

/// `BidDeclined` (emitted by Auction).
pub struct BidDeclined {
    pub buyer: MsgAddress,
    pub value: u128,
    pub value2: AuctionDetails,
}

/// `AuctionComplete` (emitted by Auction).
pub struct AuctionComplete {
    pub buyer: MsgAddress,
    pub value: u128,
    pub value2: AuctionDetails,
}

/// `AuctionCancelled` (emitted by Auction).
pub struct AuctionCancelled {
    pub value0: AuctionDetails,
}

/// `RoyaltySet` (emitted by Auction).
pub struct RoyaltySet {
    pub _royalty: Royalty,
}

/// `NftCreated` (emitted by Collection).
pub struct NftCreated {
    pub id: Vec<u8>,
    pub nft: MsgAddress,
    pub owner: MsgAddress,
    pub manager: MsgAddress,
    pub creator: MsgAddress,
}

/// `NftBurned` (emitted by Collection).
pub struct NftBurned {
    pub id: Vec<u8>,
    pub nft: MsgAddress,
    pub owner: MsgAddress,
    pub manager: MsgAddress,
}

/// `OwnershipTransferred` (emitted by several contracts).
pub struct OwnershipTransferred {
    pub old_owner: MsgAddress,
    pub new_owner: MsgAddress,
}

/// `MarketFeeDefaultChanged` (emitted by several contracts).
pub struct MarketFeeDefaultChanged {
    pub fee: MarketFee,
}

/// `MarketFeeChanged` (emitted by several contracts).
pub struct MarketFeeChanged {
    pub auction: MsgAddress,
    pub fee: MarketFee,
}

/// `AddCollectionRules` (emitted by several contracts).
pub struct AddCollectionRules {
    pub collection: MsgAddress,
    pub collection_fee_info: CollectionFeeInfo,
}

/// `RemoveCollectionRules` (emitted by several contracts).
pub struct RemoveCollectionRules {
    pub collection: MsgAddress,
}

/// `DirectBuyStateChanged` (emitted by DirectBuy).
pub struct DirectBuyStateChanged {
    pub from: u8,
    pub to: u8,
    pub value2: DirectBuyInfo,
    pub old_owner: MsgAddress,
    pub new_owner: MsgAddress,
}

/// `DirectSellStateChanged` (emitted by DirectSell).
pub struct DirectSellStateChanged {
    pub from: u8,
    pub to: u8,
    pub value2: DirectSellInfo,
}

/// `AuctionDeployed` (emitted by FactoryAuction).
pub struct AuctionDeployed {
    pub offer: MsgAddress,
    pub offer_info: MarketOffer,
}

/// `AuctionDeclined` (emitted by FactoryAuction).
pub struct AuctionDeclined {
    pub nft_owner: MsgAddress,
    pub nft: MsgAddress,
}

/// `DirectBuyDeployed` (emitted by FactoryDirectBuy).
pub struct DirectBuyDeployed {
    pub direct_buy: MsgAddress,
    pub sender: MsgAddress,
    pub token: MsgAddress,
    pub nft: MsgAddress,
    pub nonce: u64,
    pub amount: u128,
}

/// `DirectBuyDeclined` (emitted by FactoryDirectBuy).
pub struct DirectBuyDeclined {
    pub sender: MsgAddress,
    pub token: MsgAddress,
    pub amount: u128,
    pub nft: MsgAddress,
}

/// `DirectSellDeployed` (emitted by FactoryDirectSell).
pub struct DirectSellDeployed {
    pub direct_sell: MsgAddress,
    pub sender: MsgAddress,
    pub payment_token: MsgAddress,
    pub nft: MsgAddress,
    pub nonce: u64,
    pub price: u128,
}

/// `DirectSellDeclined` (emitted by FactoryDirectSell).
pub struct DirectSellDeclined {
    pub sender: MsgAddress,
    pub nft: MsgAddress,
}

/// `OwnerChanged` (emitted by Nft).
pub struct OwnerChanged {
    pub old_owner: MsgAddress,
    pub new_owner: MsgAddress,
}

/// `ManagerChanged` (emitted by Nft).
pub struct ManagerChanged {
    pub old_manager: MsgAddress,
    pub new_manager: MsgAddress,
}

/// `NftMetadataUpdated` of a collection (4.2.2): no fields.
pub struct NftMetadataUpdated;

/// `CollectionMetadataUpdated` of a collection (4.2.2): no fields.
pub struct CollectionMetadataUpdated;

/// `MetadataUpdated` of an NFT (4.2.2): no fields.
pub struct MetadataUpdated;

/// An event unpacked into the structure of its kind.
pub enum Event {
    AuctionCreated(AuctionCreated),
    AuctionActive(AuctionActive),
    BidPlaced(BidPlaced),
    BidDeclined(BidDeclined),
    AuctionComplete(AuctionComplete),
    AuctionCancelled(AuctionCancelled),
    NftCreated(NftCreated),
    NftBurned(NftBurned),
    OwnershipTransferred(OwnershipTransferred),
    MarketFeeDefaultChanged(MarketFeeDefaultChanged),
    MarketFeeChanged(MarketFeeChanged),
    AddCollectionRules(AddCollectionRules),
    RemoveCollectionRules(RemoveCollectionRules),
    DirectBuyStateChanged(DirectBuyStateChanged),
    DirectSellStateChanged(DirectSellStateChanged),
    AuctionDeployed(AuctionDeployed),
    AuctionDeclined(AuctionDeclined),
    DirectBuyDeployed(DirectBuyDeployed),
    DirectBuyDeclined(DirectBuyDeclined),
    DirectSellDeployed(DirectSellDeployed),
    DirectSellDeclined(DirectSellDeclined),
    OwnerChanged(OwnerChanged),
    ManagerChanged(ManagerChanged),
}

} // verus!
