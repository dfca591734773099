//! The dispatch of the event consumer: the contracts whose transactions it
//! parses, the events it handles for each, in order, and the record that it
//! builds for each event found, with the addresses that a trusted deployment
//! adds to the whitelist.
use vstd::prelude::*;
use crate::contract_events::{
    AddCollectionRules,
    AuctionActive,
    AuctionBidDeclined,
    AuctionBidPlaced,
    AuctionCancelled,
    AuctionComplete,
    AuctionCreated,
    AuctionDeclined,
    AuctionDeployed,
    AuctionRootOwnershipTransferred,
    CollectionOwnershipTransferred,
    DirectBuyDeclined,
    DirectBuyDeployed,
    DirectBuyStateChanged,
    DirectSellDeclined,
    DirectSellDeployed,
    DirectSellStateChanged,
    FactoryDirectBuyOwnershipTransferred,
    FactoryDirectSellOwnershipTransferred,
    MarketFeeChanged,
    MarketFeeDefaultChanged,
    NftBurned,
    NftCreated,
    NftManagerChanged,
    NftOwnerChanged,
    RemoveCollectionRules,
    add_collection_rules_view,
    auction_active_view,
    auction_bid_declined_view,
    auction_bid_placed_view,
    auction_cancelled_view,
    auction_complete_view,
    auction_created_view,
    auction_declined_view,
    auction_deployed_view,
    auction_root_ownership_transferred_view,
    collection_ownership_transferred_view,
    direct_buy_declined_view,
    direct_buy_deployed_view,
    direct_buy_state_changed_view,
    direct_sell_declined_view,
    direct_sell_deployed_view,
    direct_sell_state_changed_view,
    factory_direct_buy_ownership_transferred_view,
    factory_direct_sell_ownership_transferred_view,
    market_fee_changed_view,
    market_fee_default_changed_view,
    nft_burned_view,
    nft_created_view,
    nft_manager_changed_view,
    nft_owner_changed_view,
    remove_collection_rules_view,
};
use crate::dependent_tables::{record_header, ContractRecord};
use crate::settings::{OfferRootType, TrustedAddresses};
use crate::text::str_eq;
use crate::tokens::{tokens_are_wf, tokens_wf, BuildError, ExtractedEvent};

verus! {

/// The contracts whose transactions the consumer parses.
#[derive(Clone, Copy, PartialEq, Eq, Structural, Debug)]
pub enum ContractKind {
    AuctionTip3,
    AuctionRootTip3,
    DirectBuy,
    DirectSell,
    FactoryDirectBuy,
    FactoryDirectSell,
    Nft,
    Collection,
}

/// The kinds of record that the consumer builds.
#[derive(Clone, Copy, PartialEq, Eq, Structural, Debug)]
pub enum RecordKind {
    AuctionDeployed,
    AuctionDeclined,
    AddCollectionRules,
    RemoveCollectionRules,
    AuctionRootOwnershipTransferred,
    MarketFeeDefaultChanged,
    MarketFeeChanged,
    AuctionCreated,
    AuctionActive,
    AuctionBidPlaced,
    AuctionBidDeclined,
    AuctionComplete,
    AuctionCancelled,
    DirectBuyDeployed,
    DirectBuyDeclined,
    FactoryDirectBuyOwnershipTransferred,
    DirectSellDeployed,
    DirectSellDeclined,
    FactoryDirectSellOwnershipTransferred,
    DirectBuyStateChanged,
    DirectSellStateChanged,
    NftOwnerChanged,
    NftManagerChanged,
    CollectionOwnershipTransferred,
    NftCreated,
    NftBurned,
}

/// The contracts, in the order in which their parsers run on a transaction.
pub open spec fn contract_kinds() -> Seq<ContractKind> {
    seq![ContractKind::AuctionTip3, ContractKind::AuctionRootTip3, ContractKind::DirectBuy, ContractKind::DirectSell, ContractKind::FactoryDirectBuy, ContractKind::FactoryDirectSell, ContractKind::Nft, ContractKind::Collection]
}

/// The contracts, in the order in which their parsers run on a transaction.
pub fn contract_kinds_vec() -> (r: Vec<ContractKind>)
    ensures
        r@ == contract_kinds(),
{
    let mut r: Vec<ContractKind> = Vec::new();
    r.push(ContractKind::AuctionTip3);
    r.push(ContractKind::AuctionRootTip3);
    r.push(ContractKind::DirectBuy);
    r.push(ContractKind::DirectSell);
    r.push(ContractKind::FactoryDirectBuy);
    r.push(ContractKind::FactoryDirectSell);
    r.push(ContractKind::Nft);
    r.push(ContractKind::Collection);
    proof {
        assert(r@ =~= contract_kinds());
    }
    r
}

/// The path of the ABI of a contract.
pub open spec fn abi_path_spec(k: ContractKind) -> Seq<char> {
    match k {
        ContractKind::AuctionTip3 => "./abi/AuctionTip3.abi.json"@,
        ContractKind::AuctionRootTip3 => "./abi/AuctionRootTip3.abi.json"@,
        ContractKind::DirectBuy => "./abi/DirectBuy.abi.json"@,
        ContractKind::DirectSell => "./abi/DirectSell.abi.json"@,
        ContractKind::FactoryDirectBuy => "./abi/FactoryDirectBuy.abi.json"@,
        ContractKind::FactoryDirectSell => "./abi/FactoryDirectSell.abi.json"@,
        ContractKind::Nft => "./abi/Nft.abi.json"@,
        ContractKind::Collection => "./abi/Collection.abi.json"@,
    }
}

/// The events that the handler of a contract handles, in order: the name
/// of each in the ABI and the kind of record built from it.
pub open spec fn handled_spec(k: ContractKind) -> Seq<(Seq<char>, RecordKind)> {
    match k {
        ContractKind::AuctionTip3 => seq![("AuctionCreated"@, RecordKind::AuctionCreated), ("AuctionActive"@, RecordKind::AuctionActive), ("BidPlaced"@, RecordKind::AuctionBidPlaced), ("BidDeclined"@, RecordKind::AuctionBidDeclined), ("AuctionComplete"@, RecordKind::AuctionComplete), ("AuctionCancelled"@, RecordKind::AuctionCancelled)],
        ContractKind::AuctionRootTip3 => seq![("AuctionDeployed"@, RecordKind::AuctionDeployed), ("AuctionDeclined"@, RecordKind::AuctionDeclined), ("OwnershipTransferred"@, RecordKind::AuctionRootOwnershipTransferred)],
        ContractKind::DirectBuy => seq![("DirectBuyStateChanged"@, RecordKind::DirectBuyStateChanged)],
        ContractKind::DirectSell => seq![("DirectSellStateChanged"@, RecordKind::DirectSellStateChanged)],
        ContractKind::FactoryDirectBuy => seq![("DirectBuyDeployed"@, RecordKind::DirectBuyDeployed), ("DirectBuyDeclined"@, RecordKind::DirectBuyDeclined), ("OwnershipTransferred"@, RecordKind::FactoryDirectBuyOwnershipTransferred)],
        ContractKind::FactoryDirectSell => seq![("DirectSellDeployed"@, RecordKind::DirectSellDeployed), ("DirectSellDeclined"@, RecordKind::DirectSellDeclined), ("OwnershipTransferred"@, RecordKind::FactoryDirectSellOwnershipTransferred)],
        ContractKind::Nft => seq![("OwnerChanged"@, RecordKind::NftOwnerChanged), ("ManagerChanged"@, RecordKind::NftManagerChanged)],
        ContractKind::Collection => seq![("OwnershipTransferred"@, RecordKind::CollectionOwnershipTransferred), ("NftCreated"@, RecordKind::NftCreated), ("NftBurned"@, RecordKind::NftBurned)],
    }
}

impl ContractKind {
    /// The path of the ABI of the contract.
    pub fn abi_path(&self) -> (r: &'static str)
        ensures
            r@ == abi_path_spec(*self),
    {
        match self {
            ContractKind::AuctionTip3 => "./abi/AuctionTip3.abi.json",
            ContractKind::AuctionRootTip3 => "./abi/AuctionRootTip3.abi.json",
            ContractKind::DirectBuy => "./abi/DirectBuy.abi.json",
            ContractKind::DirectSell => "./abi/DirectSell.abi.json",
            ContractKind::FactoryDirectBuy => "./abi/FactoryDirectBuy.abi.json",
            ContractKind::FactoryDirectSell => "./abi/FactoryDirectSell.abi.json",
            ContractKind::Nft => "./abi/Nft.abi.json",
            ContractKind::Collection => "./abi/Collection.abi.json",
        }
    }

    /// The events that the handler of the contract handles, in order.
    pub fn handled(&self) -> (r: Vec<(&'static str, RecordKind)>)
        ensures
            r@.map_values(|p: (&'static str, RecordKind)| (p.0@, p.1)) == handled_spec(*self),
    {
        let mut r: Vec<(&'static str, RecordKind)> = Vec::new();
        match self {
            ContractKind::AuctionTip3 => {
                r.push(("AuctionCreated", RecordKind::AuctionCreated));
                r.push(("AuctionActive", RecordKind::AuctionActive));
                r.push(("BidPlaced", RecordKind::AuctionBidPlaced));
                r.push(("BidDeclined", RecordKind::AuctionBidDeclined));
                r.push(("AuctionComplete", RecordKind::AuctionComplete));
                r.push(("AuctionCancelled", RecordKind::AuctionCancelled));
            },
            ContractKind::AuctionRootTip3 => {
                r.push(("AuctionDeployed", RecordKind::AuctionDeployed));
                r.push(("AuctionDeclined", RecordKind::AuctionDeclined));
                r.push(("OwnershipTransferred", RecordKind::AuctionRootOwnershipTransferred));
            },
            ContractKind::DirectBuy => {
                r.push(("DirectBuyStateChanged", RecordKind::DirectBuyStateChanged));
            },
            ContractKind::DirectSell => {
                r.push(("DirectSellStateChanged", RecordKind::DirectSellStateChanged));
            },
            ContractKind::FactoryDirectBuy => {
                r.push(("DirectBuyDeployed", RecordKind::DirectBuyDeployed));
                r.push(("DirectBuyDeclined", RecordKind::DirectBuyDeclined));
                r.push(("OwnershipTransferred", RecordKind::FactoryDirectBuyOwnershipTransferred));
            },
            ContractKind::FactoryDirectSell => {
                r.push(("DirectSellDeployed", RecordKind::DirectSellDeployed));
                r.push(("DirectSellDeclined", RecordKind::DirectSellDeclined));
                r.push(("OwnershipTransferred", RecordKind::FactoryDirectSellOwnershipTransferred));
            },
            ContractKind::Nft => {
                r.push(("OwnerChanged", RecordKind::NftOwnerChanged));
                r.push(("ManagerChanged", RecordKind::NftManagerChanged));
            },
            ContractKind::Collection => {
                r.push(("OwnershipTransferred", RecordKind::CollectionOwnershipTransferred));
                r.push(("NftCreated", RecordKind::NftCreated));
                r.push(("NftBurned", RecordKind::NftBurned));
            },
        }
        proof {
            assert(r@.map_values(|p: (&'static str, RecordKind)| (p.0@, p.1)) =~= handled_spec(*self));
        }
        r
    }
}

/// Whether a record of kind `kind` can be built from `ev`.
pub open spec fn builds(kind: RecordKind, ev: ExtractedEvent) -> bool {
    match kind {
        RecordKind::AuctionDeployed => auction_deployed_view(ev) is Some,
        RecordKind::AuctionDeclined => auction_declined_view(ev) is Some,
        RecordKind::AddCollectionRules => add_collection_rules_view(ev) is Some,
        RecordKind::RemoveCollectionRules => remove_collection_rules_view(ev) is Some,
        RecordKind::AuctionRootOwnershipTransferred => auction_root_ownership_transferred_view(ev) is Some,
        RecordKind::MarketFeeDefaultChanged => market_fee_default_changed_view(ev) is Some,
        RecordKind::MarketFeeChanged => market_fee_changed_view(ev) is Some,
        RecordKind::AuctionCreated => auction_created_view(ev) is Some,
        RecordKind::AuctionActive => auction_active_view(ev) is Some,
        RecordKind::AuctionBidPlaced => auction_bid_placed_view(ev) is Some,
        RecordKind::AuctionBidDeclined => auction_bid_declined_view(ev) is Some,
        RecordKind::AuctionComplete => auction_complete_view(ev) is Some,
        RecordKind::AuctionCancelled => auction_cancelled_view(ev) is Some,
        RecordKind::DirectBuyDeployed => direct_buy_deployed_view(ev) is Some,
        RecordKind::DirectBuyDeclined => direct_buy_declined_view(ev) is Some,
        RecordKind::FactoryDirectBuyOwnershipTransferred => factory_direct_buy_ownership_transferred_view(ev) is Some,
        RecordKind::DirectSellDeployed => direct_sell_deployed_view(ev) is Some,
        RecordKind::DirectSellDeclined => direct_sell_declined_view(ev) is Some,
        RecordKind::FactoryDirectSellOwnershipTransferred => factory_direct_sell_ownership_transferred_view(ev) is Some,
        RecordKind::DirectBuyStateChanged => direct_buy_state_changed_view(ev) is Some,
        RecordKind::DirectSellStateChanged => direct_sell_state_changed_view(ev) is Some,
        RecordKind::NftOwnerChanged => nft_owner_changed_view(ev) is Some,
        RecordKind::NftManagerChanged => nft_manager_changed_view(ev) is Some,
        RecordKind::CollectionOwnershipTransferred => collection_ownership_transferred_view(ev) is Some,
        RecordKind::NftCreated => nft_created_view(ev) is Some,
        RecordKind::NftBurned => nft_burned_view(ev) is Some,
    }
}

/// Whether `rec` is the record of kind `kind` built from `ev`.
pub open spec fn built_from(kind: RecordKind, ev: ExtractedEvent, rec: ContractRecord) -> bool {
    match kind {
        RecordKind::AuctionDeployed => rec matches ContractRecord::AuctionDeployed(x) && auction_deployed_view(ev) == Some(x@) && x.wf(),
        RecordKind::AuctionDeclined => rec matches ContractRecord::AuctionDeclined(x) && auction_declined_view(ev) == Some(x@) && x.wf(),
        RecordKind::AddCollectionRules => rec matches ContractRecord::AddCollectionRules(x) && add_collection_rules_view(ev) == Some(x@) && x.wf(),
        RecordKind::RemoveCollectionRules => rec matches ContractRecord::RemoveCollectionRules(x) && remove_collection_rules_view(ev) == Some(x@) && x.wf(),
        RecordKind::AuctionRootOwnershipTransferred => rec matches ContractRecord::AuctionRootOwnershipTransferred(x) && auction_root_ownership_transferred_view(ev) == Some(x@) && x.wf(),
        RecordKind::MarketFeeDefaultChanged => rec matches ContractRecord::MarketFeeDefaultChanged(x) && market_fee_default_changed_view(ev) == Some(x@) && x.wf(),
        RecordKind::MarketFeeChanged => rec matches ContractRecord::MarketFeeChanged(x) && market_fee_changed_view(ev) == Some(x@) && x.wf(),
        RecordKind::AuctionCreated => rec matches ContractRecord::AuctionCreated(x) && auction_created_view(ev) == Some(x@) && x.wf(),
        RecordKind::AuctionActive => rec matches ContractRecord::AuctionActive(x) && auction_active_view(ev) == Some(x@) && x.wf(),
        RecordKind::AuctionBidPlaced => rec matches ContractRecord::AuctionBidPlaced(x) && auction_bid_placed_view(ev) == Some(x@) && x.wf(),
        RecordKind::AuctionBidDeclined => rec matches ContractRecord::AuctionBidDeclined(x) && auction_bid_declined_view(ev) == Some(x@) && x.wf(),
        RecordKind::AuctionComplete => rec matches ContractRecord::AuctionComplete(x) && auction_complete_view(ev) == Some(x@) && x.wf(),
        RecordKind::AuctionCancelled => rec matches ContractRecord::AuctionCancelled(x) && auction_cancelled_view(ev) == Some(x@) && x.wf(),
        RecordKind::DirectBuyDeployed => rec matches ContractRecord::DirectBuyDeployed(x) && direct_buy_deployed_view(ev) == Some(x@) && x.wf(),
        RecordKind::DirectBuyDeclined => rec matches ContractRecord::DirectBuyDeclined(x) && direct_buy_declined_view(ev) == Some(x@) && x.wf(),
        RecordKind::FactoryDirectBuyOwnershipTransferred => rec matches ContractRecord::FactoryDirectBuyOwnershipTransferred(x) && factory_direct_buy_ownership_transferred_view(ev) == Some(x@) && x.wf(),
        RecordKind::DirectSellDeployed => rec matches ContractRecord::DirectSellDeployed(x) && direct_sell_deployed_view(ev) == Some(x@) && x.wf(),
        RecordKind::DirectSellDeclined => rec matches ContractRecord::DirectSellDeclined(x) && direct_sell_declined_view(ev) == Some(x@) && x.wf(),
        RecordKind::FactoryDirectSellOwnershipTransferred => rec matches ContractRecord::FactoryDirectSellOwnershipTransferred(x) && factory_direct_sell_ownership_transferred_view(ev) == Some(x@) && x.wf(),
        RecordKind::DirectBuyStateChanged => rec matches ContractRecord::DirectBuyStateChanged(x) && direct_buy_state_changed_view(ev) == Some(x@) && x.wf(),
        RecordKind::DirectSellStateChanged => rec matches ContractRecord::DirectSellStateChanged(x) && direct_sell_state_changed_view(ev) == Some(x@) && x.wf(),
        RecordKind::NftOwnerChanged => rec matches ContractRecord::NftOwnerChanged(x) && nft_owner_changed_view(ev) == Some(x@) && x.wf(),
        RecordKind::NftManagerChanged => rec matches ContractRecord::NftManagerChanged(x) && nft_manager_changed_view(ev) == Some(x@) && x.wf(),
        RecordKind::CollectionOwnershipTransferred => rec matches ContractRecord::CollectionOwnershipTransferred(x) && collection_ownership_transferred_view(ev) == Some(x@) && x.wf(),
        RecordKind::NftCreated => rec matches ContractRecord::NftCreated(x) && nft_created_view(ev) == Some(x@) && x.wf(),
        RecordKind::NftBurned => rec matches ContractRecord::NftBurned(x) && nft_burned_view(ev) == Some(x@) && x.wf(),
    }
}

/// The record of kind `kind` built from `ev`.
pub fn build_record(kind: RecordKind, ev: &ExtractedEvent) -> (r: Result<ContractRecord, BuildError>)
    requires
        tokens_wf(ev.tokens@),
    ensures
        r is Ok <==> builds(kind, *ev),
        r matches Ok(rec) ==> built_from(kind, *ev, rec),
{
    match kind {
        RecordKind::AuctionDeployed => match AuctionDeployed::build_from(ev) {
            Ok(x) => Ok(ContractRecord::AuctionDeployed(x)),
            Err(e) => Err(e),
        },
        RecordKind::AuctionDeclined => match AuctionDeclined::build_from(ev) {
            Ok(x) => Ok(ContractRecord::AuctionDeclined(x)),
            Err(e) => Err(e),
        },
        RecordKind::AddCollectionRules => match AddCollectionRules::build_from(ev) {
            Ok(x) => Ok(ContractRecord::AddCollectionRules(x)),
            Err(e) => Err(e),
        },
        RecordKind::RemoveCollectionRules => match RemoveCollectionRules::build_from(ev) {
            Ok(x) => Ok(ContractRecord::RemoveCollectionRules(x)),
            Err(e) => Err(e),
        },
        RecordKind::AuctionRootOwnershipTransferred => match AuctionRootOwnershipTransferred::build_from(ev) {
            Ok(x) => Ok(ContractRecord::AuctionRootOwnershipTransferred(x)),
            Err(e) => Err(e),
        },
        RecordKind::MarketFeeDefaultChanged => match MarketFeeDefaultChanged::build_from(ev) {
            Ok(x) => Ok(ContractRecord::MarketFeeDefaultChanged(x)),
            Err(e) => Err(e),
        },
        RecordKind::MarketFeeChanged => match MarketFeeChanged::build_from(ev) {
            Ok(x) => Ok(ContractRecord::MarketFeeChanged(x)),
            Err(e) => Err(e),
        },
        RecordKind::AuctionCreated => match AuctionCreated::build_from(ev) {
            Ok(x) => Ok(ContractRecord::AuctionCreated(x)),
            Err(e) => Err(e),
        },
        RecordKind::AuctionActive => match AuctionActive::build_from(ev) {
            Ok(x) => Ok(ContractRecord::AuctionActive(x)),
            Err(e) => Err(e),
        },
        RecordKind::AuctionBidPlaced => match AuctionBidPlaced::build_from(ev) {
            Ok(x) => Ok(ContractRecord::AuctionBidPlaced(x)),
            Err(e) => Err(e),
        },
        RecordKind::AuctionBidDeclined => match AuctionBidDeclined::build_from(ev) {
            Ok(x) => Ok(ContractRecord::AuctionBidDeclined(x)),
            Err(e) => Err(e),
        },
        RecordKind::AuctionComplete => match AuctionComplete::build_from(ev) {
            Ok(x) => Ok(ContractRecord::AuctionComplete(x)),
            Err(e) => Err(e),
        },
        RecordKind::AuctionCancelled => match AuctionCancelled::build_from(ev) {
            Ok(x) => Ok(ContractRecord::AuctionCancelled(x)),
            Err(e) => Err(e),
        },
        RecordKind::DirectBuyDeployed => match DirectBuyDeployed::build_from(ev) {
            Ok(x) => Ok(ContractRecord::DirectBuyDeployed(x)),
            Err(e) => Err(e),
        },
        RecordKind::DirectBuyDeclined => match DirectBuyDeclined::build_from(ev) {
            Ok(x) => Ok(ContractRecord::DirectBuyDeclined(x)),
            Err(e) => Err(e),
        },
        RecordKind::FactoryDirectBuyOwnershipTransferred => match FactoryDirectBuyOwnershipTransferred::build_from(ev) {
            Ok(x) => Ok(ContractRecord::FactoryDirectBuyOwnershipTransferred(x)),
            Err(e) => Err(e),
        },
        RecordKind::DirectSellDeployed => match DirectSellDeployed::build_from(ev) {
            Ok(x) => Ok(ContractRecord::DirectSellDeployed(x)),
            Err(e) => Err(e),
        },
        RecordKind::DirectSellDeclined => match DirectSellDeclined::build_from(ev) {
            Ok(x) => Ok(ContractRecord::DirectSellDeclined(x)),
            Err(e) => Err(e),
        },
        RecordKind::FactoryDirectSellOwnershipTransferred => match FactoryDirectSellOwnershipTransferred::build_from(ev) {
            Ok(x) => Ok(ContractRecord::FactoryDirectSellOwnershipTransferred(x)),
            Err(e) => Err(e),
        },
        RecordKind::DirectBuyStateChanged => match DirectBuyStateChanged::build_from(ev) {
            Ok(x) => Ok(ContractRecord::DirectBuyStateChanged(x)),
            Err(e) => Err(e),
        },
        RecordKind::DirectSellStateChanged => match DirectSellStateChanged::build_from(ev) {
            Ok(x) => Ok(ContractRecord::DirectSellStateChanged(x)),
            Err(e) => Err(e),
        },
        RecordKind::NftOwnerChanged => match NftOwnerChanged::build_from(ev) {
            Ok(x) => Ok(ContractRecord::NftOwnerChanged(x)),
            Err(e) => Err(e),
        },
        RecordKind::NftManagerChanged => match NftManagerChanged::build_from(ev) {
            Ok(x) => Ok(ContractRecord::NftManagerChanged(x)),
            Err(e) => Err(e),
        },
        RecordKind::CollectionOwnershipTransferred => match CollectionOwnershipTransferred::build_from(ev) {
            Ok(x) => Ok(ContractRecord::CollectionOwnershipTransferred(x)),
            Err(e) => Err(e),
        },
        RecordKind::NftCreated => match NftCreated::build_from(ev) {
            Ok(x) => Ok(ContractRecord::NftCreated(x)),
            Err(e) => Err(e),
        },
        RecordKind::NftBurned => match NftBurned::build_from(ev) {
            Ok(x) => Ok(ContractRecord::NftBurned(x)),
            Err(e) => Err(e),
        },
    }
}

/// The index of the first event named `name`, if any.
pub open spec fn event_index(evs: Seq<ExtractedEvent>, name: Seq<char>) -> Option<int>
    decreases evs.len(),
{
    if evs.len() == 0 {
        None
    } else {
        match event_index(evs.drop_last(), name) {
            Some(i) => Some(i),
            None => if evs.last().name@ == name {
                Some(evs.len() - 1)
            } else {
                None
            },
        }
    }
}

/// `event_index` is a first match.
proof fn lemma_event_index(evs: Seq<ExtractedEvent>, name: Seq<char>)
    ensures
        match event_index(evs, name) {
            Some(i) => 0 <= i < evs.len() && evs[i].name@ == name && forall|j: int|
                0 <= j < i ==> evs[j].name@ != name,
            None => forall|j: int| 0 <= j < evs.len() ==> evs[j].name@ != name,
        },
    decreases evs.len(),
{
    if evs.len() > 0 {
        lemma_event_index(evs.drop_last(), name);
        assert(forall|j: int| 0 <= j < evs.len() - 1 ==> evs.drop_last()[j] == evs[j]);
    }
}

/// The first extracted event named `name`, if any.
pub fn find_event<'a>(extracted: &'a Vec<ExtractedEvent>, name: &str) -> (r: Option<&'a ExtractedEvent>)
    ensures
        match event_index(extracted@, name@) {
            Some(i) => r matches Some(e) && *e == extracted@[i],
            None => r is None,
        },
{
    proof {
        lemma_event_index(extracted@, name@);
    }
    let mut i: usize = 0;
    while i < extracted.len()
        invariant
            i <= extracted.len(),
            forall|j: int| 0 <= j < i ==> extracted@[j].name@ != name@,
            match event_index(extracted@, name@) {
                Some(k) => 0 <= k < extracted@.len() && extracted@[k].name@ == name@ && forall|j: int|
                    0 <= j < k ==> extracted@[j].name@ != name@,
                None => forall|j: int| 0 <= j < extracted@.len() ==> extracted@[j].name@ != name@,
            },
        decreases extracted.len() - i,
    {
        if str_eq(extracted[i].name.as_str(), name) {
            proof {
                match event_index(extracted@, name@) {
                    Some(k) => {
                        assert(k == i as int);
                    },
                    None => {},
                }
            }
            return Some(&extracted[i]);
        }
        i = i + 1;
    }
    None
}

/// Every extracted event holds well-formed tokens.
pub open spec fn events_wf(evs: Seq<ExtractedEvent>) -> bool {
    forall|i: int| 0 <= i < evs.len() ==> tokens_wf(#[trigger] evs[i].tokens@)
}

/// Whether every extracted event holds well-formed tokens.
pub fn events_are_wf(evs: &Vec<ExtractedEvent>) -> (r: bool)
    ensures
        r == events_wf(evs@),
{
    let mut i: usize = 0;
    while i < evs.len()
        invariant
            i <= evs@.len(),
            forall|j: int| 0 <= j < i ==> tokens_wf(#[trigger] evs@[j].tokens@),
        decreases evs.len() - i,
    {
        if !tokens_are_wf(&evs[i].tokens) {
            assert(!events_wf(evs@));
            return false;
        }
        i = i + 1;
    }
    true
}

/// The record of kind `kind` for the first extracted event named `name`
/// (what the handling of an event does before its writes): `None` where no event has that name,
/// else the record built from the event, or the error.
pub fn record_for(
    kind: RecordKind,
    name: &str,
    extracted: &Vec<ExtractedEvent>,
) -> (r: Option<Result<ContractRecord, BuildError>>)
    requires
        events_wf(extracted@),
    ensures
        match event_index(extracted@, name@) {
            Some(i) => r matches Some(b) && (b is Ok <==> builds(kind, extracted@[i])) && (b matches Ok(rec)
                ==> built_from(kind, extracted@[i], rec)),
            None => r is None,
        },
{
    match find_event(extracted, name) {
        Some(ev) => {
            proof {
                lemma_event_index(extracted@, name@);
                let i = event_index(extracted@, name@)->0;
                assert(tokens_wf(extracted@[i].tokens@));
            }
            Some(build_record(kind, ev))
        },
        None => None,
    }
}

/// The address that a handled record adds to the whitelist: the offer that
/// a trusted auction root deployed, or the direct buy or direct sell that a
/// trusted factory deployed.
pub open spec fn whitelist_spec(rec: ContractRecord, trusted: TrustedAddresses) -> Option<Seq<char>> {
    match rec {
        ContractRecord::AuctionDeployed(x) => if trusted.of_kind(OfferRootType::AuctionRoot).contains(
            x.header.address@,
        ) {
            Some(x.offer@)
        } else {
            None
        },
        ContractRecord::DirectBuyDeployed(x) => if trusted.of_kind(OfferRootType::FactoryDirectBuy).contains(
            x.header.address@,
        ) {
            Some(x.direct_buy@)
        } else {
            None
        },
        ContractRecord::DirectSellDeployed(x) => if trusted.of_kind(OfferRootType::FactoryDirectSell).contains(
            x.header.address@,
        ) {
            Some(x.direct_sell@)
        } else {
            None
        },
        _ => None,
    }
}

/// The address that a handled record adds to the whitelist, if any.
pub fn whitelist_after(rec: &ContractRecord, trusted: &TrustedAddresses) -> (r: Option<String>)
    ensures
        r.deep_view() == whitelist_spec(*rec, *trusted),
{
    match rec {
        ContractRecord::AuctionDeployed(x) => if trusted.is_trusted(OfferRootType::AuctionRoot, &x.header.address) {
            Some(x.offer.clone())
        } else {
            None
        },
        ContractRecord::DirectBuyDeployed(x) => if trusted.is_trusted(
            OfferRootType::FactoryDirectBuy,
            &x.header.address,
        ) {
            Some(x.direct_buy.clone())
        } else {
            None
        },
        ContractRecord::DirectSellDeployed(x) => if trusted.is_trusted(
            OfferRootType::FactoryDirectSell,
            &x.header.address,
        ) {
            Some(x.direct_sell.clone())
        } else {
            None
        },
        _ => None,
    }
}

/// The kind of trusted root that deploys the offers of a record, if the
/// record is the deployment of an offer.
pub open spec fn deploying_root(rec: ContractRecord) -> Option<OfferRootType> {
    match rec {
        ContractRecord::AuctionDeployed(_) => Some(OfferRootType::AuctionRoot),
        ContractRecord::DirectBuyDeployed(_) => Some(OfferRootType::FactoryDirectBuy),
        ContractRecord::DirectSellDeployed(_) => Some(OfferRootType::FactoryDirectSell),
        _ => None,
    }
}

/// The offer that a deployment deploys: the auction, the direct buy or the
/// direct sell.
pub open spec fn deployed_offer(rec: ContractRecord) -> Seq<char> {
    match rec {
        ContractRecord::AuctionDeployed(x) => x.offer@,
        ContractRecord::DirectBuyDeployed(x) => x.direct_buy@,
        ContractRecord::DirectSellDeployed(x) => x.direct_sell@,
        _ => Seq::empty(),
    }
}

/// Offers are whitelisted by the roots trusted for their kind: a record
/// whitelists an address exactly when it deploys an offer and was emitted by
/// a root trusted for that kind of offer (an auction root for an auction, a
/// direct-buy factory for a direct buy, a direct-sell factory for a direct
/// sell), and the address is then the deployed offer's. So two sets of
/// trusted roots that agree on the roots of the record's kind whitelist the
/// same, whatever they trust for the other kinds.
pub proof fn lemma_whitelist_by_kind(rec: ContractRecord, t1: TrustedAddresses, t2: TrustedAddresses)
    ensures
        whitelist_spec(rec, t1) is Some <==> (deploying_root(rec) matches Some(k) && t1.of_kind(k).contains(
            record_header(rec).address,
        )),
        whitelist_spec(rec, t1) matches Some(a) ==> a == deployed_offer(rec),
        (deploying_root(rec) matches Some(k) ==> t1.of_kind(k) == t2.of_kind(k)) ==> whitelist_spec(rec, t1)
            == whitelist_spec(rec, t2),
{
}

} // verus!
