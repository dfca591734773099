//! The events that the indexer extracts from transactions, and the choice,
//! by an event's name, of the structure that it is unpacked into.
use vstd::prelude::*;
use crate::text::str_eq;

verus! {

/// The names of the events that the indexer extracts, in order.
pub open spec fn event_names() -> Seq<Seq<char>> {
    seq![
        "AuctionDeployed"@,
        "AuctionDeclined"@,
        "AuctionCreated"@,
        "AuctionActive"@,
        "BidPlaced"@,
        "BidDeclined"@,
        "AuctionComplete"@,
        "AuctionCancelled"@,
        "NftCreated"@,
        "NftBurned"@,
        "DirectBuyStateChanged"@,
        "DirectSellStateChanged"@,
        "DirectBuyDeployed"@,
        "DirectBuyDeclined"@,
        "DirectSellDeployed"@,
        "DirectSellDeclined"@,
        "ManagerChanged"@,
        "OwnerChanged"@,
        "NftMetadataUpdated"@,
        "CollectionMetadataUpdated"@,
        "MetadataUpdated"@,
        "OwnershipTransferred"@,
        "MarketFeeDefaultChanged"@,
        "MarketFeeChanged"@,
        "AddCollectionRules"@,
        "RemoveCollectionRules"@

    ]
}

/// The events that the indexer extracts, by name.
pub fn events() -> (r: Vec<&'static str>)
    ensures
        r@.map_values(|s: &str| s@) == event_names(),
{
    let mut v: Vec<&'static str> = Vec::new();
    // FactoryAuction
    v.push("AuctionDeployed");
    v.push("AuctionDeclined");
    // Auction
    v.push("AuctionCreated");
    v.push("AuctionActive");
    v.push("BidPlaced");
    v.push("BidDeclined");
    v.push("AuctionComplete");
    v.push("AuctionCancelled");
    // Collection
    v.push("NftCreated");
    v.push("NftBurned");
    // DirectBuy
    v.push("DirectBuyStateChanged");
    // DirectSell
    v.push("DirectSellStateChanged");
    // FactoryDirectBuy
    v.push("DirectBuyDeployed");
    v.push("DirectBuyDeclined");
    // FactoryDirectSell
    v.push("DirectSellDeployed");
    v.push("DirectSellDeclined");
    // Nft
    v.push("ManagerChanged");
    v.push("OwnerChanged");
    // Collection 4.2.2
    v.push("NftMetadataUpdated");
    v.push("CollectionMetadataUpdated");
    // Nft 4.2.2
    v.push("MetadataUpdated");
    // common for all contracts
    v.push("OwnershipTransferred");
    v.push("MarketFeeDefaultChanged");
    v.push("MarketFeeChanged");
    v.push("AddCollectionRules");
    v.push("RemoveCollectionRules");
    proof {
        assert(v@.map_values(|s: &str| s@) =~= event_names());
    }
    v
}

/// The functions whose inputs the indexer extracts: none.
pub fn functions() -> (r: Vec<&'static str>)
    ensures
        r@.len() == 0,
{
    Vec::new()
}

/// The events that have a structure of their own to be unpacked into.
#[derive(Clone, Copy, PartialEq, Eq, Structural, Debug)]
pub enum EventKind {
    AuctionDeployed,
    AuctionDeclined,
    AuctionCreated,
    AuctionActive,
    BidPlaced,
    BidDeclined,
    AuctionComplete,
    AuctionCancelled,
    NftCreated,
    NftBurned,
    DirectBuyStateChanged,
    DirectSellStateChanged,
    DirectBuyDeployed,
    DirectBuyDeclined,
    DirectSellDeployed,
    DirectSellDeclined,
    ManagerChanged,
    OwnerChanged,
    OwnershipTransferred,
    MarketFeeDefaultChanged,
    MarketFeeChanged,
    AddCollectionRules,
    RemoveCollectionRules,
}

/// The name under which an event of each kind is emitted.
pub open spec fn kind_name(k: EventKind) -> Seq<char> {
    match k {
        EventKind::AuctionDeployed => "AuctionDeployed"@,
        EventKind::AuctionDeclined => "AuctionDeclined"@,
        EventKind::AuctionCreated => "AuctionCreated"@,
        EventKind::AuctionActive => "AuctionActive"@,
        EventKind::BidPlaced => "BidPlaced"@,
        EventKind::BidDeclined => "BidDeclined"@,
        EventKind::AuctionComplete => "AuctionComplete"@,
        EventKind::AuctionCancelled => "AuctionCancelled"@,
        EventKind::NftCreated => "NftCreated"@,
        EventKind::NftBurned => "NftBurned"@,
        EventKind::DirectBuyStateChanged => "DirectBuyStateChanged"@,
        EventKind::DirectSellStateChanged => "DirectSellStateChanged"@,
        EventKind::DirectBuyDeployed => "DirectBuyDeployed"@,
        EventKind::DirectBuyDeclined => "DirectBuyDeclined"@,
        EventKind::DirectSellDeployed => "DirectSellDeployed"@,
        EventKind::DirectSellDeclined => "DirectSellDeclined"@,
        EventKind::ManagerChanged => "ManagerChanged"@,
        EventKind::OwnerChanged => "OwnerChanged"@,
        EventKind::OwnershipTransferred => "OwnershipTransferred"@,
        EventKind::MarketFeeDefaultChanged => "MarketFeeDefaultChanged"@,
        EventKind::MarketFeeChanged => "MarketFeeChanged"@,
        EventKind::AddCollectionRules => "AddCollectionRules"@,
        EventKind::RemoveCollectionRules => "RemoveCollectionRules"@,
    }
}

/// The kind whose name is `name`, if any.
pub open spec fn kind_of_name(name: Seq<char>) -> Option<EventKind> {

    if name == "AuctionDeployed"@ {
        Some(EventKind::AuctionDeployed)
    }
     else if name == "AuctionDeclined"@ {
        Some(EventKind::AuctionDeclined)
    }
     else if name == "AuctionCreated"@ {
        Some(EventKind::AuctionCreated)
    }
     else if name == "AuctionActive"@ {
        Some(EventKind::AuctionActive)
    }
     else if name == "BidPlaced"@ {
        Some(EventKind::BidPlaced)
    }
     else if name == "BidDeclined"@ {
        Some(EventKind::BidDeclined)
    }
     else if name == "AuctionComplete"@ {
        Some(EventKind::AuctionComplete)
    }
     else if name == "AuctionCancelled"@ {
        Some(EventKind::AuctionCancelled)
    }
     else if name == "NftCreated"@ {
        Some(EventKind::NftCreated)
    }
     else if name == "NftBurned"@ {
        Some(EventKind::NftBurned)
    }
     else if name == "DirectBuyStateChanged"@ {
        Some(EventKind::DirectBuyStateChanged)
    }
     else if name == "DirectSellStateChanged"@ {
        Some(EventKind::DirectSellStateChanged)
    }
     else if name == "DirectBuyDeployed"@ {
        Some(EventKind::DirectBuyDeployed)
    }
     else if name == "DirectBuyDeclined"@ {
        Some(EventKind::DirectBuyDeclined)
    }
     else if name == "DirectSellDeployed"@ {
        Some(EventKind::DirectSellDeployed)
    }
     else if name == "DirectSellDeclined"@ {
        Some(EventKind::DirectSellDeclined)
    }
     else if name == "ManagerChanged"@ {
        Some(EventKind::ManagerChanged)
    }
     else if name == "OwnerChanged"@ {
        Some(EventKind::OwnerChanged)
    }
     else if name == "OwnershipTransferred"@ {
        Some(EventKind::OwnershipTransferred)
    }
     else if name == "MarketFeeDefaultChanged"@ {
        Some(EventKind::MarketFeeDefaultChanged)
    }
     else if name == "MarketFeeChanged"@ {
        Some(EventKind::MarketFeeChanged)
    }
     else if name == "AddCollectionRules"@ {
        Some(EventKind::AddCollectionRules)
    }
     else if name == "RemoveCollectionRules"@ {
        Some(EventKind::RemoveCollectionRules)
    }
 else {
        None
    }
}

/// The name of an event kind.
pub fn kind_to_name(k: EventKind) -> (r: &'static str)
    ensures
        r@ == kind_name(k),
{
    match k {
        EventKind::AuctionDeployed => "AuctionDeployed",
        EventKind::AuctionDeclined => "AuctionDeclined",
        EventKind::AuctionCreated => "AuctionCreated",
        EventKind::AuctionActive => "AuctionActive",
        EventKind::BidPlaced => "BidPlaced",
        EventKind::BidDeclined => "BidDeclined",
        EventKind::AuctionComplete => "AuctionComplete",
        EventKind::AuctionCancelled => "AuctionCancelled",
        EventKind::NftCreated => "NftCreated",
        EventKind::NftBurned => "NftBurned",
        EventKind::DirectBuyStateChanged => "DirectBuyStateChanged",
        EventKind::DirectSellStateChanged => "DirectSellStateChanged",
        EventKind::DirectBuyDeployed => "DirectBuyDeployed",
        EventKind::DirectBuyDeclined => "DirectBuyDeclined",
        EventKind::DirectSellDeployed => "DirectSellDeployed",
        EventKind::DirectSellDeclined => "DirectSellDeclined",
        EventKind::ManagerChanged => "ManagerChanged",
        EventKind::OwnerChanged => "OwnerChanged",
        EventKind::OwnershipTransferred => "OwnershipTransferred",
        EventKind::MarketFeeDefaultChanged => "MarketFeeDefaultChanged",
        EventKind::MarketFeeChanged => "MarketFeeChanged",
        EventKind::AddCollectionRules => "AddCollectionRules",
        EventKind::RemoveCollectionRules => "RemoveCollectionRules",
    }
}

/// The structure that an event named `name` is unpacked into, or `None`
/// for an event that the indexer does not unpack.
pub fn entity_kind(name: &str) -> (r: Option<EventKind>)
    ensures
        r == kind_of_name(name@),
{
    if str_eq(name, "AuctionDeployed") {
        return Some(EventKind::AuctionDeployed);
    }
    if str_eq(name, "AuctionDeclined") {
        return Some(EventKind::AuctionDeclined);
    }
    if str_eq(name, "AuctionCreated") {
        return Some(EventKind::AuctionCreated);
    }
    if str_eq(name, "AuctionActive") {
        return Some(EventKind::AuctionActive);
    }
    if str_eq(name, "BidPlaced") {
        return Some(EventKind::BidPlaced);
    }
    if str_eq(name, "BidDeclined") {
        return Some(EventKind::BidDeclined);
    }
    if str_eq(name, "AuctionComplete") {
        return Some(EventKind::AuctionComplete);
    }
    if str_eq(name, "AuctionCancelled") {
        return Some(EventKind::AuctionCancelled);
    }
    if str_eq(name, "NftCreated") {
        return Some(EventKind::NftCreated);
    }
    if str_eq(name, "NftBurned") {
        return Some(EventKind::NftBurned);
    }
    if str_eq(name, "DirectBuyStateChanged") {
        return Some(EventKind::DirectBuyStateChanged);
    }
    if str_eq(name, "DirectSellStateChanged") {
        return Some(EventKind::DirectSellStateChanged);
    }
    if str_eq(name, "DirectBuyDeployed") {
        return Some(EventKind::DirectBuyDeployed);
    }
    if str_eq(name, "DirectBuyDeclined") {
        return Some(EventKind::DirectBuyDeclined);
    }
    if str_eq(name, "DirectSellDeployed") {
        return Some(EventKind::DirectSellDeployed);
    }
    if str_eq(name, "DirectSellDeclined") {
        return Some(EventKind::DirectSellDeclined);
    }
    if str_eq(name, "ManagerChanged") {
        return Some(EventKind::ManagerChanged);
    }
    if str_eq(name, "OwnerChanged") {
        return Some(EventKind::OwnerChanged);
    }
    if str_eq(name, "OwnershipTransferred") {
        return Some(EventKind::OwnershipTransferred);
    }
    if str_eq(name, "MarketFeeDefaultChanged") {
        return Some(EventKind::MarketFeeDefaultChanged);
    }
    if str_eq(name, "MarketFeeChanged") {
        return Some(EventKind::MarketFeeChanged);
    }
    if str_eq(name, "AddCollectionRules") {
        return Some(EventKind::AddCollectionRules);
    }
    if str_eq(name, "RemoveCollectionRules") {
        return Some(EventKind::RemoveCollectionRules);
    }
    None
}

/// Every event that is unpacked is one that the indexer extracts.
pub proof fn lemma_unpacked_events_are_extracted(k: EventKind)
    ensures
        event_names().contains(kind_name(k)),
{
    let names = event_names();
    match k {
        EventKind::AuctionDeployed => {
            assert(names[0] == kind_name(k));
        },
        EventKind::AuctionDeclined => {
            assert(names[1] == kind_name(k));
        },
        EventKind::AuctionCreated => {
            assert(names[2] == kind_name(k));
        },
        EventKind::AuctionActive => {
            assert(names[3] == kind_name(k));
        },
        EventKind::BidPlaced => {
            assert(names[4] == kind_name(k));
        },
        EventKind::BidDeclined => {
            assert(names[5] == kind_name(k));
        },
        EventKind::AuctionComplete => {
            assert(names[6] == kind_name(k));
        },
        EventKind::AuctionCancelled => {
            assert(names[7] == kind_name(k));
        },
        EventKind::NftCreated => {
            assert(names[8] == kind_name(k));
        },
        EventKind::NftBurned => {
            assert(names[9] == kind_name(k));
        },
        EventKind::DirectBuyStateChanged => {
            assert(names[10] == kind_name(k));
        },
        EventKind::DirectSellStateChanged => {
            assert(names[11] == kind_name(k));
        },
        EventKind::DirectBuyDeployed => {
            assert(names[12] == kind_name(k));
        },
        EventKind::DirectBuyDeclined => {
            assert(names[13] == kind_name(k));
        },
        EventKind::DirectSellDeployed => {
            assert(names[14] == kind_name(k));
        },
        EventKind::DirectSellDeclined => {
            assert(names[15] == kind_name(k));
        },
        EventKind::ManagerChanged => {
            assert(names[16] == kind_name(k));
        },
        EventKind::OwnerChanged => {
            assert(names[17] == kind_name(k));
        },
        EventKind::OwnershipTransferred => {
            assert(names[21] == kind_name(k));
        },
        EventKind::MarketFeeDefaultChanged => {
            assert(names[22] == kind_name(k));
        },
        EventKind::MarketFeeChanged => {
            assert(names[23] == kind_name(k));
        },
        EventKind::AddCollectionRules => {
            assert(names[24] == kind_name(k));
        },
        EventKind::RemoveCollectionRules => {
            assert(names[25] == kind_name(k));
        },
    }
}

/// The name of each kind is unpacked into that kind.
pub proof fn lemma_kind_name_round_trip(k: EventKind)
    ensures
        kind_of_name(kind_name(k)) == Some(k),
{
    match k {
        EventKind::AuctionDeployed => {

        },
        EventKind::AuctionDeclined => {
            reveal_strlit("AuctionDeclined");
            reveal_strlit("AuctionDeployed");
            assert("AuctionDeployed"@[9] != "AuctionDeclined"@[9]);
        },
        EventKind::AuctionCreated => {
            reveal_strlit("AuctionCreated");
            reveal_strlit("AuctionDeployed");
            assert("AuctionDeployed"@.len() != "AuctionCreated"@.len());
            reveal_strlit("AuctionDeclined");
            assert("AuctionDeclined"@.len() != "AuctionCreated"@.len());
        },
        EventKind::AuctionActive => {
            reveal_strlit("AuctionActive");
            reveal_strlit("AuctionDeployed");
            assert("AuctionDeployed"@.len() != "AuctionActive"@.len());
            reveal_strlit("AuctionDeclined");
            assert("AuctionDeclined"@.len() != "AuctionActive"@.len());
            reveal_strlit("AuctionCreated");
            assert("AuctionCreated"@.len() != "AuctionActive"@.len());
        },
        EventKind::BidPlaced => {
            reveal_strlit("BidPlaced");
            reveal_strlit("AuctionDeployed");
            assert("AuctionDeployed"@.len() != "BidPlaced"@.len());
            reveal_strlit("AuctionDeclined");
            assert("AuctionDeclined"@.len() != "BidPlaced"@.len());
            reveal_strlit("AuctionCreated");
            assert("AuctionCreated"@.len() != "BidPlaced"@.len());
            reveal_strlit("AuctionActive");
            assert("AuctionActive"@.len() != "BidPlaced"@.len());
        },
        EventKind::BidDeclined => {
            reveal_strlit("BidDeclined");
            reveal_strlit("AuctionDeployed");
            assert("AuctionDeployed"@.len() != "BidDeclined"@.len());
            reveal_strlit("AuctionDeclined");
            assert("AuctionDeclined"@.len() != "BidDeclined"@.len());
            reveal_strlit("AuctionCreated");
            assert("AuctionCreated"@.len() != "BidDeclined"@.len());
            reveal_strlit("AuctionActive");
            assert("AuctionActive"@.len() != "BidDeclined"@.len());
            reveal_strlit("BidPlaced");
            assert("BidPlaced"@.len() != "BidDeclined"@.len());
        },
        EventKind::AuctionComplete => {
            reveal_strlit("AuctionComplete");
            reveal_strlit("AuctionDeployed");
            assert("AuctionDeployed"@[7] != "AuctionComplete"@[7]);
            reveal_strlit("AuctionDeclined");
            assert("AuctionDeclined"@[7] != "AuctionComplete"@[7]);
            reveal_strlit("AuctionCreated");
            assert("AuctionCreated"@.len() != "AuctionComplete"@.len());
            reveal_strlit("AuctionActive");
            assert("AuctionActive"@.len() != "AuctionComplete"@.len());
            reveal_strlit("BidPlaced");
            assert("BidPlaced"@.len() != "AuctionComplete"@.len());
            reveal_strlit("BidDeclined");
            assert("BidDeclined"@.len() != "AuctionComplete"@.len());
        },
        EventKind::AuctionCancelled => {
            reveal_strlit("AuctionCancelled");
            reveal_strlit("AuctionDeployed");
            assert("AuctionDeployed"@.len() != "AuctionCancelled"@.len());
            reveal_strlit("AuctionDeclined");
            assert("AuctionDeclined"@.len() != "AuctionCancelled"@.len());
            reveal_strlit("AuctionCreated");
            assert("AuctionCreated"@.len() != "AuctionCancelled"@.len());
            reveal_strlit("AuctionActive");
            assert("AuctionActive"@.len() != "AuctionCancelled"@.len());
            reveal_strlit("BidPlaced");
            assert("BidPlaced"@.len() != "AuctionCancelled"@.len());
            reveal_strlit("BidDeclined");
            assert("BidDeclined"@.len() != "AuctionCancelled"@.len());
            reveal_strlit("AuctionComplete");
            assert("AuctionComplete"@.len() != "AuctionCancelled"@.len());
        },
        EventKind::NftCreated => {
            reveal_strlit("NftCreated");
            reveal_strlit("AuctionDeployed");
            assert("AuctionDeployed"@.len() != "NftCreated"@.len());
            reveal_strlit("AuctionDeclined");
            assert("AuctionDeclined"@.len() != "NftCreated"@.len());
            reveal_strlit("AuctionCreated");
            assert("AuctionCreated"@.len() != "NftCreated"@.len());
            reveal_strlit("AuctionActive");
            assert("AuctionActive"@.len() != "NftCreated"@.len());
            reveal_strlit("BidPlaced");
            assert("BidPlaced"@.len() != "NftCreated"@.len());
            reveal_strlit("BidDeclined");
            assert("BidDeclined"@.len() != "NftCreated"@.len());
            reveal_strlit("AuctionComplete");
            assert("AuctionComplete"@.len() != "NftCreated"@.len());
            reveal_strlit("AuctionCancelled");
            assert("AuctionCancelled"@.len() != "NftCreated"@.len());
        },
        EventKind::NftBurned => {
            reveal_strlit("NftBurned");
            reveal_strlit("AuctionDeployed");
            assert("AuctionDeployed"@.len() != "NftBurned"@.len());
            reveal_strlit("AuctionDeclined");
            assert("AuctionDeclined"@.len() != "NftBurned"@.len());
            reveal_strlit("AuctionCreated");
            assert("AuctionCreated"@.len() != "NftBurned"@.len());
            reveal_strlit("AuctionActive");
            assert("AuctionActive"@.len() != "NftBurned"@.len());
            reveal_strlit("BidPlaced");
            assert("BidPlaced"@[0] != "NftBurned"@[0]);
            reveal_strlit("BidDeclined");
            assert("BidDeclined"@.len() != "NftBurned"@.len());
            reveal_strlit("AuctionComplete");
            assert("AuctionComplete"@.len() != "NftBurned"@.len());
            reveal_strlit("AuctionCancelled");
            assert("AuctionCancelled"@.len() != "NftBurned"@.len());
            reveal_strlit("NftCreated");
            assert("NftCreated"@.len() != "NftBurned"@.len());
        },
        EventKind::DirectBuyStateChanged => {
            reveal_strlit("DirectBuyStateChanged");
            reveal_strlit("AuctionDeployed");
            assert("AuctionDeployed"@.len() != "DirectBuyStateChanged"@.len());
            reveal_strlit("AuctionDeclined");
            assert("AuctionDeclined"@.len() != "DirectBuyStateChanged"@.len());
            reveal_strlit("AuctionCreated");
            assert("AuctionCreated"@.len() != "DirectBuyStateChanged"@.len());
            reveal_strlit("AuctionActive");
            assert("AuctionActive"@.len() != "DirectBuyStateChanged"@.len());
            reveal_strlit("BidPlaced");
            assert("BidPlaced"@.len() != "DirectBuyStateChanged"@.len());
            reveal_strlit("BidDeclined");
            assert("BidDeclined"@.len() != "DirectBuyStateChanged"@.len());
            reveal_strlit("AuctionComplete");
            assert("AuctionComplete"@.len() != "DirectBuyStateChanged"@.len());
            reveal_strlit("AuctionCancelled");
            assert("AuctionCancelled"@.len() != "DirectBuyStateChanged"@.len());
            reveal_strlit("NftCreated");
            assert("NftCreated"@.len() != "DirectBuyStateChanged"@.len());
            reveal_strlit("NftBurned");
            assert("NftBurned"@.len() != "DirectBuyStateChanged"@.len());
        },
        EventKind::DirectSellStateChanged => {
            reveal_strlit("DirectSellStateChanged");
            reveal_strlit("AuctionDeployed");
            assert("AuctionDeployed"@.len() != "DirectSellStateChanged"@.len());
            reveal_strlit("AuctionDeclined");
            assert("AuctionDeclined"@.len() != "DirectSellStateChanged"@.len());
            reveal_strlit("AuctionCreated");
            assert("AuctionCreated"@.len() != "DirectSellStateChanged"@.len());
            reveal_strlit("AuctionActive");
            assert("AuctionActive"@.len() != "DirectSellStateChanged"@.len());
            reveal_strlit("BidPlaced");
            assert("BidPlaced"@.len() != "DirectSellStateChanged"@.len());
            reveal_strlit("BidDeclined");
            assert("BidDeclined"@.len() != "DirectSellStateChanged"@.len());
            reveal_strlit("AuctionComplete");
            assert("AuctionComplete"@.len() != "DirectSellStateChanged"@.len());
            reveal_strlit("AuctionCancelled");
            assert("AuctionCancelled"@.len() != "DirectSellStateChanged"@.len());
            reveal_strlit("NftCreated");
            assert("NftCreated"@.len() != "DirectSellStateChanged"@.len());
            reveal_strlit("NftBurned");
            assert("NftBurned"@.len() != "DirectSellStateChanged"@.len());
            reveal_strlit("DirectBuyStateChanged");
            assert("DirectBuyStateChanged"@.len() != "DirectSellStateChanged"@.len());
        },
        EventKind::DirectBuyDeployed => {
            reveal_strlit("DirectBuyDeployed");
            reveal_strlit("AuctionDeployed");
            assert("AuctionDeployed"@.len() != "DirectBuyDeployed"@.len());
            reveal_strlit("AuctionDeclined");
            assert("AuctionDeclined"@.len() != "DirectBuyDeployed"@.len());
            reveal_strlit("AuctionCreated");
            assert("AuctionCreated"@.len() != "DirectBuyDeployed"@.len());
            reveal_strlit("AuctionActive");
            assert("AuctionActive"@.len() != "DirectBuyDeployed"@.len());
            reveal_strlit("BidPlaced");
            assert("BidPlaced"@.len() != "DirectBuyDeployed"@.len());
            reveal_strlit("BidDeclined");
            assert("BidDeclined"@.len() != "DirectBuyDeployed"@.len());
            reveal_strlit("AuctionComplete");
            assert("AuctionComplete"@.len() != "DirectBuyDeployed"@.len());
            reveal_strlit("AuctionCancelled");
            assert("AuctionCancelled"@.len() != "DirectBuyDeployed"@.len());
            reveal_strlit("NftCreated");
            assert("NftCreated"@.len() != "DirectBuyDeployed"@.len());
            reveal_strlit("NftBurned");
            assert("NftBurned"@.len() != "DirectBuyDeployed"@.len());
            reveal_strlit("DirectBuyStateChanged");
            assert("DirectBuyStateChanged"@.len() != "DirectBuyDeployed"@.len());
            reveal_strlit("DirectSellStateChanged");
            assert("DirectSellStateChanged"@.len() != "DirectBuyDeployed"@.len());
        },
        EventKind::DirectBuyDeclined => {
            reveal_strlit("DirectBuyDeclined");
            reveal_strlit("AuctionDeployed");
            assert("AuctionDeployed"@.len() != "DirectBuyDeclined"@.len());
            reveal_strlit("AuctionDeclined");
            assert("AuctionDeclined"@.len() != "DirectBuyDeclined"@.len());
            reveal_strlit("AuctionCreated");
            assert("AuctionCreated"@.len() != "DirectBuyDeclined"@.len());
            reveal_strlit("AuctionActive");
            assert("AuctionActive"@.len() != "DirectBuyDeclined"@.len());
            reveal_strlit("BidPlaced");
            assert("BidPlaced"@.len() != "DirectBuyDeclined"@.len());
            reveal_strlit("BidDeclined");
            assert("BidDeclined"@.len() != "DirectBuyDeclined"@.len());
            reveal_strlit("AuctionComplete");
            assert("AuctionComplete"@.len() != "DirectBuyDeclined"@.len());
            reveal_strlit("AuctionCancelled");
            assert("AuctionCancelled"@.len() != "DirectBuyDeclined"@.len());
            reveal_strlit("NftCreated");
            assert("NftCreated"@.len() != "DirectBuyDeclined"@.len());
            reveal_strlit("NftBurned");
            assert("NftBurned"@.len() != "DirectBuyDeclined"@.len());
            reveal_strlit("DirectBuyStateChanged");
            assert("DirectBuyStateChanged"@.len() != "DirectBuyDeclined"@.len());
            reveal_strlit("DirectSellStateChanged");
            assert("DirectSellStateChanged"@.len() != "DirectBuyDeclined"@.len());
            reveal_strlit("DirectBuyDeployed");
            assert("DirectBuyDeployed"@[11] != "DirectBuyDeclined"@[11]);
        },
        EventKind::DirectSellDeployed => {
            reveal_strlit("DirectSellDeployed");
            reveal_strlit("AuctionDeployed");
            assert("AuctionDeployed"@.len() != "DirectSellDeployed"@.len());
            reveal_strlit("AuctionDeclined");
            assert("AuctionDeclined"@.len() != "DirectSellDeployed"@.len());
            reveal_strlit("AuctionCreated");
            assert("AuctionCreated"@.len() != "DirectSellDeployed"@.len());
            reveal_strlit("AuctionActive");
            assert("AuctionActive"@.len() != "DirectSellDeployed"@.len());
            reveal_strlit("BidPlaced");
            assert("BidPlaced"@.len() != "DirectSellDeployed"@.len());
            reveal_strlit("BidDeclined");
            assert("BidDeclined"@.len() != "DirectSellDeployed"@.len());
            reveal_strlit("AuctionComplete");
            assert("AuctionComplete"@.len() != "DirectSellDeployed"@.len());
            reveal_strlit("AuctionCancelled");
            assert("AuctionCancelled"@.len() != "DirectSellDeployed"@.len());
            reveal_strlit("NftCreated");
            assert("NftCreated"@.len() != "DirectSellDeployed"@.len());
            reveal_strlit("NftBurned");
            assert("NftBurned"@.len() != "DirectSellDeployed"@.len());
            reveal_strlit("DirectBuyStateChanged");
            assert("DirectBuyStateChanged"@.len() != "DirectSellDeployed"@.len());
            reveal_strlit("DirectSellStateChanged");
            assert("DirectSellStateChanged"@.len() != "DirectSellDeployed"@.len());
            reveal_strlit("DirectBuyDeployed");
            assert("DirectBuyDeployed"@.len() != "DirectSellDeployed"@.len());
            reveal_strlit("DirectBuyDeclined");
            assert("DirectBuyDeclined"@.len() != "DirectSellDeployed"@.len());
        },
        EventKind::DirectSellDeclined => {
            reveal_strlit("DirectSellDeclined");
            reveal_strlit("AuctionDeployed");
            assert("AuctionDeployed"@.len() != "DirectSellDeclined"@.len());
            reveal_strlit("AuctionDeclined");
            assert("AuctionDeclined"@.len() != "DirectSellDeclined"@.len());
            reveal_strlit("AuctionCreated");
            assert("AuctionCreated"@.len() != "DirectSellDeclined"@.len());
            reveal_strlit("AuctionActive");
            assert("AuctionActive"@.len() != "DirectSellDeclined"@.len());
            reveal_strlit("BidPlaced");
            assert("BidPlaced"@.len() != "DirectSellDeclined"@.len());
            reveal_strlit("BidDeclined");
            assert("BidDeclined"@.len() != "DirectSellDeclined"@.len());
            reveal_strlit("AuctionComplete");
            assert("AuctionComplete"@.len() != "DirectSellDeclined"@.len());
            reveal_strlit("AuctionCancelled");
            assert("AuctionCancelled"@.len() != "DirectSellDeclined"@.len());
            reveal_strlit("NftCreated");
            assert("NftCreated"@.len() != "DirectSellDeclined"@.len());
            reveal_strlit("NftBurned");
            assert("NftBurned"@.len() != "DirectSellDeclined"@.len());
            reveal_strlit("DirectBuyStateChanged");
            assert("DirectBuyStateChanged"@.len() != "DirectSellDeclined"@.len());
            reveal_strlit("DirectSellStateChanged");
            assert("DirectSellStateChanged"@.len() != "DirectSellDeclined"@.len());
            reveal_strlit("DirectBuyDeployed");
            assert("DirectBuyDeployed"@.len() != "DirectSellDeclined"@.len());
            reveal_strlit("DirectBuyDeclined");
            assert("DirectBuyDeclined"@.len() != "DirectSellDeclined"@.len());
            reveal_strlit("DirectSellDeployed");
            assert("DirectSellDeployed"@[12] != "DirectSellDeclined"@[12]);
        },
        EventKind::ManagerChanged => {
            reveal_strlit("ManagerChanged");
            reveal_strlit("AuctionDeployed");
            assert("AuctionDeployed"@.len() != "ManagerChanged"@.len());
            reveal_strlit("AuctionDeclined");
            assert("AuctionDeclined"@.len() != "ManagerChanged"@.len());
            reveal_strlit("AuctionCreated");
            assert("AuctionCreated"@[0] != "ManagerChanged"@[0]);
            reveal_strlit("AuctionActive");
            assert("AuctionActive"@.len() != "ManagerChanged"@.len());
            reveal_strlit("BidPlaced");
            assert("BidPlaced"@.len() != "ManagerChanged"@.len());
            reveal_strlit("BidDeclined");
            assert("BidDeclined"@.len() != "ManagerChanged"@.len());
            reveal_strlit("AuctionComplete");
            assert("AuctionComplete"@.len() != "ManagerChanged"@.len());
            reveal_strlit("AuctionCancelled");
            assert("AuctionCancelled"@.len() != "ManagerChanged"@.len());
            reveal_strlit("NftCreated");
            assert("NftCreated"@.len() != "ManagerChanged"@.len());
            reveal_strlit("NftBurned");
            assert("NftBurned"@.len() != "ManagerChanged"@.len());
            reveal_strlit("DirectBuyStateChanged");
            assert("DirectBuyStateChanged"@.len() != "ManagerChanged"@.len());
            reveal_strlit("DirectSellStateChanged");
            assert("DirectSellStateChanged"@.len() != "ManagerChanged"@.len());
            reveal_strlit("DirectBuyDeployed");
            assert("DirectBuyDeployed"@.len() != "ManagerChanged"@.len());
            reveal_strlit("DirectBuyDeclined");
            assert("DirectBuyDeclined"@.len() != "ManagerChanged"@.len());
            reveal_strlit("DirectSellDeployed");
            assert("DirectSellDeployed"@.len() != "ManagerChanged"@.len());
            reveal_strlit("DirectSellDeclined");
            assert("DirectSellDeclined"@.len() != "ManagerChanged"@.len());
        },
        EventKind::OwnerChanged => {
            reveal_strlit("OwnerChanged");
            reveal_strlit("AuctionDeployed");
            assert("AuctionDeployed"@.len() != "OwnerChanged"@.len());
            reveal_strlit("AuctionDeclined");
            assert("AuctionDeclined"@.len() != "OwnerChanged"@.len());
            reveal_strlit("AuctionCreated");
            assert("AuctionCreated"@.len() != "OwnerChanged"@.len());
            reveal_strlit("AuctionActive");
            assert("AuctionActive"@.len() != "OwnerChanged"@.len());
            reveal_strlit("BidPlaced");
            assert("BidPlaced"@.len() != "OwnerChanged"@.len());
            reveal_strlit("BidDeclined");
            assert("BidDeclined"@.len() != "OwnerChanged"@.len());
            reveal_strlit("AuctionComplete");
            assert("AuctionComplete"@.len() != "OwnerChanged"@.len());
            reveal_strlit("AuctionCancelled");
            assert("AuctionCancelled"@.len() != "OwnerChanged"@.len());
            reveal_strlit("NftCreated");
            assert("NftCreated"@.len() != "OwnerChanged"@.len());
            reveal_strlit("NftBurned");
            assert("NftBurned"@.len() != "OwnerChanged"@.len());
            reveal_strlit("DirectBuyStateChanged");
            assert("DirectBuyStateChanged"@.len() != "OwnerChanged"@.len());
            reveal_strlit("DirectSellStateChanged");
            assert("DirectSellStateChanged"@.len() != "OwnerChanged"@.len());
            reveal_strlit("DirectBuyDeployed");
            assert("DirectBuyDeployed"@.len() != "OwnerChanged"@.len());
            reveal_strlit("DirectBuyDeclined");
            assert("DirectBuyDeclined"@.len() != "OwnerChanged"@.len());
            reveal_strlit("DirectSellDeployed");
            assert("DirectSellDeployed"@.len() != "OwnerChanged"@.len());
            reveal_strlit("DirectSellDeclined");
            assert("DirectSellDeclined"@.len() != "OwnerChanged"@.len());
            reveal_strlit("ManagerChanged");
            assert("ManagerChanged"@.len() != "OwnerChanged"@.len());
        },
        EventKind::OwnershipTransferred => {
            reveal_strlit("OwnershipTransferred");
            reveal_strlit("AuctionDeployed");
            assert("AuctionDeployed"@.len() != "OwnershipTransferred"@.len());
            reveal_strlit("AuctionDeclined");
            assert("AuctionDeclined"@.len() != "OwnershipTransferred"@.len());
            reveal_strlit("AuctionCreated");
            assert("AuctionCreated"@.len() != "OwnershipTransferred"@.len());
            reveal_strlit("AuctionActive");
            assert("AuctionActive"@.len() != "OwnershipTransferred"@.len());
            reveal_strlit("BidPlaced");
            assert("BidPlaced"@.len() != "OwnershipTransferred"@.len());
            reveal_strlit("BidDeclined");
            assert("BidDeclined"@.len() != "OwnershipTransferred"@.len());
            reveal_strlit("AuctionComplete");
            assert("AuctionComplete"@.len() != "OwnershipTransferred"@.len());
            reveal_strlit("AuctionCancelled");
            assert("AuctionCancelled"@.len() != "OwnershipTransferred"@.len());
            reveal_strlit("NftCreated");
            assert("NftCreated"@.len() != "OwnershipTransferred"@.len());
            reveal_strlit("NftBurned");
            assert("NftBurned"@.len() != "OwnershipTransferred"@.len());
            reveal_strlit("DirectBuyStateChanged");
            assert("DirectBuyStateChanged"@.len() != "OwnershipTransferred"@.len());
            reveal_strlit("DirectSellStateChanged");
            assert("DirectSellStateChanged"@.len() != "OwnershipTransferred"@.len());
            reveal_strlit("DirectBuyDeployed");
            assert("DirectBuyDeployed"@.len() != "OwnershipTransferred"@.len());
            reveal_strlit("DirectBuyDeclined");
            assert("DirectBuyDeclined"@.len() != "OwnershipTransferred"@.len());
            reveal_strlit("DirectSellDeployed");
            assert("DirectSellDeployed"@.len() != "OwnershipTransferred"@.len());
            reveal_strlit("DirectSellDeclined");
            assert("DirectSellDeclined"@.len() != "OwnershipTransferred"@.len());
            reveal_strlit("ManagerChanged");
            assert("ManagerChanged"@.len() != "OwnershipTransferred"@.len());
            reveal_strlit("OwnerChanged");
            assert("OwnerChanged"@.len() != "OwnershipTransferred"@.len());
        },
        EventKind::MarketFeeDefaultChanged => {
            reveal_strlit("MarketFeeDefaultChanged");
            reveal_strlit("AuctionDeployed");
            assert("AuctionDeployed"@.len() != "MarketFeeDefaultChanged"@.len());
            reveal_strlit("AuctionDeclined");
            assert("AuctionDeclined"@.len() != "MarketFeeDefaultChanged"@.len());
            reveal_strlit("AuctionCreated");
            assert("AuctionCreated"@.len() != "MarketFeeDefaultChanged"@.len());
            reveal_strlit("AuctionActive");
            assert("AuctionActive"@.len() != "MarketFeeDefaultChanged"@.len());
            reveal_strlit("BidPlaced");
            assert("BidPlaced"@.len() != "MarketFeeDefaultChanged"@.len());
            reveal_strlit("BidDeclined");
            assert("BidDeclined"@.len() != "MarketFeeDefaultChanged"@.len());
            reveal_strlit("AuctionComplete");
            assert("AuctionComplete"@.len() != "MarketFeeDefaultChanged"@.len());
            reveal_strlit("AuctionCancelled");
            assert("AuctionCancelled"@.len() != "MarketFeeDefaultChanged"@.len());
            reveal_strlit("NftCreated");
            assert("NftCreated"@.len() != "MarketFeeDefaultChanged"@.len());
            reveal_strlit("NftBurned");
            assert("NftBurned"@.len() != "MarketFeeDefaultChanged"@.len());
            reveal_strlit("DirectBuyStateChanged");
            assert("DirectBuyStateChanged"@.len() != "MarketFeeDefaultChanged"@.len());
            reveal_strlit("DirectSellStateChanged");
            assert("DirectSellStateChanged"@.len() != "MarketFeeDefaultChanged"@.len());
            reveal_strlit("DirectBuyDeployed");
            assert("DirectBuyDeployed"@.len() != "MarketFeeDefaultChanged"@.len());
            reveal_strlit("DirectBuyDeclined");
            assert("DirectBuyDeclined"@.len() != "MarketFeeDefaultChanged"@.len());
            reveal_strlit("DirectSellDeployed");
            assert("DirectSellDeployed"@.len() != "MarketFeeDefaultChanged"@.len());
            reveal_strlit("DirectSellDeclined");
            assert("DirectSellDeclined"@.len() != "MarketFeeDefaultChanged"@.len());
            reveal_strlit("ManagerChanged");
            assert("ManagerChanged"@.len() != "MarketFeeDefaultChanged"@.len());
            reveal_strlit("OwnerChanged");
            assert("OwnerChanged"@.len() != "MarketFeeDefaultChanged"@.len());
            reveal_strlit("OwnershipTransferred");
            assert("OwnershipTransferred"@.len() != "MarketFeeDefaultChanged"@.len());
        },
        EventKind::MarketFeeChanged => {
            reveal_strlit("MarketFeeChanged");
            reveal_strlit("AuctionDeployed");
            assert("AuctionDeployed"@.len() != "MarketFeeChanged"@.len());
            reveal_strlit("AuctionDeclined");
            assert("AuctionDeclined"@.len() != "MarketFeeChanged"@.len());
            reveal_strlit("AuctionCreated");
            assert("AuctionCreated"@.len() != "MarketFeeChanged"@.len());
            reveal_strlit("AuctionActive");
            assert("AuctionActive"@.len() != "MarketFeeChanged"@.len());
            reveal_strlit("BidPlaced");
            assert("BidPlaced"@.len() != "MarketFeeChanged"@.len());
            reveal_strlit("BidDeclined");
            assert("BidDeclined"@.len() != "MarketFeeChanged"@.len());
            reveal_strlit("AuctionComplete");
            assert("AuctionComplete"@.len() != "MarketFeeChanged"@.len());
            reveal_strlit("AuctionCancelled");
            assert("AuctionCancelled"@[0] != "MarketFeeChanged"@[0]);
            reveal_strlit("NftCreated");
            assert("NftCreated"@.len() != "MarketFeeChanged"@.len());
            reveal_strlit("NftBurned");
            assert("NftBurned"@.len() != "MarketFeeChanged"@.len());
            reveal_strlit("DirectBuyStateChanged");
            assert("DirectBuyStateChanged"@.len() != "MarketFeeChanged"@.len());
            reveal_strlit("DirectSellStateChanged");
            assert("DirectSellStateChanged"@.len() != "MarketFeeChanged"@.len());
            reveal_strlit("DirectBuyDeployed");
            assert("DirectBuyDeployed"@.len() != "MarketFeeChanged"@.len());
            reveal_strlit("DirectBuyDeclined");
            assert("DirectBuyDeclined"@.len() != "MarketFeeChanged"@.len());
            reveal_strlit("DirectSellDeployed");
            assert("DirectSellDeployed"@.len() != "MarketFeeChanged"@.len());
            reveal_strlit("DirectSellDeclined");
            assert("DirectSellDeclined"@.len() != "MarketFeeChanged"@.len());
            reveal_strlit("ManagerChanged");
            assert("ManagerChanged"@.len() != "MarketFeeChanged"@.len());
            reveal_strlit("OwnerChanged");
            assert("OwnerChanged"@.len() != "MarketFeeChanged"@.len());
            reveal_strlit("OwnershipTransferred");
            assert("OwnershipTransferred"@.len() != "MarketFeeChanged"@.len());
            reveal_strlit("MarketFeeDefaultChanged");
            assert("MarketFeeDefaultChanged"@.len() != "MarketFeeChanged"@.len());
        },
        EventKind::AddCollectionRules => {
            reveal_strlit("AddCollectionRules");
            reveal_strlit("AuctionDeployed");
            assert("AuctionDeployed"@.len() != "AddCollectionRules"@.len());
            reveal_strlit("AuctionDeclined");
            assert("AuctionDeclined"@.len() != "AddCollectionRules"@.len());
            reveal_strlit("AuctionCreated");
            assert("AuctionCreated"@.len() != "AddCollectionRules"@.len());
            reveal_strlit("AuctionActive");
            assert("AuctionActive"@.len() != "AddCollectionRules"@.len());
            reveal_strlit("BidPlaced");
            assert("BidPlaced"@.len() != "AddCollectionRules"@.len());
            reveal_strlit("BidDeclined");
            assert("BidDeclined"@.len() != "AddCollectionRules"@.len());
            reveal_strlit("AuctionComplete");
            assert("AuctionComplete"@.len() != "AddCollectionRules"@.len());
            reveal_strlit("AuctionCancelled");
            assert("AuctionCancelled"@.len() != "AddCollectionRules"@.len());
            reveal_strlit("NftCreated");
            assert("NftCreated"@.len() != "AddCollectionRules"@.len());
            reveal_strlit("NftBurned");
            assert("NftBurned"@.len() != "AddCollectionRules"@.len());
            reveal_strlit("DirectBuyStateChanged");
            assert("DirectBuyStateChanged"@.len() != "AddCollectionRules"@.len());
            reveal_strlit("DirectSellStateChanged");
            assert("DirectSellStateChanged"@.len() != "AddCollectionRules"@.len());
            reveal_strlit("DirectBuyDeployed");
            assert("DirectBuyDeployed"@.len() != "AddCollectionRules"@.len());
            reveal_strlit("DirectBuyDeclined");
            assert("DirectBuyDeclined"@.len() != "AddCollectionRules"@.len());
            reveal_strlit("DirectSellDeployed");
            assert("DirectSellDeployed"@[0] != "AddCollectionRules"@[0]);
            reveal_strlit("DirectSellDeclined");
            assert("DirectSellDeclined"@[0] != "AddCollectionRules"@[0]);
            reveal_strlit("ManagerChanged");
            assert("ManagerChanged"@.len() != "AddCollectionRules"@.len());
            reveal_strlit("OwnerChanged");
            assert("OwnerChanged"@.len() != "AddCollectionRules"@.len());
            reveal_strlit("OwnershipTransferred");
            assert("OwnershipTransferred"@.len() != "AddCollectionRules"@.len());
            reveal_strlit("MarketFeeDefaultChanged");
            assert("MarketFeeDefaultChanged"@.len() != "AddCollectionRules"@.len());
            reveal_strlit("MarketFeeChanged");
            assert("MarketFeeChanged"@.len() != "AddCollectionRules"@.len());
        },
        EventKind::RemoveCollectionRules => {
            reveal_strlit("RemoveCollectionRules");
            reveal_strlit("AuctionDeployed");
            assert("AuctionDeployed"@.len() != "RemoveCollectionRules"@.len());
            reveal_strlit("AuctionDeclined");
            assert("AuctionDeclined"@.len() != "RemoveCollectionRules"@.len());
            reveal_strlit("AuctionCreated");
            assert("AuctionCreated"@.len() != "RemoveCollectionRules"@.len());
            reveal_strlit("AuctionActive");
            assert("AuctionActive"@.len() != "RemoveCollectionRules"@.len());
            reveal_strlit("BidPlaced");
            assert("BidPlaced"@.len() != "RemoveCollectionRules"@.len());
            reveal_strlit("BidDeclined");
            assert("BidDeclined"@.len() != "RemoveCollectionRules"@.len());
            reveal_strlit("AuctionComplete");
            assert("AuctionComplete"@.len() != "RemoveCollectionRules"@.len());
            reveal_strlit("AuctionCancelled");
            assert("AuctionCancelled"@.len() != "RemoveCollectionRules"@.len());
            reveal_strlit("NftCreated");
            assert("NftCreated"@.len() != "RemoveCollectionRules"@.len());
            reveal_strlit("NftBurned");
            assert("NftBurned"@.len() != "RemoveCollectionRules"@.len());
            reveal_strlit("DirectBuyStateChanged");
            assert("DirectBuyStateChanged"@[0] != "RemoveCollectionRules"@[0]);
            reveal_strlit("DirectSellStateChanged");
            assert("DirectSellStateChanged"@.len() != "RemoveCollectionRules"@.len());
            reveal_strlit("DirectBuyDeployed");
            assert("DirectBuyDeployed"@.len() != "RemoveCollectionRules"@.len());
            reveal_strlit("DirectBuyDeclined");
            assert("DirectBuyDeclined"@.len() != "RemoveCollectionRules"@.len());
            reveal_strlit("DirectSellDeployed");
            assert("DirectSellDeployed"@.len() != "RemoveCollectionRules"@.len());
            reveal_strlit("DirectSellDeclined");
            assert("DirectSellDeclined"@.len() != "RemoveCollectionRules"@.len());
            reveal_strlit("ManagerChanged");
            assert("ManagerChanged"@.len() != "RemoveCollectionRules"@.len());
            reveal_strlit("OwnerChanged");
            assert("OwnerChanged"@.len() != "RemoveCollectionRules"@.len());
            reveal_strlit("OwnershipTransferred");
            assert("OwnershipTransferred"@.len() != "RemoveCollectionRules"@.len());
            reveal_strlit("MarketFeeDefaultChanged");
            assert("MarketFeeDefaultChanged"@.len() != "RemoveCollectionRules"@.len());
            reveal_strlit("MarketFeeChanged");
            assert("MarketFeeChanged"@.len() != "RemoveCollectionRules"@.len());
            reveal_strlit("AddCollectionRules");
            assert("AddCollectionRules"@.len() != "RemoveCollectionRules"@.len());
        },
    }
}

/// The events in scope that have no structure of their own and are not
/// unpacked: the updates of metadata.
pub open spec fn metadata_update_names() -> Seq<Seq<char>> {
    seq!["NftMetadataUpdated"@, "CollectionMetadataUpdated"@, "MetadataUpdated"@]
}

/// No update of metadata is unpacked.
proof fn lemma_metadata_updates_not_unpacked()
    ensures
        kind_of_name("NftMetadataUpdated"@) is None,
        kind_of_name("CollectionMetadataUpdated"@) is None,
        kind_of_name("MetadataUpdated"@) is None,
{
    reveal_strlit("NftMetadataUpdated");
    reveal_strlit("CollectionMetadataUpdated");
    reveal_strlit("MetadataUpdated");
    reveal_strlit("AuctionDeployed");
    reveal_strlit("AuctionDeclined");
    reveal_strlit("AuctionCreated");
    reveal_strlit("AuctionActive");
    reveal_strlit("BidPlaced");
    reveal_strlit("BidDeclined");
    reveal_strlit("AuctionComplete");
    reveal_strlit("AuctionCancelled");
    reveal_strlit("NftCreated");
    reveal_strlit("NftBurned");
    reveal_strlit("DirectBuyStateChanged");
    reveal_strlit("DirectSellStateChanged");
    reveal_strlit("DirectBuyDeployed");
    reveal_strlit("DirectBuyDeclined");
    reveal_strlit("DirectSellDeployed");
    reveal_strlit("DirectSellDeclined");
    reveal_strlit("ManagerChanged");
    reveal_strlit("OwnerChanged");
    reveal_strlit("OwnershipTransferred");
    reveal_strlit("MarketFeeDefaultChanged");
    reveal_strlit("MarketFeeChanged");
    reveal_strlit("AddCollectionRules");
    reveal_strlit("RemoveCollectionRules");
    assert("AuctionDeployed"@.len() != "NftMetadataUpdated"@.len());
    assert("AuctionDeclined"@.len() != "NftMetadataUpdated"@.len());
    assert("AuctionCreated"@.len() != "NftMetadataUpdated"@.len());
    assert("AuctionActive"@.len() != "NftMetadataUpdated"@.len());
    assert("BidPlaced"@.len() != "NftMetadataUpdated"@.len());
    assert("BidDeclined"@.len() != "NftMetadataUpdated"@.len());
    assert("AuctionComplete"@.len() != "NftMetadataUpdated"@.len());
    assert("AuctionCancelled"@.len() != "NftMetadataUpdated"@.len());
    assert("NftCreated"@.len() != "NftMetadataUpdated"@.len());
    assert("NftBurned"@.len() != "NftMetadataUpdated"@.len());
    assert("DirectBuyStateChanged"@.len() != "NftMetadataUpdated"@.len());
    assert("DirectSellStateChanged"@.len() != "NftMetadataUpdated"@.len());
    assert("DirectBuyDeployed"@.len() != "NftMetadataUpdated"@.len());
    assert("DirectBuyDeclined"@.len() != "NftMetadataUpdated"@.len());
    assert("DirectSellDeployed"@[0] != "NftMetadataUpdated"@[0]);
    assert("DirectSellDeclined"@[0] != "NftMetadataUpdated"@[0]);
    assert("ManagerChanged"@.len() != "NftMetadataUpdated"@.len());
    assert("OwnerChanged"@.len() != "NftMetadataUpdated"@.len());
    assert("OwnershipTransferred"@.len() != "NftMetadataUpdated"@.len());
    assert("MarketFeeDefaultChanged"@.len() != "NftMetadataUpdated"@.len());
    assert("MarketFeeChanged"@.len() != "NftMetadataUpdated"@.len());
    assert("AddCollectionRules"@[0] != "NftMetadataUpdated"@[0]);
    assert("RemoveCollectionRules"@.len() != "NftMetadataUpdated"@.len());
    assert("AuctionDeployed"@.len() != "CollectionMetadataUpdated"@.len());
    assert("AuctionDeclined"@.len() != "CollectionMetadataUpdated"@.len());
    assert("AuctionCreated"@.len() != "CollectionMetadataUpdated"@.len());
    assert("AuctionActive"@.len() != "CollectionMetadataUpdated"@.len());
    assert("BidPlaced"@.len() != "CollectionMetadataUpdated"@.len());
    assert("BidDeclined"@.len() != "CollectionMetadataUpdated"@.len());
    assert("AuctionComplete"@.len() != "CollectionMetadataUpdated"@.len());
    assert("AuctionCancelled"@.len() != "CollectionMetadataUpdated"@.len());
    assert("NftCreated"@.len() != "CollectionMetadataUpdated"@.len());
    assert("NftBurned"@.len() != "CollectionMetadataUpdated"@.len());
    assert("DirectBuyStateChanged"@.len() != "CollectionMetadataUpdated"@.len());
    assert("DirectSellStateChanged"@.len() != "CollectionMetadataUpdated"@.len());
    assert("DirectBuyDeployed"@.len() != "CollectionMetadataUpdated"@.len());
    assert("DirectBuyDeclined"@.len() != "CollectionMetadataUpdated"@.len());
    assert("DirectSellDeployed"@.len() != "CollectionMetadataUpdated"@.len());
    assert("DirectSellDeclined"@.len() != "CollectionMetadataUpdated"@.len());
    assert("ManagerChanged"@.len() != "CollectionMetadataUpdated"@.len());
    assert("OwnerChanged"@.len() != "CollectionMetadataUpdated"@.len());
    assert("OwnershipTransferred"@.len() != "CollectionMetadataUpdated"@.len());
    assert("MarketFeeDefaultChanged"@.len() != "CollectionMetadataUpdated"@.len());
    assert("MarketFeeChanged"@.len() != "CollectionMetadataUpdated"@.len());
    assert("AddCollectionRules"@.len() != "CollectionMetadataUpdated"@.len());
    assert("RemoveCollectionRules"@.len() != "CollectionMetadataUpdated"@.len());
    assert("AuctionDeployed"@[0] != "MetadataUpdated"@[0]);
    assert("AuctionDeclined"@[0] != "MetadataUpdated"@[0]);
    assert("AuctionCreated"@.len() != "MetadataUpdated"@.len());
    assert("AuctionActive"@.len() != "MetadataUpdated"@.len());
    assert("BidPlaced"@.len() != "MetadataUpdated"@.len());
    assert("BidDeclined"@.len() != "MetadataUpdated"@.len());
    assert("AuctionComplete"@[0] != "MetadataUpdated"@[0]);
    assert("AuctionCancelled"@.len() != "MetadataUpdated"@.len());
    assert("NftCreated"@.len() != "MetadataUpdated"@.len());
    assert("NftBurned"@.len() != "MetadataUpdated"@.len());
    assert("DirectBuyStateChanged"@.len() != "MetadataUpdated"@.len());
    assert("DirectSellStateChanged"@.len() != "MetadataUpdated"@.len());
    assert("DirectBuyDeployed"@.len() != "MetadataUpdated"@.len());
    assert("DirectBuyDeclined"@.len() != "MetadataUpdated"@.len());
    assert("DirectSellDeployed"@.len() != "MetadataUpdated"@.len());
    assert("DirectSellDeclined"@.len() != "MetadataUpdated"@.len());
    assert("ManagerChanged"@.len() != "MetadataUpdated"@.len());
    assert("OwnerChanged"@.len() != "MetadataUpdated"@.len());
    assert("OwnershipTransferred"@.len() != "MetadataUpdated"@.len());
    assert("MarketFeeDefaultChanged"@.len() != "MetadataUpdated"@.len());
    assert("MarketFeeChanged"@.len() != "MetadataUpdated"@.len());
    assert("AddCollectionRules"@.len() != "MetadataUpdated"@.len());
    assert("RemoveCollectionRules"@.len() != "MetadataUpdated"@.len());
}

/// The events that are unpacked are the events in scope but the updates of
/// metadata: a name is unpacked exactly when it is on the list of events and
/// is not one of the three updates of metadata, and it is unpacked into the
/// kind of that name.
pub proof fn lemma_scope_is_unpacked(name: Seq<char>)
    ensures
        kind_of_name(name) is Some <==> (event_names().contains(name) && !metadata_update_names().contains(name)),
        kind_of_name(name) matches Some(k) ==> kind_name(k) == name,
{
    let names = event_names();
    let meta = metadata_update_names();
    lemma_metadata_updates_not_unpacked();
    if names.contains(name) && !meta.contains(name) {
        let i = choose|i: int| 0 <= i < names.len() && names[i] == name;
        assert(names.len() == 26);
        assert(meta[0] == names[18] && meta[1] == names[19] && meta[2] == names[20]);
        assert(i != 18 && i != 19 && i != 20);
        assert(kind_of_name(name) is Some);
    }
    if kind_of_name(name) is Some {
        let k = kind_of_name(name)->0;
        assert(kind_name(k) == name);
        lemma_unpacked_events_are_extracted(k);
        if meta.contains(name) {
            let j = choose|j: int| 0 <= j < meta.len() && meta[j] == name;
            assert(j == 0 || j == 1 || j == 2);
        }
    }
}

} // verus!
