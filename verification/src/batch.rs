//! The batching of decoded records by table before they are saved, and the
//! order in which the batches are saved.
use vstd::prelude::*;
use crate::context::DecodeError;
use crate::records::{
    AddressChanged, AddressChangedView, AuctionActiveRecord, AuctionActiveRecordView, AuctionBid,
    AuctionBidView, AuctionCancelledRecord, AuctionCancelledRecordView, AuctionCompleteRecord,
    AuctionCompleteRecordView, CollectionFee, CollectionFeeView, Decoded, DecodedView, DirectBuyRecord,
    DirectBuyRecordView, DirectSellRecord, DirectSellRecordView, EventRecord, EventRecordView,
    NftBurnedRecord, NftBurnedRecordView, NftCreatedRecord, NftCreatedRecordView, NftPriceHistory,
    NftPriceHistoryView,
};

verus! {

/// The records of one round of decoding, by the table that they go to.
pub struct Batches {
    /// The collection of each created NFT, with the time of the creation,
    /// for the queue of collections.
    pub collections_to_queue: Vec<(String, i64)>,
    pub nft_created: Vec<NftCreatedRecord>,
    pub nft_burned: Vec<NftBurnedRecord>,
    pub nft_owner_changed: Vec<AddressChanged>,
    pub nft_manager_changed: Vec<AddressChanged>,
    pub whitelist_insertion_addresses: Vec<String>,
    pub auc_active: Vec<AuctionActiveRecord>,
    pub prices: Vec<NftPriceHistory>,
    pub auc_bid_placed: Vec<AuctionBid>,
    pub auc_bid_declined: Vec<AuctionBid>,
    pub auc_complete: Vec<(AuctionCompleteRecord, NftPriceHistory)>,
    pub auc_cancelled: Vec<AuctionCancelledRecord>,
    pub raw_events: Vec<EventRecord>,
    pub auc_rules: Vec<CollectionFee>,
    pub dss: Vec<DirectSellRecord>,
    pub dbs: Vec<DirectBuyRecord>,
}

/// The view of `Batches`.
#[verifier::ext_equal]
pub struct BatchesView {
    pub collections_to_queue: Seq<(Seq<char>, i64)>,
    pub nft_created: Seq<NftCreatedRecordView>,
    pub nft_burned: Seq<NftBurnedRecordView>,
    pub nft_owner_changed: Seq<AddressChangedView>,
    pub nft_manager_changed: Seq<AddressChangedView>,
    pub whitelist_insertion_addresses: Seq<Seq<char>>,
    pub auc_active: Seq<AuctionActiveRecordView>,
    pub prices: Seq<NftPriceHistoryView>,
    pub auc_bid_placed: Seq<AuctionBidView>,
    pub auc_bid_declined: Seq<AuctionBidView>,
    pub auc_complete: Seq<(AuctionCompleteRecordView, NftPriceHistoryView)>,
    pub auc_cancelled: Seq<AuctionCancelledRecordView>,
    pub raw_events: Seq<EventRecordView>,
    pub auc_rules: Seq<CollectionFeeView>,
    pub dss: Seq<DirectSellRecordView>,
    pub dbs: Seq<DirectBuyRecordView>,
}

impl View for Batches {
    type V = BatchesView;

    open spec fn view(&self) -> BatchesView {
        BatchesView {
            collections_to_queue: self.collections_to_queue@.map_values(|p: (String, i64)| (p.0@, p.1)),
            nft_created: self.nft_created@.map_values(|r: NftCreatedRecord| r@),
            nft_burned: self.nft_burned@.map_values(|r: NftBurnedRecord| r@),
            nft_owner_changed: self.nft_owner_changed@.map_values(|r: AddressChanged| r@),
            nft_manager_changed: self.nft_manager_changed@.map_values(|r: AddressChanged| r@),
            whitelist_insertion_addresses: self.whitelist_insertion_addresses@.map_values(|s: String| s@),
            auc_active: self.auc_active@.map_values(|r: AuctionActiveRecord| r@),
            prices: self.prices@.map_values(|r: NftPriceHistory| r@),
            auc_bid_placed: self.auc_bid_placed@.map_values(|r: AuctionBid| r@),
            auc_bid_declined: self.auc_bid_declined@.map_values(|r: AuctionBid| r@),
            auc_complete: self.auc_complete@.map_values(
                |r: (AuctionCompleteRecord, NftPriceHistory)| (r.0@, r.1@),
            ),
            auc_cancelled: self.auc_cancelled@.map_values(|r: AuctionCancelledRecord| r@),
            raw_events: self.raw_events@.map_values(|r: EventRecord| r@),
            auc_rules: self.auc_rules@.map_values(|r: CollectionFee| r@),
            dss: self.dss@.map_values(|r: DirectSellRecord| r@),
            dbs: self.dbs@.map_values(|r: DirectBuyRecord| r@),
        }
    }
}

/// No batch holds anything.
pub open spec fn empty_batches() -> BatchesView {
    BatchesView {
        collections_to_queue: Seq::empty(),
        nft_created: Seq::empty(),
        nft_burned: Seq::empty(),
        nft_owner_changed: Seq::empty(),
        nft_manager_changed: Seq::empty(),
        whitelist_insertion_addresses: Seq::empty(),
        auc_active: Seq::empty(),
        prices: Seq::empty(),
        auc_bid_placed: Seq::empty(),
        auc_bid_declined: Seq::empty(),
        auc_complete: Seq::empty(),
        auc_cancelled: Seq::empty(),
        raw_events: Seq::empty(),
        auc_rules: Seq::empty(),
        dss: Seq::empty(),
        dbs: Seq::empty(),
    }
}

/// The batches once one more decoded record is put where it belongs: a
/// created NFT also queues its collection, an offer deployment whitelists
/// the offer, and a filled direct offer also goes to the price history;
/// what is skipped, and a royalty, goes nowhere.
pub open spec fn batch_step(b: BatchesView, d: DecodedView) -> BatchesView {
    match d {
        DecodedView::CreateNft(n) => BatchesView {
            collections_to_queue: b.collections_to_queue.push((n.collection, n.updated)),
            nft_created: b.nft_created.push(n),
            ..b
        },
        DecodedView::BurnNft(n) => BatchesView { nft_burned: b.nft_burned.push(n), ..b },
        DecodedView::OwnerChangedNft(a) => BatchesView { nft_owner_changed: b.nft_owner_changed.push(a), ..b },
        DecodedView::ManagerChangedNft(a) => BatchesView { nft_manager_changed: b.nft_manager_changed.push(a), ..b },
        DecodedView::ShouldSkip => b,
        DecodedView::AuctionDeployed(a) => BatchesView {
            whitelist_insertion_addresses: b.whitelist_insertion_addresses.push(a),
            ..b
        },
        DecodedView::AuctionActive(a) => BatchesView { auc_active: b.auc_active.push(a), ..b },
        DecodedView::AuctionBidPlaced(a) => BatchesView { auc_bid_placed: b.auc_bid_placed.push(a), ..b },
        DecodedView::AuctionBidDeclined(a) => BatchesView { auc_bid_declined: b.auc_bid_declined.push(a), ..b },
        DecodedView::AuctionComplete(a) => BatchesView { auc_complete: b.auc_complete.push(a), ..b },
        DecodedView::AuctionCancelled(a) => BatchesView { auc_cancelled: b.auc_cancelled.push(a), ..b },
        DecodedView::RawEventRecord(e) => BatchesView { raw_events: b.raw_events.push(e), ..b },
        DecodedView::AuctionRulesChanged(r) => BatchesView { auc_rules: b.auc_rules.push(r), ..b },
        DecodedView::DirectSellStateChanged((ds, price)) => BatchesView {
            dss: b.dss.push(ds),
            prices: match price {
                Some(p) => b.prices.push(p),
                None => b.prices,
            },
            ..b
        },
        DecodedView::DirectBuyStateChanged((db, price)) => BatchesView {
            dbs: b.dbs.push(db),
            prices: match price {
                Some(p) => b.prices.push(p),
                None => b.prices,
            },
            ..b
        },
        DecodedView::DirectSellDeployed((ds, _)) => BatchesView {
            whitelist_insertion_addresses: b.whitelist_insertion_addresses.push(ds.address),
            ..b
        },
        DecodedView::DirectBuyDeployed((db, _)) => BatchesView {
            whitelist_insertion_addresses: b.whitelist_insertion_addresses.push(db.address),
            ..b
        },
        DecodedView::RoyaltySet(_) => b,
    }
}

/// The batches of a sequence of decoded records, in order.
pub open spec fn batch_spec(s: Seq<DecodedView>) -> BatchesView
    decreases s.len(),
{
    if s.len() == 0 {
        empty_batches()
    } else {
        batch_step(batch_spec(s.drop_last()), s.last())
    }
}

impl Batches {
    /// No batch holds anything.
    pub fn new() -> (r: Batches)
        ensures
            r@ == empty_batches(),
    {
        let r = Batches {
            collections_to_queue: Vec::new(),
            nft_created: Vec::new(),
            nft_burned: Vec::new(),
            nft_owner_changed: Vec::new(),
            nft_manager_changed: Vec::new(),
            whitelist_insertion_addresses: Vec::new(),
            auc_active: Vec::new(),
            prices: Vec::new(),
            auc_bid_placed: Vec::new(),
            auc_bid_declined: Vec::new(),
            auc_complete: Vec::new(),
            auc_cancelled: Vec::new(),
            raw_events: Vec::new(),
            auc_rules: Vec::new(),
            dss: Vec::new(),
            dbs: Vec::new(),
        };
        proof {
            assert(r@ =~= empty_batches());
        }
        r
    }

    /// Puts one decoded record where it belongs.
    pub fn add(&mut self, element: Decoded)
        ensures
            final(self)@ == batch_step(old(self)@, element@),
    {
        let ghost before = self@;
        let ghost d = element@;
        match element {
            Decoded::CreateNft(nft) => {
                let c = nft.collection.clone();
                let t = nft.updated;
                self.collections_to_queue.push((c, t));
                self.nft_created.push(nft);
            },
            Decoded::BurnNft(nft) => self.nft_burned.push(nft),
            Decoded::OwnerChangedNft(a) => self.nft_owner_changed.push(a),
            Decoded::ManagerChangedNft(a) => self.nft_manager_changed.push(a),
            Decoded::ShouldSkip => {},
            Decoded::AuctionDeployed(a) => self.whitelist_insertion_addresses.push(a),
            Decoded::AuctionActive(a) => self.auc_active.push(a),
            Decoded::AuctionBidPlaced(a) => self.auc_bid_placed.push(a),
            Decoded::AuctionBidDeclined(a) => self.auc_bid_declined.push(a),
            Decoded::AuctionComplete(a) => self.auc_complete.push(a),
            Decoded::AuctionCancelled(a) => self.auc_cancelled.push(a),
            Decoded::RawEventRecord(e) => self.raw_events.push(e),
            Decoded::AuctionRulesChanged(r) => self.auc_rules.push(r),
            Decoded::DirectSellStateChanged((ds, price)) => {
                self.dss.push(ds);
                match price {
                    Some(p) => self.prices.push(p),
                    None => {},
                }
            },
            Decoded::DirectBuyStateChanged((db, price)) => {
                self.dbs.push(db);
                match price {
                    Some(p) => self.prices.push(p),
                    None => {},
                }
            },
            Decoded::DirectSellDeployed((ds, _)) => self.whitelist_insertion_addresses.push(ds.address),
            Decoded::DirectBuyDeployed((db, _)) => self.whitelist_insertion_addresses.push(db.address),
            Decoded::RoyaltySet(_) => {},
        }
        proof {
            assert(self@ =~= batch_step(before, d));
        }
    }
}

/// Sorts one round of decoded records into the batches of their tables,
/// each batch in the order of the records (the first part of saving a
/// round).
pub fn partition_decoded(data: Vec<Decoded>) -> (r: Batches)
    ensures
        r@ == batch_spec(data@.map_values(|d: Decoded| d@)),
{
    let mut b = Batches::new();
    let ghost all = data@;
    proof {
        assert(all.take(0).map_values(|d: Decoded| d@) =~= Seq::<DecodedView>::empty());
    }
    for element in it: data.into_iter()
        invariant
            it.seq() == all,
            b@ == batch_spec(all.take(it.index() as int).map_values(|d: Decoded| d@)),
    {
        let ghost i = it.index() as int;
        proof {
            assert(element == all[i]);
        }
        b.add(element);
        proof {
            let prefix = all.take(i).map_values(|d: Decoded| d@);
            let next = all.take(i + 1).map_values(|d: Decoded| d@);
            assert(next.drop_last() =~= prefix);
            assert(next.last() == all[i]@);
        }
    }
    proof {
        assert(all.take(all.len() as int) =~= all);
    }
    b
}

/// A save of a round, in the order in which the saves are made.
#[derive(Clone, Copy, PartialEq, Eq, Structural, Debug)]
pub enum SaveStep {
    RawEvents,
    NftCreated,
    NftBurned,
    NftOwnerChanged,
    NftManagerChanged,
    WhitelistAddresses,
    AuctionActive,
    PriceHistory,
    AuctionBids,
    AuctionMaxMin,
    AuctionBidsDeclined,
    AuctionComplete,
    AuctionCancelled,
    CollectionFee,
    DirectSellStateChanged,
    DirectBuyStateChanged,
}

/// Every save, in the order in which the saves of a round are made.
pub open spec fn all_steps() -> Seq<SaveStep> {
    seq![
        SaveStep::RawEvents,
        SaveStep::NftCreated,
        SaveStep::NftBurned,
        SaveStep::NftOwnerChanged,
        SaveStep::NftManagerChanged,
        SaveStep::WhitelistAddresses,
        SaveStep::AuctionActive,
        SaveStep::PriceHistory,
        SaveStep::AuctionBids,
        SaveStep::AuctionMaxMin,
        SaveStep::AuctionBidsDeclined,
        SaveStep::AuctionComplete,
        SaveStep::AuctionCancelled,
        SaveStep::CollectionFee,
        SaveStep::DirectSellStateChanged,
        SaveStep::DirectBuyStateChanged,
    ]
}

/// Whether a save is made: when its batch holds something (both saves of
/// bids placed go by the batch of bids placed).
pub open spec fn step_enabled(b: BatchesView, s: SaveStep) -> bool {
    match s {
        SaveStep::RawEvents => b.raw_events.len() > 0,
        SaveStep::NftCreated => b.nft_created.len() > 0,
        SaveStep::NftBurned => b.nft_burned.len() > 0,
        SaveStep::NftOwnerChanged => b.nft_owner_changed.len() > 0,
        SaveStep::NftManagerChanged => b.nft_manager_changed.len() > 0,
        SaveStep::WhitelistAddresses => b.whitelist_insertion_addresses.len() > 0,
        SaveStep::AuctionActive => b.auc_active.len() > 0,
        SaveStep::PriceHistory => b.prices.len() > 0,
        SaveStep::AuctionBids => b.auc_bid_placed.len() > 0,
        SaveStep::AuctionMaxMin => b.auc_bid_placed.len() > 0,
        SaveStep::AuctionBidsDeclined => b.auc_bid_declined.len() > 0,
        SaveStep::AuctionComplete => b.auc_complete.len() > 0,
        SaveStep::AuctionCancelled => b.auc_cancelled.len() > 0,
        SaveStep::CollectionFee => b.auc_rules.len() > 0,
        SaveStep::DirectSellStateChanged => b.dss.len() > 0,
        SaveStep::DirectBuyStateChanged => b.dbs.len() > 0,
    }
}

/// The saves of a set of batches, in order: those whose batch holds
/// something.
pub open spec fn save_plan(b: BatchesView) -> Seq<SaveStep> {
    all_steps().filter(|s: SaveStep| step_enabled(b, s))
}

impl Batches {
    /// Whether the save `s` is to be made.
    pub fn step_enabled(&self, s: SaveStep) -> (r: bool)
        ensures
            r == step_enabled(self@, s),
    {
        match s {
            SaveStep::RawEvents => self.raw_events.len() > 0,
            SaveStep::NftCreated => self.nft_created.len() > 0,
            SaveStep::NftBurned => self.nft_burned.len() > 0,
            SaveStep::NftOwnerChanged => self.nft_owner_changed.len() > 0,
            SaveStep::NftManagerChanged => self.nft_manager_changed.len() > 0,
            SaveStep::WhitelistAddresses => self.whitelist_insertion_addresses.len() > 0,
            SaveStep::AuctionActive => self.auc_active.len() > 0,
            SaveStep::PriceHistory => self.prices.len() > 0,
            SaveStep::AuctionBids => self.auc_bid_placed.len() > 0,
            SaveStep::AuctionMaxMin => self.auc_bid_placed.len() > 0,
            SaveStep::AuctionBidsDeclined => self.auc_bid_declined.len() > 0,
            SaveStep::AuctionComplete => self.auc_complete.len() > 0,
            SaveStep::AuctionCancelled => self.auc_cancelled.len() > 0,
            SaveStep::CollectionFee => self.auc_rules.len() > 0,
            SaveStep::DirectSellStateChanged => self.dss.len() > 0,
            SaveStep::DirectBuyStateChanged => self.dbs.len() > 0,
        }
    }

    /// The saves to make for these batches, in order (the second part of
    /// saving a round).
    pub fn save_plan(&self) -> (r: Vec<SaveStep>)
        ensures
            r@ == save_plan(self@),
    {
        let steps: [SaveStep; 16] = [
            SaveStep::RawEvents,
            SaveStep::NftCreated,
            SaveStep::NftBurned,
            SaveStep::NftOwnerChanged,
            SaveStep::NftManagerChanged,
            SaveStep::WhitelistAddresses,
            SaveStep::AuctionActive,
            SaveStep::PriceHistory,
            SaveStep::AuctionBids,
            SaveStep::AuctionMaxMin,
            SaveStep::AuctionBidsDeclined,
            SaveStep::AuctionComplete,
            SaveStep::AuctionCancelled,
            SaveStep::CollectionFee,
            SaveStep::DirectSellStateChanged,
            SaveStep::DirectBuyStateChanged,
        ];
        let ghost pred = |s: SaveStep| step_enabled(self@, s);
        proof {
            assert(steps@ =~= all_steps());
            assert(all_steps().take(0) =~= Seq::<SaveStep>::empty());
            reveal_with_fuel(Seq::<_>::filter, 1);
        }
        let mut plan: Vec<SaveStep> = Vec::new();
        let mut i: usize = 0;
        while i < 16
            invariant
                i <= 16,
                steps@ == all_steps(),
                pred == (|s: SaveStep| step_enabled(self@, s)),
                plan@ == all_steps().take(i as int).filter(pred),
            decreases 16 - i,
        {
            let s = steps[i];
            if self.step_enabled(s) {
                plan.push(s);
            }
            proof {
                assert(all_steps().take(i + 1).drop_last() =~= all_steps().take(i as int));
                reveal_with_fuel(Seq::<_>::filter, 1);
            }
            i = i + 1;
        }
        proof {
            assert(all_steps().take(16) =~= all_steps());
        }
        plan
    }
}

/// The records that a round of decoding keeps, in order: for each event,
/// its record where decoding it succeeded, then its raw record where that
/// succeeded.
pub open spec fn round_spec(results: Seq<(Result<Decoded, DecodeError>, Result<Decoded, DecodeError>)>) -> Seq<DecodedView>
    decreases results.len(),
{
    if results.len() == 0 {
        Seq::empty()
    } else {
        let r = results.last();
        round_spec(results.drop_last()) + (match r.0 {
            Ok(d) => seq![d@],
            Err(_) => seq![],
        }) + (match r.1 {
            Ok(e) => seq![e@],
            Err(_) => seq![],
        })
    }
}

/// Keeps the records of a round of decoding that succeeded, in order.
pub fn round_data(results: Vec<(Result<Decoded, DecodeError>, Result<Decoded, DecodeError>)>) -> (r: Vec<Decoded>)
    ensures
        r@.map_values(|d: Decoded| d@) == round_spec(results@),
{
    let ghost all = results@;
    let mut data: Vec<Decoded> = Vec::new();
    proof {
        assert(all.take(0) =~= Seq::<(Result<Decoded, DecodeError>, Result<Decoded, DecodeError>)>::empty());
        assert(data@.map_values(|d: Decoded| d@) =~= Seq::<DecodedView>::empty());
    }
    for item in it: results.into_iter()
        invariant
            it.seq() == all,
            data@.map_values(|d: Decoded| d@) == round_spec(all.take(it.index() as int)),
    {
        let ghost i = it.index() as int;
        let ghost before = data@.map_values(|d: Decoded| d@);
        proof {
            assert(item == all[i]);
            assert(all.take(i + 1).drop_last() =~= all.take(i));
            assert(all.take(i + 1).last() == all[i]);
        }
        let (decoded, raw) = item;
        let ghost mid: Seq<DecodedView> = match &decoded {
            Ok(d) => seq![d@],
            Err(_) => seq![],
        };
        match decoded {
            Ok(d) => data.push(d),
            Err(_) => {},
        }
        proof {
            assert(data@.map_values(|d: Decoded| d@) =~= before + mid);
        }
        let ghost after: Seq<DecodedView> = match &raw {
            Ok(e) => seq![e@],
            Err(_) => seq![],
        };
        match raw {
            Ok(e) => data.push(e),
            Err(_) => {},
        }
        proof {
            assert(data@.map_values(|d: Decoded| d@) =~= before + mid + after);
        }
    }
    proof {
        assert(all.take(all.len() as int) =~= all);
    }
    data
}

/// Whether a decoded record is stored: all but the skipped ones and
/// royalties.
pub open spec fn is_stored(d: DecodedView) -> bool {
    !(d is ShouldSkip || d is RoyaltySet)
}

/// The number of records in the batches of records (the queue of
/// collections and the price history, which records feed besides their own
/// batch, are not counted).
pub open spec fn batched_count(b: BatchesView) -> nat {
    b.nft_created.len() + b.nft_burned.len() + b.nft_owner_changed.len() + b.nft_manager_changed.len()
        + b.whitelist_insertion_addresses.len() + b.auc_active.len() + b.auc_bid_placed.len()
        + b.auc_bid_declined.len() + b.auc_complete.len() + b.auc_cancelled.len() + b.raw_events.len()
        + b.auc_rules.len() + b.dss.len() + b.dbs.len()
}

/// Each created NFT queues its collection: the queue of collections has one
/// entry for each created NFT, in the same order, with the NFT's collection
/// and time of update.
pub proof fn lemma_created_nfts_queue_collections(s: Seq<DecodedView>)
    ensures
        batch_spec(s).collections_to_queue.len() == batch_spec(s).nft_created.len(),
        forall|i: int| 0 <= i < batch_spec(s).nft_created.len() ==> #[trigger] batch_spec(s).collections_to_queue[i] == (
            batch_spec(s).nft_created[i].collection,
            batch_spec(s).nft_created[i].updated,
        ),
    decreases s.len(),
{
    if s.len() > 0 {
        lemma_created_nfts_queue_collections(s.drop_last());
    }
}

/// Every stored record lands in exactly one batch of records: the batches
/// hold as many records as the round has records that are neither skipped
/// nor royalties.
pub proof fn lemma_batched_count(s: Seq<DecodedView>)
    ensures
        batched_count(batch_spec(s)) == s.filter(|d: DecodedView| is_stored(d)).len(),
    decreases s.len(),
{
    reveal_with_fuel(Seq::<_>::filter, 1);
    if s.len() > 0 {
        lemma_batched_count(s.drop_last());
    }
}

/// A round whose records are all skipped or royalties saves nothing.
pub proof fn lemma_skipped_round_saves_nothing(s: Seq<DecodedView>)
    requires
        forall|i: int| 0 <= i < s.len() ==> !is_stored(#[trigger] s[i]),
    ensures
        batch_spec(s) == empty_batches(),
        save_plan(batch_spec(s)) == Seq::<SaveStep>::empty(),
    decreases s.len(),
{
    if s.len() > 0 {
        assert forall|i: int| 0 <= i < s.drop_last().len() implies !is_stored(#[trigger] s.drop_last()[i]) by {
            assert(s.drop_last()[i] == s[i]);
        }
        lemma_skipped_round_saves_nothing(s.drop_last());
        assert(!is_stored(s[s.len() - 1]));
    }
    let b = batch_spec(s);
    assert forall|i: int| 0 <= i < all_steps().len() implies !step_enabled(b, #[trigger] all_steps()[i]) by {}
    lemma_filter_none(all_steps(), |st: SaveStep| step_enabled(b, st));
}

/// Filtering out every element leaves nothing.
proof fn lemma_filter_none(s: Seq<SaveStep>, f: spec_fn(SaveStep) -> bool)
    requires
        forall|i: int| 0 <= i < s.len() ==> !f(#[trigger] s[i]),
    ensures
        s.filter(f) == Seq::<SaveStep>::empty(),
    decreases s.len(),
{
    reveal_with_fuel(Seq::<_>::filter, 1);
    if s.len() > 0 {
        assert forall|i: int| 0 <= i < s.drop_last().len() implies !f(#[trigger] s.drop_last()[i]) by {
            assert(s.drop_last()[i] == s[i]);
        }
        lemma_filter_none(s.drop_last(), f);
        assert(!f(s[s.len() - 1]));
    }
    assert(s.filter(f) =~= Seq::<SaveStep>::empty());
}

/// The sale that a decoded record carries, if any: the price-history entry
/// of a direct offer's state change.
pub open spec fn carried_sale(d: DecodedView) -> Option<NftPriceHistoryView> {
    match d {
        DecodedView::DirectSellStateChanged((_, p)) => p,
        DecodedView::DirectBuyStateChanged((_, p)) => p,
        _ => None,
    }
}

/// The price history of a round holds every sale that its records carry,
/// in order, and nothing else: one entry for each state change of a direct
/// sell or a direct buy that carries one.
pub proof fn lemma_prices_batch_holds_the_sales(s: Seq<DecodedView>)
    ensures
        batch_spec(s).prices == s.filter(|d: DecodedView| carried_sale(d) is Some).map_values(
            |d: DecodedView| carried_sale(d)->0,
        ),
    decreases s.len(),
{
    reveal_with_fuel(Seq::<_>::filter, 1);
    if s.len() > 0 {
        lemma_prices_batch_holds_the_sales(s.drop_last());
        let f = |d: DecodedView| carried_sale(d) is Some;
        let g = |d: DecodedView| carried_sale(d)->0;
        let prev = s.drop_last().filter(f);
        if f(s.last()) {
            assert(s.filter(f) == prev.push(s.last()));
            assert(prev.push(s.last()).map_values(g) =~= prev.map_values(g).push(g(s.last())));
        } else {
            assert(s.filter(f) == prev);
        }
    }
}

/// Every state change of a direct sell lands in the batch of direct sells,
/// and every state change of a direct buy in that of direct buys.
pub proof fn lemma_offer_changes_batched(s: Seq<DecodedView>)
    ensures
        batch_spec(s).dss.len() == s.filter(|d: DecodedView| d is DirectSellStateChanged).len(),
        batch_spec(s).dbs.len() == s.filter(|d: DecodedView| d is DirectBuyStateChanged).len(),
    decreases s.len(),
{
    reveal_with_fuel(Seq::<_>::filter, 1);
    if s.len() > 0 {
        lemma_offer_changes_batched(s.drop_last());
    }
}

/// The record of a `CreateNft`, if the decoded record is one.
pub open spec fn nft_created_of(d: DecodedView) -> Option<NftCreatedRecordView> {
    match d {
        DecodedView::CreateNft(x) => Some(x),
        _ => None,
    }
}

/// The batch of the created NFTs holds exactly those of the round, in order.
pub proof fn lemma_nft_created_batch(s: Seq<DecodedView>)
    ensures
        batch_spec(s).nft_created == s.filter(|d: DecodedView| nft_created_of(d) is Some).map_values(
            |d: DecodedView| nft_created_of(d)->0,
        ),
    decreases s.len(),
{
    reveal_with_fuel(Seq::<_>::filter, 1);
    if s.len() > 0 {
        lemma_nft_created_batch(s.drop_last());
        let f = |d: DecodedView| nft_created_of(d) is Some;
        let g = |d: DecodedView| nft_created_of(d)->0;
        let prev = s.drop_last().filter(f);
        if f(s.last()) {
            assert(s.filter(f) == prev.push(s.last()));
            assert(prev.push(s.last()).map_values(g) =~= prev.map_values(g).push(g(s.last())));
        } else {
            assert(s.filter(f) == prev);
        }
    }
}

/// The record of a `BurnNft`, if the decoded record is one.
pub open spec fn nft_burned_of(d: DecodedView) -> Option<NftBurnedRecordView> {
    match d {
        DecodedView::BurnNft(x) => Some(x),
        _ => None,
    }
}

/// The batch of the burned NFTs holds exactly those of the round, in order.
pub proof fn lemma_nft_burned_batch(s: Seq<DecodedView>)
    ensures
        batch_spec(s).nft_burned == s.filter(|d: DecodedView| nft_burned_of(d) is Some).map_values(
            |d: DecodedView| nft_burned_of(d)->0,
        ),
    decreases s.len(),
{
    reveal_with_fuel(Seq::<_>::filter, 1);
    if s.len() > 0 {
        lemma_nft_burned_batch(s.drop_last());
        let f = |d: DecodedView| nft_burned_of(d) is Some;
        let g = |d: DecodedView| nft_burned_of(d)->0;
        let prev = s.drop_last().filter(f);
        if f(s.last()) {
            assert(s.filter(f) == prev.push(s.last()));
            assert(prev.push(s.last()).map_values(g) =~= prev.map_values(g).push(g(s.last())));
        } else {
            assert(s.filter(f) == prev);
        }
    }
}

/// The record of a `OwnerChangedNft`, if the decoded record is one.
pub open spec fn nft_owner_changed_of(d: DecodedView) -> Option<AddressChangedView> {
    match d {
        DecodedView::OwnerChangedNft(x) => Some(x),
        _ => None,
    }
}

/// The batch of the changes of owner holds exactly those of the round, in order.
pub proof fn lemma_nft_owner_changed_batch(s: Seq<DecodedView>)
    ensures
        batch_spec(s).nft_owner_changed == s.filter(|d: DecodedView| nft_owner_changed_of(d) is Some).map_values(
            |d: DecodedView| nft_owner_changed_of(d)->0,
        ),
    decreases s.len(),
{
    reveal_with_fuel(Seq::<_>::filter, 1);
    if s.len() > 0 {
        lemma_nft_owner_changed_batch(s.drop_last());
        let f = |d: DecodedView| nft_owner_changed_of(d) is Some;
        let g = |d: DecodedView| nft_owner_changed_of(d)->0;
        let prev = s.drop_last().filter(f);
        if f(s.last()) {
            assert(s.filter(f) == prev.push(s.last()));
            assert(prev.push(s.last()).map_values(g) =~= prev.map_values(g).push(g(s.last())));
        } else {
            assert(s.filter(f) == prev);
        }
    }
}

/// The record of a `ManagerChangedNft`, if the decoded record is one.
pub open spec fn nft_manager_changed_of(d: DecodedView) -> Option<AddressChangedView> {
    match d {
        DecodedView::ManagerChangedNft(x) => Some(x),
        _ => None,
    }
}

/// The batch of the changes of manager holds exactly those of the round, in order.
pub proof fn lemma_nft_manager_changed_batch(s: Seq<DecodedView>)
    ensures
        batch_spec(s).nft_manager_changed == s.filter(|d: DecodedView| nft_manager_changed_of(d) is Some).map_values(
            |d: DecodedView| nft_manager_changed_of(d)->0,
        ),
    decreases s.len(),
{
    reveal_with_fuel(Seq::<_>::filter, 1);
    if s.len() > 0 {
        lemma_nft_manager_changed_batch(s.drop_last());
        let f = |d: DecodedView| nft_manager_changed_of(d) is Some;
        let g = |d: DecodedView| nft_manager_changed_of(d)->0;
        let prev = s.drop_last().filter(f);
        if f(s.last()) {
            assert(s.filter(f) == prev.push(s.last()));
            assert(prev.push(s.last()).map_values(g) =~= prev.map_values(g).push(g(s.last())));
        } else {
            assert(s.filter(f) == prev);
        }
    }
}

/// The record of a `AuctionActive`, if the decoded record is one.
pub open spec fn auc_active_of(d: DecodedView) -> Option<AuctionActiveRecordView> {
    match d {
        DecodedView::AuctionActive(x) => Some(x),
        _ => None,
    }
}

/// The batch of the auctions that became active holds exactly those of the round, in order.
pub proof fn lemma_auc_active_batch(s: Seq<DecodedView>)
    ensures
        batch_spec(s).auc_active == s.filter(|d: DecodedView| auc_active_of(d) is Some).map_values(
            |d: DecodedView| auc_active_of(d)->0,
        ),
    decreases s.len(),
{
    reveal_with_fuel(Seq::<_>::filter, 1);
    if s.len() > 0 {
        lemma_auc_active_batch(s.drop_last());
        let f = |d: DecodedView| auc_active_of(d) is Some;
        let g = |d: DecodedView| auc_active_of(d)->0;
        let prev = s.drop_last().filter(f);
        if f(s.last()) {
            assert(s.filter(f) == prev.push(s.last()));
            assert(prev.push(s.last()).map_values(g) =~= prev.map_values(g).push(g(s.last())));
        } else {
            assert(s.filter(f) == prev);
        }
    }
}

/// The record of a `AuctionBidPlaced`, if the decoded record is one.
pub open spec fn auc_bid_placed_of(d: DecodedView) -> Option<AuctionBidView> {
    match d {
        DecodedView::AuctionBidPlaced(x) => Some(x),
        _ => None,
    }
}

/// The batch of the bids placed holds exactly those of the round, in order.
pub proof fn lemma_auc_bid_placed_batch(s: Seq<DecodedView>)
    ensures
        batch_spec(s).auc_bid_placed == s.filter(|d: DecodedView| auc_bid_placed_of(d) is Some).map_values(
            |d: DecodedView| auc_bid_placed_of(d)->0,
        ),
    decreases s.len(),
{
    reveal_with_fuel(Seq::<_>::filter, 1);
    if s.len() > 0 {
        lemma_auc_bid_placed_batch(s.drop_last());
        let f = |d: DecodedView| auc_bid_placed_of(d) is Some;
        let g = |d: DecodedView| auc_bid_placed_of(d)->0;
        let prev = s.drop_last().filter(f);
        if f(s.last()) {
            assert(s.filter(f) == prev.push(s.last()));
            assert(prev.push(s.last()).map_values(g) =~= prev.map_values(g).push(g(s.last())));
        } else {
            assert(s.filter(f) == prev);
        }
    }
}

/// The record of a `AuctionBidDeclined`, if the decoded record is one.
pub open spec fn auc_bid_declined_of(d: DecodedView) -> Option<AuctionBidView> {
    match d {
        DecodedView::AuctionBidDeclined(x) => Some(x),
        _ => None,
    }
}

/// The batch of the bids declined holds exactly those of the round, in order.
pub proof fn lemma_auc_bid_declined_batch(s: Seq<DecodedView>)
    ensures
        batch_spec(s).auc_bid_declined == s.filter(|d: DecodedView| auc_bid_declined_of(d) is Some).map_values(
            |d: DecodedView| auc_bid_declined_of(d)->0,
        ),
    decreases s.len(),
{
    reveal_with_fuel(Seq::<_>::filter, 1);
    if s.len() > 0 {
        lemma_auc_bid_declined_batch(s.drop_last());
        let f = |d: DecodedView| auc_bid_declined_of(d) is Some;
        let g = |d: DecodedView| auc_bid_declined_of(d)->0;
        let prev = s.drop_last().filter(f);
        if f(s.last()) {
            assert(s.filter(f) == prev.push(s.last()));
            assert(prev.push(s.last()).map_values(g) =~= prev.map_values(g).push(g(s.last())));
        } else {
            assert(s.filter(f) == prev);
        }
    }
}

/// The record of a `AuctionCancelled`, if the decoded record is one.
pub open spec fn auc_cancelled_of(d: DecodedView) -> Option<AuctionCancelledRecordView> {
    match d {
        DecodedView::AuctionCancelled(x) => Some(x),
        _ => None,
    }
}

/// The batch of the cancelled auctions holds exactly those of the round, in order.
pub proof fn lemma_auc_cancelled_batch(s: Seq<DecodedView>)
    ensures
        batch_spec(s).auc_cancelled == s.filter(|d: DecodedView| auc_cancelled_of(d) is Some).map_values(
            |d: DecodedView| auc_cancelled_of(d)->0,
        ),
    decreases s.len(),
{
    reveal_with_fuel(Seq::<_>::filter, 1);
    if s.len() > 0 {
        lemma_auc_cancelled_batch(s.drop_last());
        let f = |d: DecodedView| auc_cancelled_of(d) is Some;
        let g = |d: DecodedView| auc_cancelled_of(d)->0;
        let prev = s.drop_last().filter(f);
        if f(s.last()) {
            assert(s.filter(f) == prev.push(s.last()));
            assert(prev.push(s.last()).map_values(g) =~= prev.map_values(g).push(g(s.last())));
        } else {
            assert(s.filter(f) == prev);
        }
    }
}

/// The record of a `RawEventRecord`, if the decoded record is one.
pub open spec fn raw_events_of(d: DecodedView) -> Option<EventRecordView> {
    match d {
        DecodedView::RawEventRecord(x) => Some(x),
        _ => None,
    }
}

/// The batch of the raw events holds exactly those of the round, in order.
pub proof fn lemma_raw_events_batch(s: Seq<DecodedView>)
    ensures
        batch_spec(s).raw_events == s.filter(|d: DecodedView| raw_events_of(d) is Some).map_values(
            |d: DecodedView| raw_events_of(d)->0,
        ),
    decreases s.len(),
{
    reveal_with_fuel(Seq::<_>::filter, 1);
    if s.len() > 0 {
        lemma_raw_events_batch(s.drop_last());
        let f = |d: DecodedView| raw_events_of(d) is Some;
        let g = |d: DecodedView| raw_events_of(d)->0;
        let prev = s.drop_last().filter(f);
        if f(s.last()) {
            assert(s.filter(f) == prev.push(s.last()));
            assert(prev.push(s.last()).map_values(g) =~= prev.map_values(g).push(g(s.last())));
        } else {
            assert(s.filter(f) == prev);
        }
    }
}

/// The record of a `AuctionRulesChanged`, if the decoded record is one.
pub open spec fn auc_rules_of(d: DecodedView) -> Option<CollectionFeeView> {
    match d {
        DecodedView::AuctionRulesChanged(x) => Some(x),
        _ => None,
    }
}

/// The batch of the changes of collection fees holds exactly those of the round, in order.
pub proof fn lemma_auc_rules_batch(s: Seq<DecodedView>)
    ensures
        batch_spec(s).auc_rules == s.filter(|d: DecodedView| auc_rules_of(d) is Some).map_values(
            |d: DecodedView| auc_rules_of(d)->0,
        ),
    decreases s.len(),
{
    reveal_with_fuel(Seq::<_>::filter, 1);
    if s.len() > 0 {
        lemma_auc_rules_batch(s.drop_last());
        let f = |d: DecodedView| auc_rules_of(d) is Some;
        let g = |d: DecodedView| auc_rules_of(d)->0;
        let prev = s.drop_last().filter(f);
        if f(s.last()) {
            assert(s.filter(f) == prev.push(s.last()));
            assert(prev.push(s.last()).map_values(g) =~= prev.map_values(g).push(g(s.last())));
        } else {
            assert(s.filter(f) == prev);
        }
    }
}

/// What the batch `dss` takes of a decoded record, if anything.
pub open spec fn dss_of(d: DecodedView) -> Option<DirectSellRecordView> {
    match d {
        DecodedView::DirectSellStateChanged((ds, _)) => Some(ds),
        _ => None,
    }
}

/// The batch of direct sells holds the offer record of every state change
/// of a direct sell in the round, in order, and nothing else.
pub proof fn lemma_dss_batch(s: Seq<DecodedView>)
    ensures
        batch_spec(s).dss == s.filter(|d: DecodedView| dss_of(d) is Some).map_values(
            |d: DecodedView| dss_of(d)->0,
        ),
    decreases s.len(),
{
    reveal_with_fuel(Seq::<_>::filter, 1);
    if s.len() > 0 {
        lemma_dss_batch(s.drop_last());
        let f = |d: DecodedView| dss_of(d) is Some;
        let g = |d: DecodedView| dss_of(d)->0;
        let prev = s.drop_last().filter(f);
        if f(s.last()) {
            assert(s.filter(f) == prev.push(s.last()));
            assert(prev.push(s.last()).map_values(g) =~= prev.map_values(g).push(g(s.last())));
        } else {
            assert(s.filter(f) == prev);
        }
    }
}

/// What the batch `dbs` takes of a decoded record, if anything.
pub open spec fn dbs_of(d: DecodedView) -> Option<DirectBuyRecordView> {
    match d {
        DecodedView::DirectBuyStateChanged((db, _)) => Some(db),
        _ => None,
    }
}

/// The batch of direct buys holds the offer record of every state change
/// of a direct buy in the round, in order, and nothing else.
pub proof fn lemma_dbs_batch(s: Seq<DecodedView>)
    ensures
        batch_spec(s).dbs == s.filter(|d: DecodedView| dbs_of(d) is Some).map_values(
            |d: DecodedView| dbs_of(d)->0,
        ),
    decreases s.len(),
{
    reveal_with_fuel(Seq::<_>::filter, 1);
    if s.len() > 0 {
        lemma_dbs_batch(s.drop_last());
        let f = |d: DecodedView| dbs_of(d) is Some;
        let g = |d: DecodedView| dbs_of(d)->0;
        let prev = s.drop_last().filter(f);
        if f(s.last()) {
            assert(s.filter(f) == prev.push(s.last()));
            assert(prev.push(s.last()).map_values(g) =~= prev.map_values(g).push(g(s.last())));
        } else {
            assert(s.filter(f) == prev);
        }
    }
}

/// What the batch `auc_complete` takes of a decoded record, if anything.
pub open spec fn auc_complete_of(d: DecodedView) -> Option<(AuctionCompleteRecordView, NftPriceHistoryView)> {
    match d {
        DecodedView::AuctionComplete(a) => Some(a),
        _ => None,
    }
}

/// The batch of completed auctions holds every completed auction of the
/// round with its sale, in order, and nothing else.
pub proof fn lemma_auc_complete_batch(s: Seq<DecodedView>)
    ensures
        batch_spec(s).auc_complete == s.filter(|d: DecodedView| auc_complete_of(d) is Some).map_values(
            |d: DecodedView| auc_complete_of(d)->0,
        ),
    decreases s.len(),
{
    reveal_with_fuel(Seq::<_>::filter, 1);
    if s.len() > 0 {
        lemma_auc_complete_batch(s.drop_last());
        let f = |d: DecodedView| auc_complete_of(d) is Some;
        let g = |d: DecodedView| auc_complete_of(d)->0;
        let prev = s.drop_last().filter(f);
        if f(s.last()) {
            assert(s.filter(f) == prev.push(s.last()));
            assert(prev.push(s.last()).map_values(g) =~= prev.map_values(g).push(g(s.last())));
        } else {
            assert(s.filter(f) == prev);
        }
    }
}

/// What the batch `whitelist_insertion_addresses` takes of a decoded record, if anything.
pub open spec fn whitelist_insertion_addresses_of(d: DecodedView) -> Option<Seq<char>> {
    match d {
        DecodedView::AuctionDeployed(a) => Some(a),
        DecodedView::DirectSellDeployed((ds, _)) => Some(ds.address),
        DecodedView::DirectBuyDeployed((db, _)) => Some(db.address),
        _ => None,
    }
}

/// The addresses to whitelist are those of every auction, direct sell and
/// direct buy deployed in the round, in order, and nothing else.
pub proof fn lemma_whitelist_insertion_addresses_batch(s: Seq<DecodedView>)
    ensures
        batch_spec(s).whitelist_insertion_addresses == s.filter(|d: DecodedView| whitelist_insertion_addresses_of(d) is Some).map_values(
            |d: DecodedView| whitelist_insertion_addresses_of(d)->0,
        ),
    decreases s.len(),
{
    reveal_with_fuel(Seq::<_>::filter, 1);
    if s.len() > 0 {
        lemma_whitelist_insertion_addresses_batch(s.drop_last());
        let f = |d: DecodedView| whitelist_insertion_addresses_of(d) is Some;
        let g = |d: DecodedView| whitelist_insertion_addresses_of(d)->0;
        let prev = s.drop_last().filter(f);
        if f(s.last()) {
            assert(s.filter(f) == prev.push(s.last()));
            assert(prev.push(s.last()).map_values(g) =~= prev.map_values(g).push(g(s.last())));
        } else {
            assert(s.filter(f) == prev);
        }
    }
}

} // verus!
