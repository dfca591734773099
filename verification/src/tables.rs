//! What a record of the event consumer writes to the database, as a plan of writes in one
//! transaction, and the machine that walks that plan: it hands out one
//! action at a time (a write, a question to the database, the save of the
//! event, a commit or a rollback) and takes the answer to it back.
use vstd::prelude::*;
use crate::contract_events::{Header, HeaderView};
use crate::decimal::Decimal;
use crate::json::{items_value, Json, JsonValue};
use crate::records::{DirectBuyState, DirectSellState, NftPriceSource};

verus! {

/// The status that a write gives an auction.
#[derive(Clone, Copy, PartialEq, Eq, Structural, Debug)]
pub enum AuctionState {
    Active,
    Completed,
    Cancelled,
}

/// The tables whose collection column is set from the NFT of a row.
#[derive(Clone, Copy, PartialEq, Eq, Structural, Debug)]
pub enum Table {
    NftEvents,
    NftDirectSell,
    NftDirectBuy,
    NftPriceHistory,
    NftAttributes,
}

/// The name of a table in the database.
pub open spec fn table_name(t: Table) -> Seq<char> {
    match t {
        Table::NftEvents => "nft_events"@,
        Table::NftDirectSell => "nft_direct_sell"@,
        Table::NftDirectBuy => "nft_direct_buy"@,
        Table::NftPriceHistory => "nft_price_history"@,
        Table::NftAttributes => "nft_attributes"@,
    }
}

impl Table {
    /// The name of the table in the database.
    pub fn name(&self) -> (r: &'static str)
        ensures
            r@ == table_name(*self),
    {
        match self {
            Table::NftEvents => "nft_events",
            Table::NftDirectSell => "nft_direct_sell",
            Table::NftDirectBuy => "nft_direct_buy",
            Table::NftPriceHistory => "nft_price_history",
            Table::NftAttributes => "nft_attributes",
        }
    }
}

/// A row of the NFT table; its name and description are left empty.
pub struct NftRow {
    pub address: String,
    pub collection: Option<String>,
    pub owner: Option<String>,
    pub manager: Option<String>,
    pub burned: bool,
    pub updated: i64,
    pub owner_update_lt: i64,
    pub manager_update_lt: i64,
}

/// The view of a `NftRow`.
pub struct NftRowView {
    pub address: Seq<char>,
    pub collection: Option<Seq<char>>,
    pub owner: Option<Seq<char>>,
    pub manager: Option<Seq<char>>,
    pub burned: bool,
    pub updated: i64,
    pub owner_update_lt: i64,
    pub manager_update_lt: i64,
}

impl View for NftRow {
    type V = NftRowView;

    open spec fn view(&self) -> NftRowView {
        NftRowView {
            address: self.address@,
            collection: self.collection.deep_view(),
            owner: self.owner.deep_view(),
            manager: self.manager.deep_view(),
            burned: self.burned,
            updated: self.updated,
            owner_update_lt: self.owner_update_lt,
            manager_update_lt: self.manager_update_lt,
        }
    }
}

/// A row of the auction table; a column left `None` keeps what the table
/// holds. The closing price in dollars is left empty.
pub struct AuctionRow {
    pub address: String,
    pub nft: Option<String>,
    pub wallet_for_bids: Option<String>,
    pub price_token: Option<String>,
    pub start_price: Option<Decimal>,
    pub min_bid: Option<Decimal>,
    pub max_bid: Option<Decimal>,
    pub status: Option<AuctionState>,
    pub created_at: Option<i64>,
    pub finished_at: Option<i64>,
    pub tx_lt: i64,
}

/// The view of an `AuctionRow`.
pub struct AuctionRowView {
    pub address: Seq<char>,
    pub nft: Option<Seq<char>>,
    pub wallet_for_bids: Option<Seq<char>>,
    pub price_token: Option<Seq<char>>,
    pub start_price: Option<(int, int)>,
    pub min_bid: Option<(int, int)>,
    pub max_bid: Option<(int, int)>,
    pub status: Option<AuctionState>,
    pub created_at: Option<i64>,
    pub finished_at: Option<i64>,
    pub tx_lt: i64,
}

/// The view of an optional decimal.
pub open spec fn opt_decimal(d: Option<Decimal>) -> Option<(int, int)> {
    match d {
        Some(x) => Some(x@),
        None => None,
    }
}

impl View for AuctionRow {
    type V = AuctionRowView;

    open spec fn view(&self) -> AuctionRowView {
        AuctionRowView {
            address: self.address@,
            nft: self.nft.deep_view(),
            wallet_for_bids: self.wallet_for_bids.deep_view(),
            price_token: self.price_token.deep_view(),
            start_price: opt_decimal(self.start_price),
            min_bid: opt_decimal(self.min_bid),
            max_bid: opt_decimal(self.max_bid),
            status: self.status,
            created_at: self.created_at,
            finished_at: self.finished_at,
            tx_lt: self.tx_lt,
        }
    }
}

/// A bid on an auction.
pub struct BidRow {
    pub auction: String,
    pub buyer: String,
    pub price: Decimal,
    pub next_bid_value: Option<Decimal>,
    pub declined: bool,
    pub created_at: i64,
    pub tx_lt: i64,
}

/// The view of a `BidRow`.
pub struct BidRowView {
    pub auction: Seq<char>,
    pub buyer: Seq<char>,
    pub price: (int, int),
    pub next_bid_value: Option<(int, int)>,
    pub declined: bool,
    pub created_at: i64,
    pub tx_lt: i64,
}

impl View for BidRow {
    type V = BidRowView;

    open spec fn view(&self) -> BidRowView {
        BidRowView {
            auction: self.auction@,
            buyer: self.buyer@,
            price: self.price@,
            next_bid_value: opt_decimal(self.next_bid_value),
            declined: self.declined,
            created_at: self.created_at,
            tx_lt: self.tx_lt,
        }
    }
}

/// A price in the price history of an NFT.
pub struct PriceRow {
    pub source: String,
    pub source_type: NftPriceSource,
    pub created_at: i64,
    pub price: Decimal,
    pub price_token: Option<String>,
    pub nft: Option<String>,
    pub collection: Option<String>,
}

/// The view of a `PriceRow`.
pub struct PriceRowView {
    pub source: Seq<char>,
    pub source_type: NftPriceSource,
    pub created_at: i64,
    pub price: (int, int),
    pub price_token: Option<Seq<char>>,
    pub nft: Option<Seq<char>>,
    pub collection: Option<Seq<char>>,
}

impl View for PriceRow {
    type V = PriceRowView;

    open spec fn view(&self) -> PriceRowView {
        PriceRowView {
            source: self.source@,
            source_type: self.source_type,
            created_at: self.created_at,
            price: self.price@,
            price_token: self.price_token.deep_view(),
            nft: self.nft.deep_view(),
            collection: self.collection.deep_view(),
        }
    }
}

/// A row of the direct-buy table; the price in dollars and the time of
/// filling are left empty.
pub struct DirectBuyRow {
    pub address: String,
    pub nft: String,
    pub collection: Option<String>,
    pub price_token: String,
    pub price: Decimal,
    pub buyer: String,
    pub expired_at: i64,
    pub state: DirectBuyState,
    pub created: i64,
    pub updated: i64,
    pub tx_lt: i64,
}

/// The view of a `DirectBuyRow`.
pub struct DirectBuyRowView {
    pub address: Seq<char>,
    pub nft: Seq<char>,
    pub collection: Option<Seq<char>>,
    pub price_token: Seq<char>,
    pub price: (int, int),
    pub buyer: Seq<char>,
    pub expired_at: i64,
    pub state: DirectBuyState,
    pub created: i64,
    pub updated: i64,
    pub tx_lt: i64,
}

impl View for DirectBuyRow {
    type V = DirectBuyRowView;

    open spec fn view(&self) -> DirectBuyRowView {
        DirectBuyRowView {
            address: self.address@,
            nft: self.nft@,
            collection: self.collection.deep_view(),
            price_token: self.price_token@,
            price: self.price@,
            buyer: self.buyer@,
            expired_at: self.expired_at,
            state: self.state,
            created: self.created,
            updated: self.updated,
            tx_lt: self.tx_lt,
        }
    }
}

/// A row of the direct-sell table; the price in dollars and the time of
/// filling are left empty.
pub struct DirectSellRow {
    pub address: String,
    pub nft: String,
    pub collection: Option<String>,
    pub price_token: String,
    pub price: Decimal,
    pub seller: String,
    pub expired_at: i64,
    pub state: DirectSellState,
    pub created: i64,
    pub updated: i64,
    pub tx_lt: i64,
}

/// The view of a `DirectSellRow`.
pub struct DirectSellRowView {
    pub address: Seq<char>,
    pub nft: Seq<char>,
    pub collection: Option<Seq<char>>,
    pub price_token: Seq<char>,
    pub price: (int, int),
    pub seller: Seq<char>,
    pub expired_at: i64,
    pub state: DirectSellState,
    pub created: i64,
    pub updated: i64,
    pub tx_lt: i64,
}

impl View for DirectSellRow {
    type V = DirectSellRowView;

    open spec fn view(&self) -> DirectSellRowView {
        DirectSellRowView {
            address: self.address@,
            nft: self.nft@,
            collection: self.collection.deep_view(),
            price_token: self.price_token@,
            price: self.price@,
            seller: self.seller@,
            expired_at: self.expired_at,
            state: self.state,
            created: self.created,
            updated: self.updated,
            tx_lt: self.tx_lt,
        }
    }
}

/// One write of a transaction.
pub enum Write {
    UpsertNft(NftRow),
    UpsertAuction(AuctionRow),
    InsertBid(BidRow),
    UpsertPriceHistory(PriceRow),
    /// Sets the NFT of the rows of `table` that the auction wrote.
    UpdateNftByAuction { table: Table, auction: String, nft: String },
    /// Sets the collection of the rows of `table` about the NFT.
    UpdateCollectionByNft { table: Table, nft: String, collection: String },
    /// Recounts the owners of the NFTs of a collection.
    RefreshOwnersCount(String),
    UpdateCollectionFee { numerator: Option<i32>, denominator: Option<i32>, collection: String },
    UpsertDirectBuy(DirectBuyRow),
    UpsertDirectSell(DirectSellRow),
    /// Writes the attributes of the metadata of the NFT, one row for each
    /// item of `items`, with its collection.
    UpsertNftAttributes { nft: String, collection: Option<String>, items: Vec<Json> },
}

/// The view of a `Write`.
pub enum WriteView {
    UpsertNft(NftRowView),
    UpsertAuction(AuctionRowView),
    InsertBid(BidRowView),
    UpsertPriceHistory(PriceRowView),
    UpdateNftByAuction { table: Table, auction: Seq<char>, nft: Seq<char> },
    UpdateCollectionByNft { table: Table, nft: Seq<char>, collection: Seq<char> },
    RefreshOwnersCount(Seq<char>),
    UpdateCollectionFee { numerator: Option<i32>, denominator: Option<i32>, collection: Seq<char> },
    UpsertDirectBuy(DirectBuyRowView),
    UpsertDirectSell(DirectSellRowView),
    UpsertNftAttributes { nft: Seq<char>, collection: Option<Seq<char>>, items: Seq<JsonValue> },
}

impl View for Write {
    type V = WriteView;

    open spec fn view(&self) -> WriteView {
        match self {
            Write::UpsertNft(r) => WriteView::UpsertNft(r@),
            Write::UpsertAuction(r) => WriteView::UpsertAuction(r@),
            Write::InsertBid(r) => WriteView::InsertBid(r@),
            Write::UpsertPriceHistory(r) => WriteView::UpsertPriceHistory(r@),
            Write::UpdateNftByAuction { table, auction, nft } => WriteView::UpdateNftByAuction {
                table: *table,
                auction: auction@,
                nft: nft@,
            },
            Write::UpdateCollectionByNft { table, nft, collection } => WriteView::UpdateCollectionByNft {
                table: *table,
                nft: nft@,
                collection: collection@,
            },
            Write::RefreshOwnersCount(c) => WriteView::RefreshOwnersCount(c@),
            Write::UpdateCollectionFee { numerator, denominator, collection } => WriteView::UpdateCollectionFee {
                numerator: *numerator,
                denominator: *denominator,
                collection: collection@,
            },
            Write::UpsertDirectBuy(r) => WriteView::UpsertDirectBuy(r@),
            Write::UpsertDirectSell(r) => WriteView::UpsertDirectSell(r@),
            Write::UpsertNftAttributes { nft, collection, items } => WriteView::UpsertNftAttributes {
                nft: nft@,
                collection: collection.deep_view(),
                items: items_value(items@),
            },
        }
    }
}

/// The views of a sequence of writes.
pub open spec fn writes_view(ws: Seq<Write>) -> Seq<WriteView> {
    ws.map_values(|w: Write| w@)
}

/// Makes sure that a collection is known: unless `always`, the database is
/// asked whether it has the collection, and where it has not (or always),
/// the data of the collection is fetched and written, with `created` as its
/// creation time where it is given.
pub struct CollectionCheck {
    pub collection: String,
    pub always: bool,
    pub created: Option<i64>,
}

/// The view of a `CollectionCheck`.
pub struct CollectionCheckView {
    pub collection: Seq<char>,
    pub always: bool,
    pub created: Option<i64>,
}

impl View for CollectionCheck {
    type V = CollectionCheckView;

    open spec fn view(&self) -> CollectionCheckView {
        CollectionCheckView { collection: self.collection@, always: self.always, created: self.created }
    }
}

/// What a record does in its transaction: unless it is skipped, the writes
/// `before`, the check of a collection, the writes `middle`, the save of the
/// event with `header`, and, once the save wrote a row, the writes `after`.
pub struct TxPlan {
    pub skip: bool,
    pub before: Vec<Write>,
    pub check: Option<CollectionCheck>,
    pub middle: Vec<Write>,
    pub header: Header,
    pub after: Vec<Write>,
}

/// The view of a `TxPlan`.
pub struct TxPlanView {
    pub skip: bool,
    pub before: Seq<WriteView>,
    pub check: Option<CollectionCheckView>,
    pub middle: Seq<WriteView>,
    pub header: HeaderView,
    pub after: Seq<WriteView>,
}

impl View for TxPlan {
    type V = TxPlanView;

    open spec fn view(&self) -> TxPlanView {
        TxPlanView {
            skip: self.skip,
            before: writes_view(self.before@),
            check: match self.check {
                Some(c) => Some(c@),
                None => None,
            },
            middle: writes_view(self.middle@),
            header: self.header@,
            after: writes_view(self.after@),
        }
    }
}

/// One instruction of the script of a plan.
pub enum Instr {
    Write(Write),
    Check(CollectionCheck),
    Save(Header),
    Commit,
}

/// The view of an `Instr`.
pub enum InstrView {
    Write(WriteView),
    Check(CollectionCheckView),
    Save(HeaderView),
    Commit,
}

impl View for Instr {
    type V = InstrView;

    open spec fn view(&self) -> InstrView {
        match self {
            Instr::Write(w) => InstrView::Write(w@),
            Instr::Check(c) => InstrView::Check(c@),
            Instr::Save(h) => InstrView::Save(h@),
            Instr::Commit => InstrView::Commit,
        }
    }
}

/// The script of a plan: the writes before the check, the check where there
/// is one, the writes in the middle, the save, the writes after, and the
/// commit.
pub open spec fn script_view(p: TxPlanView) -> Seq<InstrView> {
    p.before.map_values(|w: WriteView| InstrView::Write(w))
        + (match p.check {
        Some(c) => seq![InstrView::Check(c)],
        None => Seq::empty(),
    }) + p.middle.map_values(|w: WriteView| InstrView::Write(w)) + seq![InstrView::Save(p.header)]
        + p.after.map_values(|w: WriteView| InstrView::Write(w)) + seq![InstrView::Commit]
}

/// The views of a script.
pub open spec fn instrs_view(s: Seq<Instr>) -> Seq<InstrView> {
    s.map_values(|i: Instr| i@)
}

/// Appends the writes of `ws`, each as an instruction.
fn push_writes(s: &mut Vec<Instr>, ws: Vec<Write>)
    ensures
        instrs_view(final(s)@) == instrs_view(old(s)@) + writes_view(ws@).map_values(
            |w: WriteView| InstrView::Write(w),
        ),
{
    let ghost start = instrs_view(s@);
    let ghost items = ws@;
    let ghost all = writes_view(ws@).map_values(|w: WriteView| InstrView::Write(w));
    for w in it: ws.into_iter()
        invariant
            it.seq() == items,
            all.len() == items.len(),
            all == writes_view(items).map_values(|w: WriteView| InstrView::Write(w)),
            instrs_view(s@) == start + all.take(it.index() as int),
    {
        let ghost i = it.index() as int;
        proof {
            assert(w == items[i]);
            assert(all[i] == InstrView::Write(w@));
        }
        let ghost prev = s@;
        s.push(Instr::Write(w));
        proof {
            assert(all.take(i + 1) =~= all.take(i).push(InstrView::Write(w@)));
            assert(instrs_view(s@) =~= instrs_view(prev).push(InstrView::Write(w@)));
            assert(instrs_view(s@) =~= start + all.take(i + 1));
        }
    }
    proof {
        assert(all.take(all.len() as int) =~= all);
    }
}

impl TxPlan {
    /// The script of the plan.
    pub fn script(self) -> (r: Vec<Instr>)
        ensures
            instrs_view(r@) == script_view(self@),
    {
        let ghost p = self@;
        let TxPlan { skip, before, check, middle, header, after } = self;
        let mut s: Vec<Instr> = Vec::new();
        push_writes(&mut s, before);
        let ghost s1 = instrs_view(s@);
        match check {
            Some(c) => {
                s.push(Instr::Check(c));
                proof {
                    assert(instrs_view(s@) =~= s1 + seq![InstrView::Check(c@)]);
                }
            },
            None => {
                proof {
                    assert(instrs_view(s@) =~= s1 + Seq::<InstrView>::empty());
                }
            },
        }
        push_writes(&mut s, middle);
        let ghost s2 = instrs_view(s@);
        s.push(Instr::Save(header));
        proof {
            assert(instrs_view(s@) =~= s2 + seq![InstrView::Save(p.header)]);
        }
        push_writes(&mut s, after);
        let ghost s3 = instrs_view(s@);
        s.push(Instr::Commit);
        proof {
            assert(instrs_view(s@) =~= s3 + seq![InstrView::Commit]);
            assert(instrs_view(s@) =~= script_view(p));
        }
        s
    }
}

/// The next action of a transaction on a script; each refers to the
/// instruction of the script that it carries out.
#[derive(Clone, Copy, PartialEq, Eq, Structural, Debug)]
pub enum Action {
    /// Begin the transaction.
    Begin,
    /// Carry out a write, the save of the event, or the commit.
    Perform(usize),
    /// Ask whether the database holds the collection of a check.
    AskExists(usize),
    /// Fetch the data of the collection of a check from the network.
    FetchCollection(usize),
    /// Write the fetched data of the collection of a check.
    UpsertCollection(usize),
    Rollback,
    /// Nothing more to do.
    Done,
}

/// The answer to an action.
#[derive(Clone, Copy, PartialEq, Eq, Structural, Debug)]
pub enum Reply {
    /// The action was carried out (a write whose error was logged counts as
    /// carried out).
    Completed,
    /// Whether the database holds the collection.
    Exists(bool),
    /// The number of rows that the save of the event wrote.
    Rows(u64),
    /// The action failed, which ends the run.
    Failed,
}

/// The action that carries out instruction `i` of `s`, or `Done` past its
/// end.
pub open spec fn issue(s: Seq<InstrView>, i: int) -> Action {
    if 0 <= i < s.len() {
        match s[i] {
            InstrView::Check(c) => if c.always {
                Action::FetchCollection(i as usize)
            } else {
                Action::AskExists(i as usize)
            },
            _ => Action::Perform(i as usize),
        }
    } else {
        Action::Done
    }
}

/// The action after `last`, given the reply to it. A failure, or a reply
/// that does not answer `last`, ends the run; a save that wrote no row is
/// rolled back.
pub open spec fn next_spec(s: Seq<InstrView>, last: Action, reply: Reply) -> Action {
    match last {
        Action::Begin => match reply {
            Reply::Completed => issue(s, 0),
            _ => Action::Done,
        },
        Action::Perform(i) => if i < s.len() {
            match s[i as int] {
                InstrView::Write(_) => match reply {
                    Reply::Completed => issue(s, i + 1),
                    _ => Action::Done,
                },
                InstrView::Save(_) => match reply {
                    Reply::Rows(n) => if n == 0 {
                        Action::Rollback
                    } else {
                        issue(s, i + 1)
                    },
                    _ => Action::Done,
                },
                _ => Action::Done,
            }
        } else {
            Action::Done
        },
        Action::AskExists(i) => if i < s.len() {
            match reply {
                Reply::Exists(b) => if b {
                    issue(s, i + 1)
                } else {
                    Action::FetchCollection(i)
                },
                _ => Action::Done,
            }
        } else {
            Action::Done
        },
        Action::FetchCollection(i) => if i < s.len() {
            match reply {
                Reply::Completed => Action::UpsertCollection(i),
                _ => Action::Done,
            }
        } else {
            Action::Done
        },
        Action::UpsertCollection(i) => if i < s.len() {
            match reply {
                Reply::Completed => issue(s, i + 1),
                _ => Action::Done,
            }
        } else {
            Action::Done
        },
        Action::Rollback => Action::Done,
        Action::Done => Action::Done,
    }
}

/// The first action of a plan: nothing for a skipped record, else the
/// beginning of the transaction.
pub fn first_action(plan: &TxPlan) -> (r: Action)
    ensures
        r == (if plan.skip { Action::Done } else { Action::Begin }),
{
    if plan.skip {
        Action::Done
    } else {
        Action::Begin
    }
}

/// The action that carries out instruction `i` of the script.
fn issue_at(script: &Vec<Instr>, i: usize) -> (r: Action)
    ensures
        r == issue(instrs_view(script@), i as int),
{
    if i < script.len() {
        match &script[i] {
            Instr::Check(c) => if c.always {
                Action::FetchCollection(i)
            } else {
                Action::AskExists(i)
            },
            _ => Action::Perform(i),
        }
    } else {
        Action::Done
    }
}

/// The action after `last` on `script`, given the reply to it.
pub fn next_action(script: &Vec<Instr>, last: Action, reply: Reply) -> (r: Action)
    requires
        script.len() < usize::MAX,
    ensures
        r == next_spec(instrs_view(script@), last, reply),
{
    match last {
        Action::Begin => match reply {
            Reply::Completed => issue_at(script, 0),
            _ => Action::Done,
        },
        Action::Perform(i) => if i < script.len() {
            match &script[i] {
                Instr::Write(_) => match reply {
                    Reply::Completed => issue_at(script, i + 1),
                    _ => Action::Done,
                },
                Instr::Save(_) => match reply {
                    Reply::Rows(n) => if n == 0 {
                        Action::Rollback
                    } else {
                        issue_at(script, i + 1)
                    },
                    _ => Action::Done,
                },
                _ => Action::Done,
            }
        } else {
            Action::Done
        },
        Action::AskExists(i) => if i < script.len() {
            match reply {
                Reply::Exists(b) => if b {
                    issue_at(script, i + 1)
                } else {
                    Action::FetchCollection(i)
                },
                _ => Action::Done,
            }
        } else {
            Action::Done
        },
        Action::FetchCollection(i) => if i < script.len() {
            match reply {
                Reply::Completed => Action::UpsertCollection(i),
                _ => Action::Done,
            }
        } else {
            Action::Done
        },
        Action::UpsertCollection(i) => if i < script.len() {
            match reply {
                Reply::Completed => issue_at(script, i + 1),
                _ => Action::Done,
            }
        } else {
            Action::Done
        },
        Action::Rollback => Action::Done,
        Action::Done => Action::Done,
    }
}

/// How far an action is from the end of a run on a script of length `n`.
pub open spec fn rank(n: int, a: Action) -> int {
    match a {
        Action::Begin => 3 * n + 2,
        Action::Perform(i) => if i < n { 3 * (n - i) + 1 } else { 0 },
        Action::AskExists(i) => if i < n { 3 * (n - i) + 1 } else { 0 },
        Action::FetchCollection(i) => if i < n { 3 * (n - i) } else { 0 },
        Action::UpsertCollection(i) => if i < n { 3 * (n - i) - 1 } else { 0 },
        Action::Rollback => 1,
        Action::Done => 0,
    }
}

/// Every run of a transaction ends: each action but `Done` is followed by an
/// action of lower rank, so a run on a script of `n` instructions takes at
/// most `3 * n + 3` actions.
pub proof fn lemma_run_progress(s: Seq<InstrView>, last: Action, reply: Reply)
    requires
        s.len() <= usize::MAX,
    ensures
        next_spec(s, last, reply) != Action::Done ==> 0 <= rank(s.len() as int, next_spec(s, last, reply))
            < rank(s.len() as int, last),
{
    let n = s.len() as int;
    match last {
        Action::Begin => {
            assert(next_spec(s, last, reply) != Action::Done ==> rank(n, next_spec(s, last, reply)) < 3 * n + 2);
        },
        Action::Perform(i) => {
            assert(next_spec(s, last, reply) != Action::Done ==> rank(n, next_spec(s, last, reply)) < rank(n, last));
        },
        Action::AskExists(i) => {
            assert(next_spec(s, last, reply) != Action::Done ==> rank(n, next_spec(s, last, reply)) < rank(n, last));
        },
        Action::FetchCollection(i) => {
            assert(next_spec(s, last, reply) != Action::Done ==> rank(n, next_spec(s, last, reply)) < rank(n, last));
        },
        Action::UpsertCollection(i) => {
            assert(next_spec(s, last, reply) != Action::Done ==> rank(n, next_spec(s, last, reply)) < rank(n, last));
        },
        _ => {},
    }
}

/// The actions of a run on `s` that starts with `first` and gets the replies
/// `replies`, one for each action but the last.
pub open spec fn run(s: Seq<InstrView>, first: Action, replies: Seq<Reply>) -> Seq<Action>
    decreases replies.len(),
{
    if replies.len() == 0 {
        seq![first]
    } else {
        seq![first] + run(s, next_spec(s, first, replies[0]), replies.drop_first())
    }
}

/// The length of a run.
proof fn lemma_run_len(s: Seq<InstrView>, first: Action, replies: Seq<Reply>)
    ensures
        run(s, first, replies).len() == replies.len() + 1,
        run(s, first, replies)[0] == first,
    decreases replies.len(),
{
    if replies.len() > 0 {
        lemma_run_len(s, next_spec(s, first, replies[0]), replies.drop_first());
    }
}

/// A run that has rolled back does nothing more.
proof fn lemma_run_after_rollback(s: Seq<InstrView>, replies: Seq<Reply>)
    ensures
        forall|m: int| 1 <= m < run(s, Action::Rollback, replies).len() ==> #[trigger] run(s, Action::Rollback, replies)[m] == Action::Done,
    decreases replies.len(),
{
    lemma_run_len(s, Action::Rollback, replies);
    if replies.len() > 0 {
        lemma_run_done(s, replies.drop_first());
    }
}

/// A run that is done stays done.
proof fn lemma_run_done(s: Seq<InstrView>, replies: Seq<Reply>)
    ensures
        forall|m: int| 0 <= m < run(s, Action::Done, replies).len() ==> #[trigger] run(s, Action::Done, replies)[m] == Action::Done,
    decreases replies.len(),
{
    lemma_run_len(s, Action::Done, replies);
    if replies.len() > 0 {
        lemma_run_done(s, replies.drop_first());
    }
}

/// A save of the event that writes no row is rolled back, and nothing is
/// done after the rollback: in a run where the action at `j` saves the event
/// and its reply is `Rows(0)`, the next action is the rollback and every
/// later one is `Done`, so no write after the save is carried out and there
/// is no commit.
pub proof fn lemma_unsaved_event_rolls_back(
    s: Seq<InstrView>,
    first: Action,
    replies: Seq<Reply>,
    j: int,
    k: usize,
)
    requires
        0 <= j < replies.len(),
        run(s, first, replies)[j] == Action::Perform(k),
        k < s.len(),
        s[k as int] is Save,
        replies[j] == Reply::Rows(0),
    ensures
        run(s, first, replies)[j + 1] == Action::Rollback,
        forall|m: int| j + 1 < m < run(s, first, replies).len() ==> #[trigger] run(s, first, replies)[m] == Action::Done,
    decreases replies.len(),
{
    lemma_run_len(s, first, replies);
    let rest = replies.drop_first();
    let second = next_spec(s, first, replies[0]);
    lemma_run_len(s, second, rest);
    if j == 0 {
        assert(second == Action::Rollback);
        lemma_run_after_rollback(s, rest);
        assert forall|m: int| j + 1 < m < run(s, first, replies).len() implies #[trigger] run(s, first, replies)[m] == Action::Done by {
            assert(run(s, first, replies)[m] == run(s, second, rest)[m - 1]);
        }
    } else {
        assert(run(s, first, replies)[j] == run(s, second, rest)[j - 1]);
        assert(rest[j - 1] == replies[j]);
        lemma_unsaved_event_rolls_back(s, second, rest, j - 1, k);
        assert forall|m: int| j + 1 < m < run(s, first, replies).len() implies #[trigger] run(s, first, replies)[m] == Action::Done by {
            assert(run(s, first, replies)[m] == run(s, second, rest)[m - 1]);
        }
    }
}

/// The instruction that an action carries out: before the first one for
/// the beginning, and past every one after a rollback or at the end.
pub open spec fn instr_index(a: Action) -> int {
    match a {
        Action::Begin => -1,
        Action::Perform(i) => i as int,
        Action::AskExists(i) => i as int,
        Action::FetchCollection(i) => i as int,
        Action::UpsertCollection(i) => i as int,
        Action::Rollback => usize::MAX as int + 1,
        Action::Done => usize::MAX as int + 1,
    }
}

/// Each action moves on by at most one instruction, and when it moves on,
/// it is the action that carries out the next instruction.
proof fn lemma_next_moves_by_one(s: Seq<InstrView>, a: Action, reply: Reply)
    requires
        s.len() <= usize::MAX,
        instr_index(a) < s.len(),
        next_spec(s, a, reply) != Action::Done,
        next_spec(s, a, reply) != Action::Rollback,
    ensures
        instr_index(next_spec(s, a, reply)) == instr_index(a) || (instr_index(next_spec(s, a, reply))
            == instr_index(a) + 1 && next_spec(s, a, reply) == issue(s, instr_index(a) + 1)),
        instr_index(next_spec(s, a, reply)) < s.len(),
{
}

/// A run that reaches instruction `t` went through every instruction
/// between its first action and `t`.
proof fn lemma_run_visits(s: Seq<InstrView>, a: Action, replies: Seq<Reply>, m: int, t: int)
    requires
        s.len() <= usize::MAX,
        instr_index(a) < s.len(),
        0 < m < run(s, a, replies).len(),
        0 <= t < s.len(),
        run(s, a, replies)[m] == issue(s, t),
    ensures
        forall|j: int| #![trigger issue(s, j)] instr_index(a) < j <= t ==> exists|p: int| 0 < p <= m && #[trigger] run(s, a, replies)[p] == issue(s, j),
    decreases replies.len(),
{
    lemma_run_len(s, a, replies);
    let b = next_spec(s, a, replies[0]);
    let rest = replies.drop_first();
    lemma_run_len(s, b, rest);
    assert(run(s, a, replies)[1] == b);
    if b == Action::Done {
        lemma_run_done(s, rest);
        assert(run(s, a, replies)[m] == run(s, b, rest)[m - 1]);
        assert(false);
    } else if b == Action::Rollback {
        lemma_run_after_rollback(s, rest);
        assert(run(s, a, replies)[m] == run(s, b, rest)[m - 1]);
        if m == 1 {
            assert(issue(s, t) != Action::Rollback);
        }
        assert(false);
    } else {
        lemma_next_moves_by_one(s, a, replies[0]);
        if m == 1 {
            assert(issue(s, t) == b);
            assert forall|j: int| #![trigger issue(s, j)] instr_index(a) < j <= t implies exists|p: int|
                0 < p <= m && #[trigger] run(s, a, replies)[p] == issue(s, j) by {
                assert(instr_index(issue(s, t)) == t);
                assert(j == t);
                assert(run(s, a, replies)[1] == issue(s, j));
            }
        } else {
            assert(run(s, a, replies)[m] == run(s, b, rest)[m - 1]);
            lemma_run_visits(s, b, rest, m - 1, t);
            assert forall|j: int| #![trigger issue(s, j)] instr_index(a) < j <= t implies exists|p: int|
                0 < p <= m && #[trigger] run(s, a, replies)[p] == issue(s, j) by {
                if j <= instr_index(b) {
                    assert(j == instr_index(a) + 1);
                    assert(run(s, a, replies)[1] == issue(s, j));
                } else {
                    let p = choose|p: int| 0 < p <= m - 1 && #[trigger] run(s, b, rest)[p] == issue(s, j);
                    assert(run(s, a, replies)[p + 1] == run(s, b, rest)[p]);
                }
            }
        }
    }
}

/// A transaction that commits has carried out every instruction of its
/// script before the commit: every write, the check of the collection and
/// the save of the event.
pub proof fn lemma_commit_follows_every_instruction(s: Seq<InstrView>, replies: Seq<Reply>, m: int)
    requires
        0 < s.len() <= usize::MAX,
        s.last() == InstrView::Commit,
        0 < m < run(s, Action::Begin, replies).len(),
        run(s, Action::Begin, replies)[m] == Action::Perform((s.len() - 1) as usize),
    ensures
        forall|j: int| #![trigger issue(s, j)] 0 <= j < s.len() - 1 ==> exists|p: int| 0 < p < m && #[trigger] run(s, Action::Begin, replies)[p] == issue(s, j),
{
    let t = s.len() - 1;
    assert(issue(s, t) == Action::Perform(t as usize));
    lemma_run_visits(s, Action::Begin, replies, m, t);
    assert forall|j: int| #![trigger issue(s, j)] 0 <= j < s.len() - 1 implies exists|p: int|
        0 < p < m && #[trigger] run(s, Action::Begin, replies)[p] == issue(s, j) by {
        let p = choose|p: int| 0 < p <= m && #[trigger] run(s, Action::Begin, replies)[p] == issue(s, j);
        if p == m {
            assert(issue(s, j) == Action::Perform(t as usize));
            assert(instr_index(issue(s, j)) == j);
        }
    }
}

/// The index of the save in the script of a plan.
pub open spec fn save_index(p: TxPlanView) -> int {
    p.before.len() + (if p.check is Some { 1int } else { 0int }) + p.middle.len()
}

/// The script of a plan saves the event once, at `save_index`, and ends with
/// the commit; the writes after the save are those of `after`.
pub proof fn lemma_script_shape(p: TxPlanView)
    ensures
        script_view(p).len() == save_index(p) + p.after.len() + 2,
        script_view(p)[save_index(p)] == InstrView::Save(p.header),
        forall|i: int| 0 <= i < script_view(p).len() && i != save_index(p) ==> !(#[trigger] script_view(p)[i] is Save),
        forall|i: int| 0 <= i < p.after.len() ==> #[trigger] script_view(p)[save_index(p) + 1 + i] == InstrView::Write(p.after[i]),
        script_view(p).last() == InstrView::Commit,
{
    let a = p.before.map_values(|w: WriteView| InstrView::Write(w));
    let c: Seq<InstrView> = match p.check {
        Some(c) => seq![InstrView::Check(c)],
        None => Seq::empty(),
    };
    let m = p.middle.map_values(|w: WriteView| InstrView::Write(w));
    let z = p.after.map_values(|w: WriteView| InstrView::Write(w));
    let sv = script_view(p);
    assert(sv == a + c + m + seq![InstrView::Save(p.header)] + z + seq![InstrView::Commit]);
    let k = save_index(p);
    assert forall|i: int| 0 <= i < sv.len() && i != k implies !(#[trigger] sv[i] is Save) by {
        if i < a.len() {
            assert(sv[i] == a[i]);
        } else if i < a.len() + c.len() {
            assert(sv[i] == c[i - a.len()]);
        } else if i < k {
            assert(sv[i] == m[i - a.len() - c.len()]);
        } else if i < k + 1 + z.len() {
            assert(sv[i] == z[i - k - 1]);
        } else {
            assert(sv[i] == InstrView::Commit);
        }
    }
    assert forall|i: int| 0 <= i < p.after.len() implies #[trigger] sv[k + 1 + i] == InstrView::Write(p.after[i]) by {
        assert(sv[k + 1 + i] == z[i]);
    }
}

} // verus!
