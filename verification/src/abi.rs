//! The ABIs of the marketplace contracts: where each is
//! read from, and the events that are kept of it, with the filtering of the
//! events of an ABI in its JSON form before it is loaded.
use vstd::prelude::*;
use crate::json::{json_str_member, member_index, Json};
use crate::scope::{event_names, events};
use crate::text::str_eq;

verus! {

/// The contracts whose ABIs the indexer declares.
#[derive(Clone, Copy, PartialEq, Eq, Structural, Debug)]
pub enum AbiContract {
    AuctionRootTip3,
    AuctionTip3,
    Callbacks,
    Collection,
    DirectBuy,
    DirectSell,
    FactoryDirectBuy,
    FactoryDirectSell,
    MintAndSell,
    Nft,
    Collection4_2_2,
    Nft4_2_2,
}

/// The file that the ABI of a contract is read from.
pub open spec fn abi_source(c: AbiContract) -> Seq<char> {
    match c {
        AbiContract::AuctionRootTip3 => "json/FactoryAuction.abi.json"@,
        AbiContract::AuctionTip3 => "json/Auction.abi.json"@,
        AbiContract::Callbacks => "json/Callbacks.abi.json"@,
        AbiContract::Collection => "json/Collection.abi.json"@,
        AbiContract::DirectBuy => "json/DirectBuy.abi.json"@,
        AbiContract::DirectSell => "json/DirectSell.abi.json"@,
        AbiContract::FactoryDirectBuy => "json/FactoryDirectBuy.abi.json"@,
        AbiContract::FactoryDirectSell => "json/FactoryDirectSell.abi.json"@,
        AbiContract::MintAndSell => "json/MintAndSell.abi.json"@,
        AbiContract::Nft => "json/Nft.abi.json"@,
        AbiContract::Collection4_2_2 => "json/Collection4_2_2.abi.json"@,
        AbiContract::Nft4_2_2 => "json/Nft4_2_2.abi.json"@,
    }
}

/// The only events kept of the ABI of a contract; none listed keeps all.
pub open spec fn abi_only_events(c: AbiContract) -> Seq<Seq<char>> {
    match c {
        AbiContract::Collection4_2_2 => seq!["NftMetadataUpdated"@, "CollectionMetadataUpdated"@],
        AbiContract::Nft4_2_2 => seq!["MetadataUpdated"@],
        _ => seq![],
    }
}

/// The events removed from the ABI of a contract.
pub open spec fn abi_excluded_events(c: AbiContract) -> Seq<Seq<char>> {
    match c {
        AbiContract::Nft => seq!["NftCreated"@],
        _ => seq![],
    }
}

/// The views of a list of texts.
pub open spec fn texts_view(v: Seq<&str>) -> Seq<Seq<char>> {
    v.map_values(|s: &str| s@)
}

impl AbiContract {
    /// The file that the ABI of the contract is read from.
    pub fn source(&self) -> (r: &'static str)
        ensures
            r@ == abi_source(*self),
    {
        match self {
            AbiContract::AuctionRootTip3 => "json/FactoryAuction.abi.json",
            AbiContract::AuctionTip3 => "json/Auction.abi.json",
            AbiContract::Callbacks => "json/Callbacks.abi.json",
            AbiContract::Collection => "json/Collection.abi.json",
            AbiContract::DirectBuy => "json/DirectBuy.abi.json",
            AbiContract::DirectSell => "json/DirectSell.abi.json",
            AbiContract::FactoryDirectBuy => "json/FactoryDirectBuy.abi.json",
            AbiContract::FactoryDirectSell => "json/FactoryDirectSell.abi.json",
            AbiContract::MintAndSell => "json/MintAndSell.abi.json",
            AbiContract::Nft => "json/Nft.abi.json",
            AbiContract::Collection4_2_2 => "json/Collection4_2_2.abi.json",
            AbiContract::Nft4_2_2 => "json/Nft4_2_2.abi.json",
        }
    }

    /// The only events kept of the ABI; none listed keeps all.
    pub fn only_events(&self) -> (r: Vec<&'static str>)
        ensures
            texts_view(r@) == abi_only_events(*self),
    {
        let mut r: Vec<&'static str> = Vec::new();
        match self {
            AbiContract::Collection4_2_2 => {
                r.push("NftMetadataUpdated");
                r.push("CollectionMetadataUpdated");
            },
            AbiContract::Nft4_2_2 => {
                r.push("MetadataUpdated");
            },
            _ => {},
        }
        proof {
            assert(texts_view(r@) =~= abi_only_events(*self));
        }
        r
    }

    /// The events removed from the ABI.
    pub fn excluded_events(&self) -> (r: Vec<&'static str>)
        ensures
            texts_view(r@) == abi_excluded_events(*self),
    {
        let mut r: Vec<&'static str> = Vec::new();
        match self {
            AbiContract::Nft => {
                r.push("NftCreated");
            },
            _ => {},
        }
        proof {
            assert(texts_view(r@) =~= abi_excluded_events(*self));
        }
        r
    }
}

/// Whether an event of an ABI is kept: its name is one of `only` (where
/// `only` lists any), and it is none of `excluded`.
pub open spec fn event_kept(ev: Json, only: Seq<Seq<char>>, excluded: Seq<Seq<char>>) -> bool {
    &&& (only.len() == 0 || exists|i: int| 0 <= i < only.len() && json_str_member(ev, "name"@) == Some(only[i]))
    &&& forall|j: int| 0 <= j < excluded.len() ==> json_str_member(ev, "name"@) != Some(excluded[j])
}

/// Whether `r` is the ABI `data` with its events filtered: where `data` is
/// an object whose member `events` is an array, that array keeps, in order,
/// the events that `event_kept` keeps; anything else is left as it is.
pub open spec fn abi_filtered(data: Json, r: Json, only: Seq<Seq<char>>, excluded: Seq<Seq<char>>) -> bool {
    match data {
        Json::Object(members) => match member_index(members@, "events"@) {
            Some(i) => match members@[i].1 {
                Json::Array(items) => match r {
                    Json::Object(ms) => {
                        &&& ms@.len() == members@.len()
                        &&& forall|j: int| 0 <= j < ms@.len() && j != i ==> ms@[j] == members@[j]
                        &&& ms@[i].0@ == "events"@
                        &&& match ms@[i].1 {
                            Json::Array(kept) => kept@ == items@.filter(|ev: Json| event_kept(ev, only, excluded)),
                            _ => false,
                        }
                    },
                    _ => false,
                },
                _ => r == data,
            },
            None => r == data,
        },
        _ => r == data,
    }
}

/// Whether an event of an ABI is kept (`event_kept`).
fn keep_event(ev: &Json, only: &Vec<&str>, excluded: &Vec<&str>) -> (r: bool)
    ensures
        r == event_kept(*ev, texts_view(only@), texts_view(excluded@)),
{
    let name = ev.str_member("name");
    let ghost n = json_str_member(*ev, "name"@);
    let mut listed = only.len() == 0;
    let mut i: usize = 0;
    while i < only.len()
        invariant
            i <= only.len(),
            n == json_str_member(*ev, "name"@),
            match n {
                Some(s) => name matches Some(x) && x@ == s,
                None => name is None,
            },
            listed == (only.len() == 0 || exists|k: int| 0 <= k < i && n == Some(texts_view(only@)[k])),
        decreases only.len() - i,
    {
        match name {
            Some(x) => {
                if str_eq(x.as_str(), only[i]) {
                    proof {
                        assert(n == Some(texts_view(only@)[i as int]));
                    }
                    listed = true;
                }
            },
            None => {},
        }
        i = i + 1;
    }
    if !listed {
        return false;
    }
    let mut j: usize = 0;
    while j < excluded.len()
        invariant
            j <= excluded.len(),
            n == json_str_member(*ev, "name"@),
            match n {
                Some(s) => name matches Some(x) && x@ == s,
                None => name is None,
            },
            forall|k: int| 0 <= k < j ==> n != Some(texts_view(excluded@)[k]),
        decreases excluded.len() - j,
    {
        match name {
            Some(x) => {
                if str_eq(x.as_str(), excluded[j]) {
                    proof {
                        assert(n == Some(texts_view(excluded@)[j as int]));
                    }
                    return false;
                }
            },
            None => {},
        }
        j = j + 1;
    }
    true
}

/// The events that are kept, in order.
fn filter_events(items: Vec<Json>, only: &Vec<&str>, excluded: &Vec<&str>) -> (r: Vec<Json>)
    ensures
        r@ == items@.filter(|ev: Json| event_kept(ev, texts_view(only@), texts_view(excluded@))),
{
    let ghost all = items@;
    let ghost f = |ev: Json| event_kept(ev, texts_view(only@), texts_view(excluded@));
    let mut r: Vec<Json> = Vec::new();
    proof {
        assert(all.take(0) =~= Seq::<Json>::empty());
        reveal_with_fuel(Seq::<_>::filter, 1);
    }
    for ev in it: items.into_iter()
        invariant
            it.seq() == all,
            f == (|ev: Json| event_kept(ev, texts_view(only@), texts_view(excluded@))),
            r@ == all.take(it.index() as int).filter(f),
    {
        let ghost i = it.index() as int;
        proof {
            assert(ev == all[i]);
            assert(all.take(i + 1).drop_last() =~= all.take(i));
            reveal_with_fuel(Seq::<_>::filter, 1);
        }
        if keep_event(&ev, only, excluded) {
            r.push(ev);
        }
    }
    proof {
        assert(all.take(all.len() as int) =~= all);
    }
    r
}

/// The index of the member `events`, if any.
fn events_index(members: &Vec<(String, Json)>) -> (r: Option<usize>)
    ensures
        match member_index(members@, "events"@) {
            Some(i) => r == Some(i as usize) && 0 <= i < members@.len() && members@[i].0@ == "events"@,
            None => r is None,
        },
{
    proof {
        lemma_member_index_bounds(members@, "events"@);
    }
    let mut i: usize = 0;
    while i < members.len()
        invariant
            i <= members.len(),
            forall|j: int| 0 <= j < i ==> members@[j].0@ != "events"@,
            match member_index(members@, "events"@) {
                Some(k) => 0 <= k < members@.len() && members@[k].0@ == "events"@ && forall|j: int|
                    0 <= j < k ==> members@[j].0@ != "events"@,
                None => forall|j: int| 0 <= j < members@.len() ==> members@[j].0@ != "events"@,
            },
        decreases members.len() - i,
    {
        if str_eq(members[i].0.as_str(), "events") {
            proof {
                match member_index(members@, "events"@) {
                    Some(k) => {
                        assert(k == i as int);
                    },
                    None => {},
                }
            }
            return Some(i);
        }
        i = i + 1;
    }
    None
}

/// `member_index` is a first match.
proof fn lemma_member_index_bounds(members: Seq<(String, Json)>, key: Seq<char>)
    ensures
        match member_index(members, key) {
            Some(i) => 0 <= i < members.len() && members[i].0@ == key && forall|j: int|
                0 <= j < i ==> members[j].0@ != key,
            None => forall|j: int| 0 <= j < members.len() ==> members[j].0@ != key,
        },
    decreases members.len(),
{
    if members.len() > 0 {
        lemma_member_index_bounds(members.drop_last(), key);
        assert(forall|j: int| 0 <= j < members.len() - 1 ==> members.drop_last()[j] == members[j]);
    }
}

/// Filters the events of an ABI in its JSON form, before the ABI is
/// loaded: where `only` lists events, only those are kept; then the
/// events of `excluded` are removed.
pub fn filter_abi_events(data: Json, only: &Vec<&str>, excluded: &Vec<&str>) -> (r: Json)
    ensures
        abi_filtered(data, r, texts_view(only@), texts_view(excluded@)),
{
    match data {
        Json::Object(members) => {
            let ghost old_members = members@;
            match events_index(&members) {
                Some(i) => {
                    proof {
                        let k = member_index(members@, "events"@)->0;
                        assert(0 <= k < members.len());
                    }
                    let is_array = match &members[i].1 {
                        Json::Array(_) => true,
                        _ => false,
                    };
                    if !is_array {
                        return Json::Object(members);
                    }
                    let mut members = members;
                    let (key, value) = members.remove(i);
                    match value {
                        Json::Array(items) => {
                            let kept = filter_events(items, only, excluded);
                            members.insert(i, (key, Json::Array(kept)));
                            proof {
                                assert forall|j: int| 0 <= j < members@.len() && j != i implies members@[j]
                                    == old_members[j] by {}
                            }
                            Json::Object(members)
                        },
                        other => {
                            proof {
                                assert(other == old_members[i as int].1);
                            }
                            members.insert(i, (key, other));
                            Json::Object(members)
                        },
                    }
                },
                None => Json::Object(members),
            }
        },
        other => other,
    }
}

/// The names of the events of an ABI in its JSON form, where it has an
/// array of events.
pub open spec fn has_event(abi: Json, name: Seq<char>) -> bool {
    match crate::json::json_array_member(abi, "events"@) {
        Some(items) => exists|i: int| 0 <= i < items.len() && json_str_member(items[i], "name"@) == Some(name),
        None => false,
    }
}

/// Whether an ABI in its JSON form declares an event named `name` (what the
/// loaded contract holds as `events.contains_key(name)`).
pub fn abi_has_event(abi: &Json, name: &str) -> (r: bool)
    ensures
        r == has_event(*abi, name@),
{
    match abi.array_member("events") {
        Some(items) => {
            let mut i: usize = 0;
            while i < items.len()
                invariant
                    i <= items.len(),
                    crate::json::json_array_member(*abi, "events"@) == Some(items@),
                    forall|k: int| 0 <= k < i ==> json_str_member(items@[k], "name"@) != Some(name@),
                decreases items.len() - i,
            {
                match items[i].str_member("name") {
                    Some(n) => {
                        if str_eq(n.as_str(), name) {
                            proof {
                                let it = crate::json::json_array_member(*abi, "events"@)->0;
                                assert(it[i as int] == items@[i as int]);
                                assert(json_str_member(it[i as int], "name"@) == Some(name@));
                            }
                            return true;
                        }
                    },
                    None => {},
                }
                i = i + 1;
            }
            false
        },
        None => false,
    }
}

/// The ABIs whose events in scope the indexer extracts, in the order in
/// which they are listed.
pub open spec fn extractable_contracts() -> Seq<AbiContract> {
    seq![
        AbiContract::AuctionRootTip3,
        AbiContract::AuctionTip3,
        AbiContract::Callbacks,
        AbiContract::DirectBuy,
        AbiContract::DirectSell,
        AbiContract::FactoryDirectBuy,
        AbiContract::FactoryDirectSell,
        AbiContract::MintAndSell,
        AbiContract::Nft,
        AbiContract::Collection,
        AbiContract::Nft4_2_2,
        AbiContract::Collection4_2_2,
    ]
}

/// The ABIs whose events in scope the indexer extracts, in order.
pub fn extractable_contracts_vec() -> (r: Vec<AbiContract>)
    ensures
        r@ == extractable_contracts(),
{
    let mut r: Vec<AbiContract> = Vec::new();
    r.push(AbiContract::AuctionRootTip3);
    r.push(AbiContract::AuctionTip3);
    r.push(AbiContract::Callbacks);
    r.push(AbiContract::DirectBuy);
    r.push(AbiContract::DirectSell);
    r.push(AbiContract::FactoryDirectBuy);
    r.push(AbiContract::FactoryDirectSell);
    r.push(AbiContract::MintAndSell);
    r.push(AbiContract::Nft);
    r.push(AbiContract::Collection);
    r.push(AbiContract::Nft4_2_2);
    r.push(AbiContract::Collection4_2_2);
    proof {
        assert(r@ =~= extractable_contracts());
    }
    r
}

/// The names, in order, of the events among `items` whose name is one of
/// the events in scope.
pub open spec fn scoped_names(items: Seq<Json>) -> Seq<Seq<char>>
    decreases items.len(),
{
    if items.len() == 0 {
        Seq::empty()
    } else {
        scoped_names(items.drop_last()) + match json_str_member(items.last(), "name"@) {
            Some(n) => if event_names().contains(n) {
                seq![n]
            } else {
                Seq::empty()
            },
            None => Seq::empty(),
        }
    }
}

/// The events of an ABI that the indexer extracts: those in scope, in the
/// order of the ABI.
pub open spec fn scoped_events(abi: Json) -> Seq<Seq<char>> {
    match crate::json::json_array_member(abi, "events"@) {
        Some(items) => scoped_names(items),
        None => Seq::empty(),
    }
}

/// Whether `name` is one of the events in scope.
fn in_scope(name: &str, scope: &Vec<&'static str>) -> (r: bool)
    requires
        scope@.map_values(|s: &str| s@) == event_names(),
    ensures
        r == event_names().contains(name@),
{
    let mut i: usize = 0;
    while i < scope.len()
        invariant
            i <= scope.len(),
            scope@.map_values(|s: &str| s@) == event_names(),
            forall|j: int| 0 <= j < i ==> event_names()[j] != name@,
        decreases scope.len() - i,
    {
        if str_eq(scope[i], name) {
            proof {
                assert(event_names()[i as int] == name@);
            }
            return true;
        }
        i = i + 1;
    }
    false
}

/// The names of the events of an ABI that the indexer extracts, in order
/// (the functions in scope are none).
pub fn extractable_events(abi: &Json) -> (r: Vec<String>)
    ensures
        r@.map_values(|n: String| n@) == scoped_events(*abi),
{
    let scope = events();
    let mut r: Vec<String> = Vec::new();
    match abi.array_member("events") {
        Some(items) => {
            let mut i: usize = 0;
            while i < items.len()
                invariant
                    i <= items.len(),
                    scope@.map_values(|s: &str| s@) == event_names(),
                    r@.map_values(|n: String| n@) == scoped_names(items@.take(i as int)),
                decreases items.len() - i,
            {
                let ghost prev = r@;
                proof {
                    assert(items@.take(i + 1).drop_last() =~= items@.take(i as int));
                    assert(items@.take(i + 1).last() == items@[i as int]);
                }
                match items[i].str_member("name") {
                    Some(n) => {
                        if in_scope(n.as_str(), &scope) {
                            r.push(n.clone());
                            proof {
                                assert(r@.map_values(|x: String| x@) =~= prev.map_values(|x: String| x@).push(n@));
                            }
                        }
                    },
                    None => {},
                }
                proof {
                    assert(r@.map_values(|x: String| x@) =~= scoped_names(items@.take(i + 1)));
                }
                i = i + 1;
            }
            proof {
                assert(items@.take(i as int) =~= items@);
            }
        },
        None => {},
    }
    r
}

/// The first member with a key is found where the earlier members have other
/// keys.
proof fn lemma_member_index_first(ms: Seq<(String, Json)>, key: Seq<char>, i: int)
    requires
        0 <= i < ms.len(),
        ms[i].0@ == key,
        forall|j: int| 0 <= j < i ==> ms[j].0@ != key,
    ensures
        member_index(ms, key) == Some(i),
    decreases ms.len(),
{
    if i < ms.len() - 1 {
        let p = ms.drop_last();
        assert forall|j: int| 0 <= j < i implies p[j].0@ != key by {
            assert(p[j] == ms[j]);
        }
        lemma_member_index_first(p, key, i);
    } else {
        lemma_member_index_bounds(ms.drop_last(), key);
        assert forall|j: int| 0 <= j < ms.len() - 1 implies ms.drop_last()[j].0@ != key by {
            assert(ms.drop_last()[j] == ms[j]);
        }
    }
}

/// Filtering twice by the same test is filtering once.
proof fn lemma_filter_twice(s: Seq<Json>, f: spec_fn(Json) -> bool)
    ensures
        s.filter(f).filter(f) == s.filter(f),
    decreases s.len(),
{
    reveal_with_fuel(Seq::<_>::filter, 1);
    if s.len() > 0 {
        lemma_filter_twice(s.drop_last(), f);
        if f(s.last()) {
            assert(s.filter(f) == s.drop_last().filter(f).push(s.last()));
            assert(s.filter(f).drop_last() =~= s.drop_last().filter(f));
        }
    }
    assert(s.filter(f).filter(f) =~= s.filter(f));
}

/// Filtering the events of an ABI a second time with the same lists leaves
/// its events as they are: the events kept are kept again.
pub proof fn lemma_abi_filter_idempotent(
    data: Json,
    r1: Json,
    r2: Json,
    only: Seq<Seq<char>>,
    excluded: Seq<Seq<char>>,
)
    requires
        abi_filtered(data, r1, only, excluded),
        abi_filtered(r1, r2, only, excluded),
    ensures
        crate::json::json_array_member(r2, "events"@) == crate::json::json_array_member(r1, "events"@),
{
    let f = |ev: Json| event_kept(ev, only, excluded);
    match data {
        Json::Object(members) => match member_index(members@, "events"@) {
            Some(i) => {
                lemma_member_index_bounds(members@, "events"@);
                match members@[i].1 {
                    Json::Array(items) => {
                        let ms = r1->Object_0;
                        assert forall|j: int| 0 <= j < i implies ms@[j].0@ != "events"@ by {
                            assert(ms@[j] == members@[j]);
                        }
                        lemma_member_index_first(ms@, "events"@, i);
                        let kept = ms@[i].1->Array_0;
                        let ms2 = r2->Object_0;
                        assert forall|j: int| 0 <= j < i implies ms2@[j].0@ != "events"@ by {
                            assert(ms2@[j] == ms@[j]);
                        }
                        lemma_member_index_first(ms2@, "events"@, i);
                        let kept2 = ms2@[i].1->Array_0;
                        lemma_filter_twice(items@, f);
                        assert(kept2@ == kept@.filter(f));
                    },
                    _ => {},
                }
            },
            None => {},
        },
        _ => {},
    }
}

} // verus!
