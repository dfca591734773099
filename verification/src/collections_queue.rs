//! The cache of collections that the indexer already saved
//! (`CollectionsQueue`): at most a thousand addresses with the time each was
//! last seen. A collection that is not in the cache is saved and enters it;
//! when the cache is full, the entry with the smallest address leaves first.
use vstd::prelude::*;
use vstd::utf8::encode_utf8;

verus! {

/// How many collections the cache holds at most.
pub const COLLECTIONS_CACHE_SIZE: usize = 1000;

/// A collection as the indexer saves it.
pub struct NftCollection {
    pub address: String,
    pub owner: String,
    pub name: Option<String>,
    pub description: Option<String>,
    pub created: i64,
    pub updated: i64,
    pub logo: Option<String>,
    pub wallpaper: Option<String>,
}

/// Byte-wise lexicographic order, the order of Rust strings.
pub open spec fn bytes_lt(a: Seq<u8>, b: Seq<u8>) -> bool
    decreases a.len(),
{
    if a.len() == 0 {
        b.len() > 0
    } else if b.len() == 0 {
        false
    } else if a[0] != b[0] {
        a[0] < b[0]
    } else {
        bytes_lt(a.drop_first(), b.drop_first())
    }
}

/// `bytes_lt` is transitive.
pub proof fn lemma_bytes_lt_transitive(a: Seq<u8>, b: Seq<u8>, c: Seq<u8>)
    requires
        bytes_lt(a, b),
        bytes_lt(b, c),
    ensures
        bytes_lt(a, c),
    decreases a.len(),
{
    if a.len() > 0 && b.len() > 0 && c.len() > 0 && a[0] == b[0] && b[0] == c[0] {
        lemma_bytes_lt_transitive(a.drop_first(), b.drop_first(), c.drop_first());
    }
}

/// `bytes_lt` is a strict total order: of two different sequences, one is
/// below the other, and no sequence is below itself.
pub proof fn lemma_bytes_lt_total(a: Seq<u8>, b: Seq<u8>)
    ensures
        a != b ==> (bytes_lt(a, b) || bytes_lt(b, a)),
        !(bytes_lt(a, b) && bytes_lt(b, a)),
        !bytes_lt(a, a),
    decreases a.len(),
{
    if a.len() > 0 && b.len() > 0 {
        lemma_bytes_lt_total(a.drop_first(), b.drop_first());
        if a[0] == b[0] && a.drop_first() == b.drop_first() {
            assert(a =~= seq![a[0]] + a.drop_first());
            assert(b =~= seq![b[0]] + b.drop_first());
        }
    }
    if a.len() > 0 {
        lemma_bytes_lt_total(a.drop_first(), a.drop_first());
    }
    if a.len() == 0 && b.len() == 0 {
        assert(a =~= b);
    }
}

/// Whether `a` is below `b` byte by byte.
pub fn bytes_less(a: &[u8], b: &[u8]) -> (r: bool)
    ensures
        r == bytes_lt(a@, b@),
{
    let mut i: usize = 0;
    proof {
        assert(a@.subrange(0, a@.len() as int) =~= a@);
        assert(b@.subrange(0, b@.len() as int) =~= b@);
    }
    while i < a.len() && i < b.len()
        invariant
            i <= a.len(),
            i <= b.len(),
            a@.subrange(0, i as int) == b@.subrange(0, i as int),
            bytes_lt(a@, b@) == bytes_lt(a@.subrange(i as int, a@.len() as int), b@.subrange(i as int, b@.len() as int)),
        decreases a.len() - i,
    {
        let ghost sa = a@.subrange(i as int, a@.len() as int);
        let ghost sb = b@.subrange(i as int, b@.len() as int);
        if a[i] != b[i] {
            proof {
                assert(sa[0] == a@[i as int]);
                assert(sb[0] == b@[i as int]);
            }
            return a[i] < b[i];
        }
        proof {
            assert(sa.drop_first() =~= a@.subrange(i + 1, a@.len() as int));
            assert(sb.drop_first() =~= b@.subrange(i + 1, b@.len() as int));
            assert(a@.subrange(0, i + 1) =~= a@.subrange(0, i as int).push(a@[i as int]));
            assert(b@.subrange(0, i + 1) =~= b@.subrange(0, i as int).push(b@[i as int]));
        }
        i = i + 1;
    }
    proof {
        let sa = a@.subrange(i as int, a@.len() as int);
        let sb = b@.subrange(i as int, b@.len() as int);
        assert(sa.len() == 0 || sb.len() == 0);
    }
    i < b.len()
}

/// Whether two byte sequences are equal.
pub fn bytes_equal(a: &[u8], b: &[u8]) -> (r: bool)
    ensures
        r == (a@ == b@),
{
    if a.len() != b.len() {
        return false;
    }
    let mut i: usize = 0;
    while i < a.len()
        invariant
            i <= a.len(),
            a.len() == b.len(),
            a@.subrange(0, i as int) == b@.subrange(0, i as int),
        decreases a.len() - i,
    {
        if a[i] != b[i] {
            return false;
        }
        proof {
            assert(a@.subrange(0, i + 1) =~= a@.subrange(0, i as int).push(a@[i as int]));
            assert(b@.subrange(0, i + 1) =~= b@.subrange(0, i as int).push(b@[i as int]));
        }
        i = i + 1;
    }
    proof {
        assert(a@ =~= a@.subrange(0, i as int));
        assert(b@ =~= b@.subrange(0, i as int));
    }
    true
}

/// The key of an address: its UTF-8 bytes, by which addresses are compared
/// and ordered.
pub open spec fn key_of(s: Seq<char>) -> Seq<u8> {
    encode_utf8(s)
}

/// The keys of the entries.
pub open spec fn entry_keys(entries: Seq<(String, i64)>) -> Seq<Seq<u8>> {
    entries.map_values(|e: (String, i64)| key_of(e.0@))
}

/// The entries as a map from key to the time last seen.
pub open spec fn entries_map(entries: Seq<(String, i64)>) -> Map<Seq<u8>, i64>
    decreases entries.len(),
{
    if entries.len() == 0 {
        Map::empty()
    } else {
        entries_map(entries.drop_last()).insert(key_of(entries.last().0@), entries.last().1)
    }
}

/// No two entries have the same key.
pub open spec fn keys_distinct(entries: Seq<(String, i64)>) -> bool {
    forall|i: int, j: int|
        0 <= i < entries.len() && 0 <= j < entries.len() && i != j ==> key_of(#[trigger] entries[i].0@) != key_of(
            #[trigger] entries[j].0@,
        )
}

/// The key of a map that is below every other key of it.
pub open spec fn is_min_key(m: Map<Seq<u8>, i64>, k: Seq<u8>) -> bool {
    m.dom().contains(k) && forall|j: Seq<u8>| #[trigger] m.dom().contains(j) && j != k ==> bytes_lt(k, j)
}

/// What the cache holds after one collection is seen at time `now`: the time
/// of a known collection is renewed; a new one enters, and, in a full cache,
/// the smallest key leaves first.
pub open spec fn add_one(m: Map<Seq<u8>, i64>, k: Seq<u8>, now: i64) -> Map<Seq<u8>, i64> {
    if m.dom().contains(k) {
        m.insert(k, now)
    } else if m.len() == COLLECTIONS_CACHE_SIZE {
        m.remove(choose|x: Seq<u8>| is_min_key(m, x)).insert(k, now)
    } else {
        m.insert(k, now)
    }
}

/// The cache after the collections of `keys` are seen in order, and the
/// indices among them of those that were new to it.
pub open spec fn add_all(m: Map<Seq<u8>, i64>, keys: Seq<Seq<u8>>, now: i64) -> (Map<Seq<u8>, i64>, Seq<int>)
    decreases keys.len(),
{
    if keys.len() == 0 {
        (m, seq![])
    } else {
        let (prev, fresh) = add_all(m, keys.drop_last(), now);
        let k = keys.last();
        (add_one(prev, k, now), if prev.dom().contains(k) { fresh } else { fresh.push(keys.len() - 1) })
    }
}

/// What the map of the entries holds.
proof fn lemma_entries_map(e: Seq<(String, i64)>)
    ensures
        entries_map(e).dom().finite(),
        forall|k: Seq<u8>| #[trigger] entries_map(e).dom().contains(k) <==> exists|i: int|
            0 <= i < e.len() && key_of(e[i].0@) == k,
        keys_distinct(e) ==> entries_map(e).len() == e.len(),
        keys_distinct(e) ==> forall|i: int| 0 <= i < e.len() ==> #[trigger] entries_map(e)[key_of(e[i].0@)] == e[i].1,
    decreases e.len(),
{
    if e.len() > 0 {
        let p = e.drop_last();
        lemma_entries_map(p);
        let k = key_of(e.last().0@);
        assert forall|x: Seq<u8>| #[trigger] entries_map(e).dom().contains(x) <==> exists|i: int|
            0 <= i < e.len() && key_of(e[i].0@) == x by {
            if entries_map(e).dom().contains(x) && x != k {
                let i = choose|i: int| 0 <= i < p.len() && key_of(p[i].0@) == x;
                assert(e[i] == p[i]);
            }
            if exists|i: int| 0 <= i < e.len() && key_of(e[i].0@) == x {
                let i = choose|i: int| 0 <= i < e.len() && key_of(e[i].0@) == x;
                if i < e.len() - 1 {
                    assert(p[i] == e[i]);
                }
            }
        }
        if keys_distinct(e) {
            assert(keys_distinct(p)) by {
                assert forall|i: int, j: int|
                    0 <= i < p.len() && 0 <= j < p.len() && i != j implies key_of(#[trigger] p[i].0@) != key_of(
                    #[trigger] p[j].0@,
                ) by {
                    assert(p[i] == e[i] && p[j] == e[j]);
                }
            }
            assert(!entries_map(p).dom().contains(k)) by {
                if entries_map(p).dom().contains(k) {
                    let i = choose|i: int| 0 <= i < p.len() && key_of(p[i].0@) == k;
                    assert(p[i] == e[i]);
                    assert(key_of(e[i].0@) != key_of(e[e.len() - 1].0@));
                }
            }
            assert forall|i: int| 0 <= i < e.len() implies #[trigger] entries_map(e)[key_of(e[i].0@)] == e[i].1 by {
                if i < e.len() - 1 {
                    assert(p[i] == e[i]);
                    assert(key_of(e[i].0@) != k);
                }
            }
        }
    }
}

/// Changing the time of entry `i` renews the time of its key.
proof fn lemma_entries_map_update(e: Seq<(String, i64)>, i: int, x: (String, i64))
    requires
        keys_distinct(e),
        0 <= i < e.len(),
        key_of(x.0@) == key_of(e[i].0@),
    ensures
        keys_distinct(e.update(i, x)),
        entries_map(e.update(i, x)) == entries_map(e).insert(key_of(x.0@), x.1),
{
    let f = e.update(i, x);
    assert forall|a: int, b: int|
        0 <= a < f.len() && 0 <= b < f.len() && a != b implies key_of(#[trigger] f[a].0@) != key_of(#[trigger] f[b].0@) by {
        assert(key_of(f[a].0@) == key_of(e[a].0@));
        assert(key_of(f[b].0@) == key_of(e[b].0@));
    }
    lemma_entries_map(e);
    lemma_entries_map(f);
    let m1 = entries_map(f);
    let m2 = entries_map(e).insert(key_of(x.0@), x.1);
    assert forall|k: Seq<u8>| m1.dom().contains(k) <==> m2.dom().contains(k) by {
        if m1.dom().contains(k) {
            let j = choose|j: int| 0 <= j < f.len() && key_of(f[j].0@) == k;
            assert(key_of(e[j].0@) == k);
        }
        if m2.dom().contains(k) && k != key_of(x.0@) {
            let j = choose|j: int| 0 <= j < e.len() && key_of(e[j].0@) == k;
            assert(key_of(f[j].0@) == k);
        }
        if k == key_of(x.0@) {
            assert(key_of(f[i].0@) == k);
        }
    }
    assert forall|k: Seq<u8>| m1.dom().contains(k) implies m1[k] == m2[k] by {
        let j = choose|j: int| 0 <= j < f.len() && key_of(f[j].0@) == k;
        assert(m1[key_of(f[j].0@)] == f[j].1);
        if j != i {
            assert(m2[key_of(e[j].0@)] == e[j].1);
        }
    }
    assert(m1 =~= m2);
}

/// Removing entry `i` removes its key.
proof fn lemma_entries_map_remove(e: Seq<(String, i64)>, i: int)
    requires
        keys_distinct(e),
        0 <= i < e.len(),
    ensures
        keys_distinct(e.remove(i)),
        entries_map(e.remove(i)) == entries_map(e).remove(key_of(e[i].0@)),
{
    let f = e.remove(i);
    assert forall|a: int, b: int|
        0 <= a < f.len() && 0 <= b < f.len() && a != b implies key_of(#[trigger] f[a].0@) != key_of(#[trigger] f[b].0@) by {
        let a2 = if a < i { a } else { a + 1 };
        let b2 = if b < i { b } else { b + 1 };
        assert(f[a] == e[a2]);
        assert(f[b] == e[b2]);
    }
    lemma_entries_map(e);
    lemma_entries_map(f);
    let ki = key_of(e[i].0@);
    let m1 = entries_map(f);
    let m2 = entries_map(e).remove(ki);
    assert forall|k: Seq<u8>| m1.dom().contains(k) <==> m2.dom().contains(k) by {
        if m1.dom().contains(k) {
            let j = choose|j: int| 0 <= j < f.len() && key_of(f[j].0@) == k;
            let j2 = if j < i { j } else { j + 1 };
            assert(f[j] == e[j2]);
            assert(key_of(e[j2].0@) != ki);
        }
        if m2.dom().contains(k) {
            let j = choose|j: int| 0 <= j < e.len() && key_of(e[j].0@) == k;
            assert(j != i);
            let j2 = if j < i { j } else { j - 1 };
            assert(f[j2] == e[j]);
        }
    }
    assert forall|k: Seq<u8>| m1.dom().contains(k) implies m1[k] == m2[k] by {
        let j = choose|j: int| 0 <= j < f.len() && key_of(f[j].0@) == k;
        let j2 = if j < i { j } else { j + 1 };
        assert(f[j] == e[j2]);
        assert(m1[key_of(f[j].0@)] == f[j].1);
        assert(entries_map(e)[key_of(e[j2].0@)] == e[j2].1);
    }
    assert(m1 =~= m2);
}

/// Appending an entry with a new key adds that key.
proof fn lemma_entries_map_push(e: Seq<(String, i64)>, x: (String, i64))
    requires
        keys_distinct(e),
        !entries_map(e).dom().contains(key_of(x.0@)),
    ensures
        keys_distinct(e.push(x)),
        entries_map(e.push(x)) == entries_map(e).insert(key_of(x.0@), x.1),
{
    let f = e.push(x);
    lemma_entries_map(e);
    assert(f.drop_last() =~= e);
    assert forall|a: int, b: int|
        0 <= a < f.len() && 0 <= b < f.len() && a != b implies key_of(#[trigger] f[a].0@) != key_of(#[trigger] f[b].0@) by {
        if a < e.len() {
            assert(f[a] == e[a]);
        }
        if b < e.len() {
            assert(f[b] == e[b]);
        }
    }
}

/// A key below all other keys of a map is the only such key.
proof fn lemma_min_key_unique(m: Map<Seq<u8>, i64>, k: Seq<u8>)
    requires
        is_min_key(m, k),
    ensures
        (choose|x: Seq<u8>| is_min_key(m, x)) == k,
{
    let c = choose|x: Seq<u8>| is_min_key(m, x);
    assert(is_min_key(m, c));
    if c != k {
        assert(bytes_lt(k, c));
        assert(bytes_lt(c, k));
        lemma_bytes_lt_total(k, c);
    }
}

/// The cache of saved collections.
pub struct CollectionsQueue {
    entries: Vec<(String, i64)>,
}

impl View for CollectionsQueue {
    type V = Map<Seq<u8>, i64>;

    /// The time each known collection was last seen, by key.
    closed spec fn view(&self) -> Map<Seq<u8>, i64> {
        entries_map(self.entries@)
    }
}

/// The cache that the indexer starts with: the collections that the
/// database holds, each seen at `now`.
pub open spec fn init_map(keys: Seq<Seq<u8>>, now: i64) -> Map<Seq<u8>, i64>
    decreases keys.len(),
{
    if keys.len() == 0 {
        Map::empty()
    } else {
        init_map(keys.drop_last(), now).insert(keys.last(), now)
    }
}

/// The keys of addresses.
pub open spec fn address_keys(addresses: Seq<String>) -> Seq<Seq<u8>> {
    addresses.map_values(|a: String| key_of(a@))
}

/// The keys of the addresses of collections.
pub open spec fn collection_keys(cs: Seq<NftCollection>) -> Seq<Seq<u8>> {
    cs.map_values(|c: NftCollection| key_of(c.address@))
}

/// Every time in the map is `now`.
pub open spec fn all_at(m: Map<Seq<u8>, i64>, now: i64) -> bool {
    forall|k: Seq<u8>| #[trigger] m.dom().contains(k) ==> m[k] == now
}

/// The key of an address, in bytes.
fn key_bytes(address: &String) -> (r: &[u8])
    ensures
        r@ == key_of(address@),
{
    address.as_str().as_bytes()
}

impl CollectionsQueue {
    /// No two entries of the cache have the same address.
    pub closed spec fn wf(&self) -> bool {
        keys_distinct(self.entries@)
    }

    /// The index of the entry of `address`, if any.
    fn find(&self, address: &String) -> (r: Option<usize>)
        requires
            self.wf(),
        ensures
            match r {
                Some(i) => i < self.entries@.len() && key_of(self.entries@[i as int].0@) == key_of(address@),
                None => !self@.dom().contains(key_of(address@)),
            },
    {
        proof {
            lemma_entries_map(self.entries@);
        }
        let k = key_bytes(address);
        let mut i: usize = 0;
        while i < self.entries.len()
            invariant
                i <= self.entries@.len(),
                k@ == key_of(address@),
                forall|j: int| 0 <= j < i ==> key_of(#[trigger] self.entries@[j].0@) != key_of(address@),
            decreases self.entries.len() - i,
        {
            if bytes_equal(key_bytes(&self.entries[i].0), k) {
                return Some(i);
            }
            i = i + 1;
        }
        None
    }

    /// The index of the entry with the smallest address.
    fn min_index(&self) -> (r: usize)
        requires
            self.wf(),
            self.entries@.len() > 0,
        ensures
            r < self.entries@.len(),
            forall|j: int|
                0 <= j < self.entries@.len() && j != r ==> bytes_lt(
                    key_of(self.entries@[r as int].0@),
                    key_of(#[trigger] self.entries@[j].0@),
                ),
    {
        let mut m: usize = 0;
        let mut i: usize = 1;
        while i < self.entries.len()
            invariant
                self.wf(),
                1 <= i <= self.entries@.len(),
                m < i,
                forall|j: int|
                    0 <= j < i && j != m ==> bytes_lt(
                        key_of(self.entries@[m as int].0@),
                        key_of(#[trigger] self.entries@[j].0@),
                    ),
            decreases self.entries.len() - i,
        {
            let ghost km = key_of(self.entries@[m as int].0@);
            let ghost ki = key_of(self.entries@[i as int].0@);
            if bytes_less(key_bytes(&self.entries[i].0), key_bytes(&self.entries[m].0)) {
                proof {
                    assert forall|j: int| 0 <= j < i + 1 && j != i implies bytes_lt(
                        ki,
                        key_of(#[trigger] self.entries@[j].0@),
                    ) by {
                        if j != m {
                            lemma_bytes_lt_transitive(ki, km, key_of(self.entries@[j].0@));
                        }
                    }
                }
                m = i;
            } else {
                proof {
                    assert(ki != km);
                    lemma_bytes_lt_total(km, ki);
                }
            }
            i = i + 1;
        }
        m
    }

    /// The cache of the collections that the database holds, each seen at
    /// `now`.
    pub fn new_at(existing: Vec<String>, now: i64) -> (r: CollectionsQueue)
        ensures
            r.wf(),
            r@ == init_map(address_keys(existing@), now),
    {
        let mut q = CollectionsQueue { entries: Vec::new() };
        let ghost keys = address_keys(existing@);
        let mut i: usize = 0;
        proof {
            assert(keys.take(0) =~= Seq::<Seq<u8>>::empty());
        }
        while i < existing.len()
            invariant
                i <= existing@.len(),
                keys == address_keys(existing@),
                q.wf(),
                q@ == init_map(keys.take(i as int), now),
                all_at(q@, now),
            decreases existing.len() - i,
        {
            proof {
                assert(keys.take(i + 1).drop_last() =~= keys.take(i as int));
                assert(keys.take(i + 1).last() == key_of(existing@[i as int]@));
            }
            match q.find(&existing[i]) {
                Some(j) => {
                    proof {
                        lemma_entries_map(q.entries@);
                        let k = key_of(existing@[i as int]@);
                        assert(q@.dom().contains(k));
                        assert(q@.insert(k, now) =~= q@);
                    }
                },
                None => {
                    let ghost prev = q.entries@;
                    let x = (existing[i].clone(), now);
                    q.entries.push(x);
                    proof {
                        lemma_entries_map_push(prev, x);
                    }
                },
            }
            i = i + 1;
        }
        proof {
            assert(keys.take(i as int) =~= keys);
        }
        q
    }

    /// How many collections the cache holds.
    pub fn len(&self) -> (r: usize)
        requires
            self.wf(),
        ensures
            r == self@.len(),
    {
        proof {
            lemma_entries_map(self.entries@);
        }
        self.entries.len()
    }

    /// Whether the cache holds the collection at `address`.
    pub fn contains(&self, address: &String) -> (r: bool)
        requires
            self.wf(),
        ensures
            r == self@.dom().contains(key_of(address@)),
    {
        proof {
            lemma_entries_map(self.entries@);
        }
        match self.find(address) {
            Some(i) => {
                proof {
                    assert(self@.dom().contains(key_of(self.entries@[i as int].0@)));
                }
                true
            },
            None => false,
        }
    }

    /// The time at which the collection at `address` was last seen, if the
    /// cache holds it.
    pub fn last_seen(&self, address: &String) -> (r: Option<i64>)
        requires
            self.wf(),
        ensures
            match r {
                Some(t) => self@.dom().contains(key_of(address@)) && self@[key_of(address@)] == t,
                None => !self@.dom().contains(key_of(address@)),
            },
    {
        proof {
            lemma_entries_map(self.entries@);
        }
        match self.find(address) {
            Some(i) => Some(self.entries[i].1),
            None => None,
        }
    }

    /// Takes in the collections seen in a round, each at `now`, and gives
    /// back those that were new to the cache, in order, for the caller to
    /// save.
    pub fn add_collections_at(&mut self, new_collections: Vec<NftCollection>, now: i64) -> (r: Vec<NftCollection>)
        requires
            old(self).wf(),
        ensures
            final(self).wf(),
            final(self)@ == add_all(old(self)@, collection_keys(new_collections@), now).0,
            r@ == add_all(old(self)@, collection_keys(new_collections@), now).1.map_values(
                |i: int| new_collections@[i],
            ),
    {
        let ghost start = self@;
        let ghost items = new_collections@;
        let ghost keys = collection_keys(new_collections@);
        let mut to_insert: Vec<NftCollection> = Vec::new();
        for c in it: new_collections.into_iter()
            invariant
                it.seq() == items,
                keys == collection_keys(items),
                self.wf(),
                self@ == add_all(start, keys.take(it.index() as int), now).0,
                to_insert@ == add_all(start, keys.take(it.index() as int), now).1.map_values(|i: int| items[i]),
                forall|j: int| 0 <= j < add_all(start, keys.take(it.index() as int), now).1.len() ==> 0 <= #[trigger] add_all(start, keys.take(it.index() as int), now).1[j] < it.index(),
        {
            let ghost i = it.index() as int;
            let ghost prev_map = self@;
            let ghost pre = add_all(start, keys.take(i), now);
            let ghost k = key_of(c.address@);
            proof {
                assert(c == items[i]);
                assert(keys[i] == k);
                assert(keys.take(i + 1).drop_last() =~= keys.take(i));
                assert(keys.take(i + 1).last() == k);
                lemma_entries_map(self.entries@);
            }
            match self.find(&c.address) {
                Some(j) => {
                    let ghost prev = self.entries@;
                    let name = self.entries[j].0.clone();
                    let x = (name, now);
                    self.entries.set(j, x);
                    proof {
                        lemma_entries_map_update(prev, j as int, x);
                        assert(prev_map.dom().contains(k));
                    }
                },
                None => {
                    if self.entries.len() == COLLECTIONS_CACHE_SIZE {
                        let m = self.min_index();
                        let ghost prev = self.entries@;
                        let ghost km = key_of(prev[m as int].0@);
                        proof {
                            assert(is_min_key(prev_map, km)) by {
                                assert forall|x: Seq<u8>| #[trigger] prev_map.dom().contains(x) && x != km implies bytes_lt(km, x) by {
                                    let j = choose|j: int| 0 <= j < prev.len() && key_of(prev[j].0@) == x;
                                    assert(j != m);
                                }
                            }
                            lemma_min_key_unique(prev_map, km);
                        }
                        self.entries.remove(m);
                        proof {
                            lemma_entries_map_remove(prev, m as int);
                        }
                    }
                    let ghost prev = self.entries@;
                    proof {
                        lemma_entries_map(prev);
                    }
                    let x = (c.address.clone(), now);
                    self.entries.push(x);
                    proof {
                        lemma_entries_map_push(prev, x);
                    }
                    to_insert.push(c);
                    proof {
                        assert(pre.1.push(i).map_values(|t: int| items[t]) =~= pre.1.map_values(|t: int| items[t]).push(items[i]));
                    }
                },
            }
        }
        proof {
            assert(keys.take(items.len() as int) =~= keys);
        }
        to_insert
    }

    /// The cache of the collections that the database holds, each seen at
    /// the time of the call.
    pub fn new(existing: Vec<String>) -> (r: CollectionsQueue)
        ensures
            r.wf(),
            exists|now: i64| r@ == init_map(address_keys(existing@), now),
    {
        let now = unix_now();
        CollectionsQueue::new_at(existing, now)
    }

    /// Takes in the collections seen in a round at the time of the call and
    /// gives back those that were new to the cache, in order, for the
    /// caller to save.
    pub fn add_collections(&mut self, new_collections: Vec<NftCollection>) -> (r: Vec<NftCollection>)
        requires
            old(self).wf(),
        ensures
            final(self).wf(),
            exists|now: i64|
                #![trigger add_all(old(self)@, collection_keys(new_collections@), now)]
                final(self)@ == add_all(old(self)@, collection_keys(new_collections@), now).0
                    && r@ == add_all(old(self)@, collection_keys(new_collections@), now).1.map_values(
                    |i: int| new_collections@[i],
                ),
    {
        let now = unix_now();
        self.add_collections_at(new_collections, now)
    }
}

/// `chrono::Utc::now().timestamp()`: the seconds since the UNIX epoch, by
/// the machine's clock. Nothing is stated of the value: it is the time.
#[verifier::external_body]
fn unix_now() -> (r: i64) {
    chrono::Utc::now().timestamp()
}

/// The cache never grows past its size: from a cache of at most a thousand
/// collections, any round of collections leaves one of at most a thousand.
pub proof fn lemma_cache_bounded(m: Map<Seq<u8>, i64>, keys: Seq<Seq<u8>>, now: i64)
    requires
        m.dom().finite(),
        m.len() <= COLLECTIONS_CACHE_SIZE,
    ensures
        add_all(m, keys, now).0.dom().finite(),
        add_all(m, keys, now).0.len() <= COLLECTIONS_CACHE_SIZE,
    decreases keys.len(),
{
    if keys.len() > 0 {
        lemma_cache_bounded(m, keys.drop_last(), now);
        let prev = add_all(m, keys.drop_last(), now).0;
        let k = keys.last();
        if !prev.dom().contains(k) && prev.len() == COLLECTIONS_CACHE_SIZE {
            let x = choose|x: Seq<u8>| is_min_key(prev, x);
            lemma_min_key_exists(prev);
            prev.lemma_remove_key_len(x);
            assert(!prev.remove(x).dom().contains(k));
        }
    }
}

/// A non-empty finite map has a smallest key.
proof fn lemma_min_key_exists(m: Map<Seq<u8>, i64>)
    requires
        m.dom().finite(),
        m.len() > 0,
    ensures
        is_min_key(m, choose|x: Seq<u8>| is_min_key(m, x)),
    decreases m.len(),
{
    let a = m.dom().choose();
    assert(m.dom().contains(a));
    let rest = m.remove(a);
    m.lemma_remove_key_len(a);
    if rest.len() == 0 {
        assert forall|j: Seq<u8>| #[trigger] m.dom().contains(j) && j != a implies bytes_lt(a, j) by {
            assert(rest.dom().contains(j));
        }
        assert(is_min_key(m, a));
    } else {
        lemma_min_key_exists(rest);
        let b = choose|x: Seq<u8>| is_min_key(rest, x);
        lemma_bytes_lt_total(a, b);
        if bytes_lt(a, b) {
            assert forall|j: Seq<u8>| #[trigger] m.dom().contains(j) && j != a implies bytes_lt(a, j) by {
                assert(rest.dom().contains(j));
                if j != b {
                    lemma_bytes_lt_transitive(a, b, j);
                }
            }
            assert(is_min_key(m, a));
        } else {
            assert forall|j: Seq<u8>| #[trigger] m.dom().contains(j) && j != b implies bytes_lt(b, j) by {
                if j != a {
                    assert(rest.dom().contains(j));
                }
            }
            assert(is_min_key(m, b));
        }
    }
}

/// The collections given back for saving are exactly those new to the cache:
/// each one's address was neither in the cache nor seen earlier in the
/// round, and every address that was new is given back, in order.
pub proof fn lemma_saved_are_new(m: Map<Seq<u8>, i64>, keys: Seq<Seq<u8>>, now: i64)
    ensures
        forall|t: int| 0 <= t < add_all(m, keys, now).1.len() ==> {
            let i = #[trigger] add_all(m, keys, now).1[t];
            0 <= i < keys.len() && !add_all(m, keys.take(i), now).0.dom().contains(keys[i])
        },
        forall|i: int| 0 <= i < keys.len() && !(#[trigger] add_all(m, keys.take(i), now).0).dom().contains(keys[i])
            ==> add_all(m, keys, now).1.contains(i),
        forall|a: int, b: int| 0 <= a < b < add_all(m, keys, now).1.len() ==> add_all(m, keys, now).1[a] < add_all(m, keys, now).1[b],
    decreases keys.len(),
{
    if keys.len() > 0 {
        let p = keys.drop_last();
        lemma_saved_are_new(m, p, now);
        let (prev, fresh) = add_all(m, p, now);
        let n = keys.len() - 1;
        assert(keys.take(n) =~= p);
        assert forall|i: int| 0 <= i < n implies #[trigger] keys.take(i) == p.take(i) by {
            assert(keys.take(i) =~= p.take(i));
        }
        assert forall|i: int| 0 <= i < n implies keys[i] == p[i] by {}
        let r = add_all(m, keys, now).1;
        assert forall|t: int| 0 <= t < r.len() implies {
            let i = #[trigger] r[t];
            0 <= i < keys.len() && !add_all(m, keys.take(i), now).0.dom().contains(keys[i])
        } by {
            if t < fresh.len() {
                assert(r[t] == fresh[t]);
                let i = fresh[t];
                assert(keys.take(i) == p.take(i));
            }
        }
        assert forall|i: int| 0 <= i < keys.len() && !(#[trigger] add_all(m, keys.take(i), now).0).dom().contains(keys[i])
            implies r.contains(i) by {
            if i < n {
                assert(keys.take(i) == p.take(i));
                assert(fresh.contains(i));
                let t = choose|t: int| 0 <= t < fresh.len() && fresh[t] == i;
                assert(r[t] == i);
            } else {
                assert(r.last() == i);
            }
        }
    }
}

/// A collection just seen is in the cache, with the time it was seen.
pub proof fn lemma_last_seen_kept(m: Map<Seq<u8>, i64>, keys: Seq<Seq<u8>>, now: i64)
    requires
        keys.len() > 0,
    ensures
        add_all(m, keys, now).0.dom().contains(keys.last()),
        add_all(m, keys, now).0[keys.last()] == now,
{
}

} // verus!
