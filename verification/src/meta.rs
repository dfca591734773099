//! What the indexer takes from the JSON metadata of NFTs and collections,
//! and the decisions of the metadata reader: which NFTs it pages through,
//! and what it writes for each.
use vstd::prelude::*;
use crate::json::{items_copy, items_value, json_array_member, json_get, json_str_member, Json, JsonValue};

verus! {

/// How many NFTs the metadata reader takes from the database at a time.
pub const NFT_PER_ITERATION: i64 = 1;

/// How long the metadata reader idles, in seconds, once it has gone through
/// all NFTs.
pub const IDLE_TIME_AFTER_FINISH_SEC: u64 = 60;

/// The name in metadata, where it is a string.
pub fn extract_name_from_meta(meta: &Json) -> (r: Option<&String>)
    ensures
        match json_str_member(*meta, "name"@) {
            Some(s) => r matches Some(x) && x@ == s,
            None => r is None,
        },
{
    meta.str_member("name")
}

/// The description in metadata, where it is a string.
pub fn extract_description_from_meta(meta: &Json) -> (r: Option<&String>)
    ensures
        match json_str_member(*meta, "description"@) {
            Some(s) => r matches Some(x) && x@ == s,
            None => r is None,
        },
{
    meta.str_member("description")
}

/// The attributes in metadata that the metadata reader writes: the array
/// `attributes`, where it has at least one item.
pub open spec fn reader_attributes(meta: Json) -> Option<Seq<Json>> {
    match json_array_member(meta, "attributes"@) {
        Some(items) => if items.len() > 0 {
            Some(items)
        } else {
            None
        },
        None => None,
    }
}

/// The attributes in metadata that the metadata reader writes.
pub fn attributes_to_write(meta: &Json) -> (r: Option<&Vec<Json>>)
    ensures
        match reader_attributes(*meta) {
            Some(items) => r matches Some(x) && x@ == items,
            None => r is None,
        },
{
    match meta.array_member("attributes") {
        Some(items) => if items.len() > 0 {
            Some(items)
        } else {
            None
        },
        None => None,
    }
}

/// One write of the metadata reader for an NFT.
pub enum MetaWrite {
    UpdateName(String),
    UpdateDescription(String),
    /// Writes the attributes of the metadata, one row for each item.
    UpdateAttributes(Vec<Json>),
    /// Writes the metadata itself.
    UpdateMeta,
    /// Marks the NFT as done.
    AddToProceeded,
    Commit,
}

/// The view of a `MetaWrite`.
pub enum MetaWriteView {
    UpdateName(Seq<char>),
    UpdateDescription(Seq<char>),
    UpdateAttributes(Seq<JsonValue>),
    UpdateMeta,
    AddToProceeded,
    Commit,
}

impl View for MetaWrite {
    type V = MetaWriteView;

    open spec fn view(&self) -> MetaWriteView {
        match self {
            MetaWrite::UpdateName(s) => MetaWriteView::UpdateName(s@),
            MetaWrite::UpdateDescription(s) => MetaWriteView::UpdateDescription(s@),
            MetaWrite::UpdateAttributes(items) => MetaWriteView::UpdateAttributes(items_value(items@)),
            MetaWrite::UpdateMeta => MetaWriteView::UpdateMeta,
            MetaWrite::AddToProceeded => MetaWriteView::AddToProceeded,
            MetaWrite::Commit => MetaWriteView::Commit,
        }
    }
}

/// The writes of the metadata reader for an NFT with metadata `meta`, in
/// order: its name and its description where the metadata has them as
/// strings, its attributes where there are any, the metadata, the mark that
/// the NFT is done, and the commit. The reader stops at the first write that
/// fails and goes on with the next NFT.
pub open spec fn reader_writes(meta: Json) -> Seq<MetaWriteView> {
    (match json_str_member(meta, "name"@) {
        Some(n) => seq![MetaWriteView::UpdateName(n)],
        None => seq![],
    }) + (match json_str_member(meta, "description"@) {
        Some(d) => seq![MetaWriteView::UpdateDescription(d)],
        None => seq![],
    }) + (match reader_attributes(meta) {
        Some(items) => seq![MetaWriteView::UpdateAttributes(items_value(items))],
        None => seq![],
    }) + seq![MetaWriteView::UpdateMeta, MetaWriteView::AddToProceeded, MetaWriteView::Commit]
}

/// The writes of the metadata reader for one NFT.
pub fn meta_reader_writes(meta: &Json) -> (r: Vec<MetaWrite>)
    ensures
        r@.map_values(|w: MetaWrite| w@) == reader_writes(*meta),
{
    let mut r: Vec<MetaWrite> = Vec::new();
    let ghost a: Seq<MetaWriteView> = match json_str_member(*meta, "name"@) {
        Some(n) => seq![MetaWriteView::UpdateName(n)],
        None => seq![],
    };
    let ghost b: Seq<MetaWriteView> = match json_str_member(*meta, "description"@) {
        Some(d) => seq![MetaWriteView::UpdateDescription(d)],
        None => seq![],
    };
    let ghost c: Seq<MetaWriteView> = match reader_attributes(*meta) {
        Some(items) => seq![MetaWriteView::UpdateAttributes(items_value(items))],
        None => seq![],
    };
    match extract_name_from_meta(meta) {
        Some(n) => r.push(MetaWrite::UpdateName(n.clone())),
        None => {},
    }
    proof {
        assert(r@.map_values(|w: MetaWrite| w@) =~= a);
    }
    match extract_description_from_meta(meta) {
        Some(d) => r.push(MetaWrite::UpdateDescription(d.clone())),
        None => {},
    }
    proof {
        assert(r@.map_values(|w: MetaWrite| w@) =~= a + b);
    }
    match attributes_to_write(meta) {
        Some(items) => r.push(MetaWrite::UpdateAttributes(items_copy(items))),
        None => {},
    }
    proof {
        assert(r@.map_values(|w: MetaWrite| w@) =~= a + b + c);
    }
    r.push(MetaWrite::UpdateMeta);
    r.push(MetaWrite::AddToProceeded);
    r.push(MetaWrite::Commit);
    proof {
        assert(r@.map_values(|w: MetaWrite| w@) =~= reader_writes(*meta));
    }
    r
}

/// Whether the reader idles after a page: when the page held no NFT.
pub fn idles_after(fetched: usize) -> (r: bool)
    ensures
        r == (fetched == 0),
{
    fetched == 0
}

/// The page that the reader asks for next. After an empty page it starts
/// over; the count is reset to zero and then moved on with the others, so
/// the next page asked for is the first one after page zero.
pub fn next_page(page: i64, fetched: usize) -> (r: i64)
    requires
        page < i64::MAX,
    ensures
        r == (if fetched == 0 { 1 } else { page + 1 }),
{
    let mut p = page;
    if fetched == 0 {
        p = 0;
    }
    p + 1
}

/// What the metadata reader does next with the writes of one NFT.
#[derive(Clone, Copy, PartialEq, Eq, Structural, Debug)]
pub enum ReaderStep {
    /// Carry out the write at this index.
    Write(usize),
    /// A write failed: the transaction is dropped unfinished, so nothing of
    /// this NFT is kept, and the reader goes on with the next NFT.
    Abandon,
    /// Every write succeeded, the commit last: the reader goes on with the
    /// next NFT.
    Finished,
}

/// The step after the write at `done`, of `n` writes, that succeeded or
/// failed as `succeeded` says.
pub open spec fn reader_step_spec(n: int, done: int, succeeded: bool) -> ReaderStep {
    if !succeeded {
        ReaderStep::Abandon
    } else if done + 1 < n {
        ReaderStep::Write((done + 1) as usize)
    } else {
        ReaderStep::Finished
    }
}

/// The first step of the reader on `n` writes.
pub open spec fn reader_first_spec(n: int) -> ReaderStep {
    if n > 0 {
        ReaderStep::Write(0)
    } else {
        ReaderStep::Finished
    }
}

/// The first step of the reader on the writes of an NFT: the first write.
pub fn reader_first(writes: &Vec<MetaWrite>) -> (r: ReaderStep)
    ensures
        r == reader_first_spec(writes@.len() as int),
{
    if writes.len() > 0 {
        ReaderStep::Write(0)
    } else {
        ReaderStep::Finished
    }
}

/// The step of the reader after the write at `done` succeeded or failed:
/// the next write after a success, the end after the last one, and the
/// abandonment of the NFT after a failure.
pub fn reader_next(writes: &Vec<MetaWrite>, done: usize, succeeded: bool) -> (r: ReaderStep)
    requires
        done < writes@.len(),
    ensures
        r == reader_step_spec(writes@.len() as int, done as int, succeeded),
{
    if !succeeded {
        ReaderStep::Abandon
    } else if done < writes.len() - 1 {
        ReaderStep::Write(done + 1)
    } else {
        ReaderStep::Finished
    }
}

/// Where the reader stands on `n` writes once the writes carried out so far
/// have given `results`, one for each write.
pub open spec fn reader_after(n: int, results: Seq<bool>) -> ReaderStep
    decreases results.len(),
{
    if results.len() == 0 {
        reader_first_spec(n)
    } else {
        match reader_after(n, results.drop_last()) {
            ReaderStep::Write(i) => reader_step_spec(n, i as int, results.last()),
            other => other,
        }
    }
}

/// The reader carries out the writes of an NFT in order and only while they
/// succeed: when it is at a write, every write before it was carried out and
/// succeeded; when it has finished, all `n` writes (the commit last) were
/// carried out and succeeded; and when it has abandoned the NFT, a write
/// failed.
pub proof fn lemma_reader_writes_in_order(n: int, results: Seq<bool>)
    requires
        0 <= n <= usize::MAX,
    ensures
        reader_after(n, results) matches ReaderStep::Write(j) ==> j == results.len() && j < n
            && forall|i: int| 0 <= i < results.len() ==> #[trigger] results[i],
        reader_after(n, results) is Finished ==> results.len() >= n
            && forall|i: int| 0 <= i < n ==> #[trigger] results[i],
        reader_after(n, results) is Abandon ==> exists|i: int| 0 <= i < results.len() && !#[trigger] results[i],
    decreases results.len(),
{
    if results.len() > 0 {
        let prev = results.drop_last();
        lemma_reader_writes_in_order(n, prev);
        assert forall|i: int| 0 <= i < prev.len() implies #[trigger] results[i] == prev[i] by {}
        match reader_after(n, prev) {
            ReaderStep::Write(j) => {
                if !results.last() {
                    assert(!results[results.len() - 1]);
                }
            },
            ReaderStep::Abandon => {
                let i = choose|i: int| 0 <= i < prev.len() && !#[trigger] prev[i];
                assert(!results[i]);
            },
            ReaderStep::Finished => {},
        }
    }
}

/// What the indexer keeps of the metadata of a collection.
pub struct CollectionMeta {
    pub name: Option<String>,
    pub description: Option<String>,
    pub logo: Option<String>,
    pub wallpaper: Option<String>,
}

/// The view of a `CollectionMeta`.
pub struct CollectionMetaView {
    pub name: Option<Seq<char>>,
    pub description: Option<Seq<char>>,
    pub logo: Option<Seq<char>>,
    pub wallpaper: Option<Seq<char>>,
}

impl View for CollectionMeta {
    type V = CollectionMetaView;

    open spec fn view(&self) -> CollectionMetaView {
        CollectionMetaView {
            name: self.name.deep_view(),
            description: self.description.deep_view(),
            logo: self.logo.deep_view(),
            wallpaper: self.wallpaper.deep_view(),
        }
    }
}

/// The logo of a collection: the string `source` of its `preview`.
pub open spec fn logo_of(meta: Json) -> Option<Seq<char>> {
    match json_get(meta, "preview"@) {
        Some(p) => json_str_member(p, "source"@),
        None => None,
    }
}

/// The wallpaper of a collection: the string `source` of the first of its
/// `files`.
pub open spec fn wallpaper_of(meta: Json) -> Option<Seq<char>> {
    match json_array_member(meta, "files"@) {
        Some(items) => if items.len() > 0 {
            json_str_member(items[0], "source"@)
        } else {
            None
        },
        None => None,
    }
}

/// An exact copy of an optional text.
fn copy_text(s: Option<&String>) -> (r: Option<String>)
    ensures
        match s {
            Some(x) => r matches Some(y) && y@ == x@,
            None => r is None,
        },
{
    match s {
        Some(x) => Some(x.clone()),
        None => None,
    }
}

/// What `get_collection_data` takes from the metadata of a collection: its
/// name, its description, its logo and its wallpaper, each where it is a
/// string.
pub fn collection_meta(meta: &Json) -> (r: CollectionMeta)
    ensures
        r@ == (CollectionMetaView {
            name: json_str_member(*meta, "name"@),
            description: json_str_member(*meta, "description"@),
            logo: logo_of(*meta),
            wallpaper: wallpaper_of(*meta),
        }),
{
    let logo = match meta.get("preview") {
        Some(p) => copy_text(p.str_member("source")),
        None => None,
    };
    let wallpaper = match meta.array_member("files") {
        Some(items) => if items.len() > 0 {
            copy_text(items[0].str_member("source"))
        } else {
            None
        },
        None => None,
    };
    CollectionMeta {
        name: copy_text(meta.str_member("name")),
        description: copy_text(meta.str_member("description")),
        logo,
        wallpaper,
    }
}

/// A string member of metadata, or the empty text where there is none.
pub open spec fn text_or_empty(meta: Json, key: Seq<char>) -> Seq<char> {
    match json_str_member(meta, key) {
        Some(s) => s,
        None => Seq::empty(),
    }
}

/// The name and the description that `refresh_nft_metadata` writes for an
/// NFT: the strings of its metadata, or empty texts.
pub fn nft_meta_columns(meta: &Json) -> (r: (String, String))
    ensures
        r.0@ == text_or_empty(*meta, "name"@),
        r.1@ == text_or_empty(*meta, "description"@),
{
    let name = match meta.str_member("name") {
        Some(s) => s.clone(),
        None => String::new(),
    };
    let description = match meta.str_member("description") {
        Some(s) => s.clone(),
        None => String::new(),
    };
    (name, description)
}

/// Whether a refresh of the metadata of an NFT writes attributes: where the metadata has
/// an array `attributes`, even an empty one.
pub fn refresh_writes_attributes(meta: &Json) -> (r: bool)
    ensures
        r == json_array_member(*meta, "attributes"@) is Some,
{
    meta.array_member("attributes").is_some()
}

/// The body of a request to refresh metadata: an NFT of a collection, or
/// the whole collection.
pub struct RefreshMetadataParams {
    pub nft: Option<String>,
    pub collection: String,
}

/// What a request to refresh metadata asks for.
pub enum RefreshTarget {
    /// The collection and every NFT of it.
    Collection(String),
    /// One NFT, with its collection.
    Nft { nft: String, collection: String },
}

/// What `refresh_metadata_by_nft` refreshes for a request: the NFT where
/// one is named, else the whole collection.
pub fn refresh_target(params: RefreshMetadataParams) -> (r: RefreshTarget)
    ensures
        match params.nft {
            Some(n) => r matches RefreshTarget::Nft { nft, collection } && nft@ == n@ && collection@
                == params.collection@,
            None => r matches RefreshTarget::Collection(c) && c@ == params.collection@,
        },
{
    match params.nft {
        Some(nft) => RefreshTarget::Nft { nft, collection: params.collection },
        None => RefreshTarget::Collection(params.collection),
    }
}

/// The HTTP status of the answer to a request to refresh metadata: OK when
/// the refresh succeeded, an internal server error otherwise.
pub fn refresh_status(succeeded: bool) -> (r: u16)
    ensures
        r == (if succeeded { 200u16 } else { 500u16 }),
{
    if succeeded {
        200
    } else {
        500
    }
}

} // verus!
