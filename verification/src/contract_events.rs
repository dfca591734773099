//! The records that the event consumer builds from extracted events, one type for each event of the
//! marketplace contracts, with their views as plain values.
use vstd::prelude::*;
use crate::decimal::Decimal;
use crate::text::address_text;
use crate::tokens::{
    find_named, find_token, get_address, get_created_at, get_created_lt, lemma_tokens_wf_shallow,
    lookup_addr, lookup_dec, lookup_i16, lookup_i32, lookup_i64, lookup_u16, src_addr, src_dec,
    src_i16, src_i32, src_i64, src_u16, source_token, token_addr_view, token_decimal_view, token_int_view,
    tokens_wf, tuple_named, tuple_view, BuildError, ExtractedEvent, Token,
};

verus! {

/// The columns that every record has: the emitting account, the time and
/// logical time of the message, its hash, and the NFT and collection that the
/// event concerns, where it names them.
pub struct Header {
    pub address: String,
    pub created_lt: i64,
    pub created_at: i64,
    pub message_hash: String,
    pub event_nft: Option<String>,
    pub event_collection: Option<String>,
}

/// The view of a `Header`.
pub struct HeaderView {
    pub address: Seq<char>,
    pub created_lt: int,
    pub created_at: int,
    pub message_hash: Seq<char>,
    pub event_nft: Option<Seq<char>>,
    pub event_collection: Option<Seq<char>>,
}

impl View for Header {
    type V = HeaderView;

    open spec fn view(&self) -> HeaderView {
        HeaderView {
            address: self.address@,
            created_lt: self.created_lt as int,
            created_at: self.created_at as int,
            message_hash: self.message_hash@,
            event_nft: self.event_nft.deep_view(),
            event_collection: self.event_collection.deep_view(),
        }
    }
}

/// The header of a record built from `ev`, once the message of the event is
/// known to be an outbound external one.
pub open spec fn header_view(
    ev: ExtractedEvent,
    nft: Option<Seq<char>>,
    collection: Option<Seq<char>>,
) -> HeaderView
    recommends
        ev.ext_out_header is Some,
{
    HeaderView {
        address: address_text(0, ev.account_id@),
        created_lt: ((ev.ext_out_header->0).1 as i64) as int,
        created_at: (ev.ext_out_header->0).0 as int,
        message_hash: ev.message_hash@,
        event_nft: nft,
        event_collection: collection,
    }
}

/// Builds a header; the message must be an outbound external one.
fn build_header(
    event: &ExtractedEvent,
    nft: Option<String>,
    collection: Option<String>,
) -> (r: Result<Header, BuildError>)
    ensures
        match event.ext_out_header {
            Some(_) => r matches Ok(h) && h@ == header_view(*event, nft.deep_view(), collection.deep_view()),
            None => r is Err,
        },
{
    let created_lt = match get_created_lt(event) {
        Ok(v) => v,
        Err(e) => return Err(e),
    };
    let created_at = match get_created_at(event) {
        Ok(v) => v,
        Err(e) => return Err(e),
    };
    Ok(Header {
        address: get_address(event),
        created_lt,
        created_at,
        message_hash: event.message_hash.clone(),
        event_nft: nft,
        event_collection: collection,
    })
}

/// The record of a `AuctionDeployed` event.
pub struct AuctionDeployed {
    pub header: Header,
    pub collection: String,
    pub nft_owner: String,
    pub nft: String,
    pub offer: String,
    pub price: Decimal,
    pub auction_duration: i64,
    pub deploy_nonce: Decimal,
}

/// The view of a `AuctionDeployed`.
pub struct AuctionDeployedView {
    pub header: HeaderView,
    pub collection: Seq<char>,
    pub nft_owner: Seq<char>,
    pub nft: Seq<char>,
    pub offer: Seq<char>,
    pub price: (int, int),
    pub auction_duration: int,
    pub deploy_nonce: (int, int),
}

impl View for AuctionDeployed {
    type V = AuctionDeployedView;

    open spec fn view(&self) -> AuctionDeployedView {
        AuctionDeployedView {
            header: self.header@,
            collection: self.collection@,
            nft_owner: self.nft_owner@,
            nft: self.nft@,
            offer: self.offer@,
            price: self.price@,
            auction_duration: self.auction_duration as int,
            deploy_nonce: self.deploy_nonce@,
        }
    }
}

/// The record that `AuctionDeployed::build_from` builds from `ev`, or `None` where it
/// fails.
pub open spec fn auction_deployed_view(ev: ExtractedEvent) -> Option<AuctionDeployedView> {
    match tuple_view(ev.tokens@, "offerInfo"@) {
        None => None,
        Some(p) => {
            let s = ev.tokens@;
            let e = Seq::<Seq<char>>::empty();
            if ev.ext_out_header is Some
                && src_addr(p, s, e, "collection"@) is Some
                && src_addr(p, s, e, "nftOwner"@) is Some
                && src_addr(p, s, e, "nft"@) is Some
                && src_addr(p, s, e, "offer"@) is Some
                && src_dec(p, s, e, "price"@) is Some
                && src_i64(p, s, e, "auctionDuration"@) is Some
                && src_dec(p, s, e, "deployNonce"@) is Some {
                Some(AuctionDeployedView {
                    header: header_view(ev, Some(src_addr(p, s, e, "nft"@)->0), Some(src_addr(p, s, e, "collection"@)->0)),
                    collection: src_addr(p, s, e, "collection"@)->0,
                    nft_owner: src_addr(p, s, e, "nftOwner"@)->0,
                    nft: src_addr(p, s, e, "nft"@)->0,
                    offer: src_addr(p, s, e, "offer"@)->0,
                    price: src_dec(p, s, e, "price"@)->0,
                    auction_duration: src_i64(p, s, e, "auctionDuration"@)->0,
                    deploy_nonce: src_dec(p, s, e, "deployNonce"@)->0,
                })
            } else {
                None
            }
        },
    }
}

impl AuctionDeployed {
    /// Whether the numbers of the record are well formed.
    pub open spec fn wf(&self) -> bool {
        self.price.wf() && self.deploy_nonce.wf()
    }

    /// The record of the event, or an error where
    /// a token is missing or does not convert, or the message of the event is
    /// not an outbound external one.
    pub fn build_from(event: &ExtractedEvent) -> (r: Result<AuctionDeployed, BuildError>)
        requires
            tokens_wf(event.tokens@),
        ensures
            match auction_deployed_view(*event) {
                Some(v) => r matches Ok(x) && x@ == v && x.wf(),
                None => r is Err,
            },
    {
        proof {
            lemma_tokens_wf_shallow(event.tokens@);
        }
        let p = match tuple_named(&event.tokens, "offerInfo") {
            Ok(v) => v,
            Err(e) => return Err(e),
        };
        let s = &event.tokens;
        let mut e: Vec<&str> = Vec::new();
        proof {
            assert(e@.map_values(|x: &str| x@) =~= Seq::<Seq<char>>::empty());
        }
        let collection = match lookup_addr(p, s, &e, "collection") {
            Ok(v) => v,
            Err(e) => return Err(e),
        };
        let nft_owner = match lookup_addr(p, s, &e, "nftOwner") {
            Ok(v) => v,
            Err(e) => return Err(e),
        };
        let nft = match lookup_addr(p, s, &e, "nft") {
            Ok(v) => v,
            Err(e) => return Err(e),
        };
        let offer = match lookup_addr(p, s, &e, "offer") {
            Ok(v) => v,
            Err(e) => return Err(e),
        };
        let price = match lookup_dec(p, s, &e, "price") {
            Ok(v) => v,
            Err(e) => return Err(e),
        };
        let auction_duration = match lookup_i64(p, s, &e, "auctionDuration") {
            Ok(v) => v,
            Err(e) => return Err(e),
        };
        let deploy_nonce = match lookup_dec(p, s, &e, "deployNonce") {
            Ok(v) => v,
            Err(e) => return Err(e),
        };
        let header = match build_header(event, Some(nft.clone()), Some(collection.clone())) {
            Ok(h) => h,
            Err(e) => return Err(e),
        };
        Ok(AuctionDeployed { header, collection, nft_owner, nft, offer, price, auction_duration, deploy_nonce })
    }
}

/// The record of a `AuctionDeclined` event.
pub struct AuctionDeclined {
    pub header: Header,
    pub nft_owner: String,
    pub nft: String,
}

/// The view of a `AuctionDeclined`.
pub struct AuctionDeclinedView {
    pub header: HeaderView,
    pub nft_owner: Seq<char>,
    pub nft: Seq<char>,
}

impl View for AuctionDeclined {
    type V = AuctionDeclinedView;

    open spec fn view(&self) -> AuctionDeclinedView {
        AuctionDeclinedView {
            header: self.header@,
            nft_owner: self.nft_owner@,
            nft: self.nft@,
        }
    }
}

/// The record that `AuctionDeclined::build_from` builds from `ev`, or `None` where it
/// fails.
pub open spec fn auction_declined_view(ev: ExtractedEvent) -> Option<AuctionDeclinedView> {
    let p = ev.tokens@;
    let s = Seq::<Token>::empty();
    let e = Seq::<Seq<char>>::empty();
    if ev.ext_out_header is Some
        && src_addr(p, s, e, "nftOwner"@) is Some
        && src_addr(p, s, e, "nft"@) is Some {
        Some(AuctionDeclinedView {
            header: header_view(ev, Some(src_addr(p, s, e, "nft"@)->0), None),
            nft_owner: src_addr(p, s, e, "nftOwner"@)->0,
            nft: src_addr(p, s, e, "nft"@)->0,
        })
    } else {
        None
    }
}

impl AuctionDeclined {
    /// Whether the numbers of the record are well formed.
    pub open spec fn wf(&self) -> bool {
        true
    }

    /// The record of the event, or an error where
    /// a token is missing or does not convert, or the message of the event is
    /// not an outbound external one.
    pub fn build_from(event: &ExtractedEvent) -> (r: Result<AuctionDeclined, BuildError>)
        requires
            tokens_wf(event.tokens@),
        ensures
            match auction_declined_view(*event) {
                Some(v) => r matches Ok(x) && x@ == v && x.wf(),
                None => r is Err,
            },
    {
        proof {
            lemma_tokens_wf_shallow(event.tokens@);
        }
        let p = &event.tokens;
        let s: Vec<Token> = Vec::new();
        let e: Vec<&str> = Vec::new();
        proof {
            assert(e@.map_values(|x: &str| x@) =~= Seq::<Seq<char>>::empty());
        }
        let nft_owner = match lookup_addr(p, &s, &e, "nftOwner") {
            Ok(v) => v,
            Err(e) => return Err(e),
        };
        let nft = match lookup_addr(p, &s, &e, "nft") {
            Ok(v) => v,
            Err(e) => return Err(e),
        };
        let header = match build_header(event, Some(nft.clone()), None) {
            Ok(h) => h,
            Err(e) => return Err(e),
        };
        Ok(AuctionDeclined { header, nft_owner, nft })
    }
}

/// The record of a `AddCollectionRules` event.
pub struct AddCollectionRules {
    pub header: Header,
    pub collection: String,
    pub code_hash: Decimal,
    pub code_depth: u16,
    pub numerator: i32,
    pub denominator: i32,
}

/// The view of a `AddCollectionRules`.
pub struct AddCollectionRulesView {
    pub header: HeaderView,
    pub collection: Seq<char>,
    pub code_hash: (int, int),
    pub code_depth: int,
    pub numerator: int,
    pub denominator: int,
}

impl View for AddCollectionRules {
    type V = AddCollectionRulesView;

    open spec fn view(&self) -> AddCollectionRulesView {
        AddCollectionRulesView {
            header: self.header@,
            collection: self.collection@,
            code_hash: self.code_hash@,
            code_depth: self.code_depth as int,
            numerator: self.numerator as int,
            denominator: self.denominator as int,
        }
    }
}

/// The record that `AddCollectionRules::build_from` builds from `ev`, or `None` where it
/// fails.
pub open spec fn add_collection_rules_view(ev: ExtractedEvent) -> Option<AddCollectionRulesView> {
    match tuple_view(ev.tokens@, "collectionFeeInfo"@) {
        None => None,
        Some(p) => {
            let s = ev.tokens@;
            let e = seq!["collection"@];
            if ev.ext_out_header is Some
                && find_token(ev.tokens@, "collection"@) is Some
                && src_addr(p, s, e, "collection"@) is Some
                && src_dec(p, s, e, "codeHash"@) is Some
                && src_u16(p, s, e, "codeDepth"@) is Some
                && src_i32(p, s, e, "numerator"@) is Some
                && src_i32(p, s, e, "denominator"@) is Some {
                Some(AddCollectionRulesView {
                    header: header_view(ev, None, Some(src_addr(p, s, e, "collection"@)->0)),
                    collection: src_addr(p, s, e, "collection"@)->0,
                    code_hash: src_dec(p, s, e, "codeHash"@)->0,
                    code_depth: src_u16(p, s, e, "codeDepth"@)->0,
                    numerator: src_i32(p, s, e, "numerator"@)->0,
                    denominator: src_i32(p, s, e, "denominator"@)->0,
                })
            } else {
                None
            }
        },
    }
}

impl AddCollectionRules {
    /// Whether the numbers of the record are well formed.
    pub open spec fn wf(&self) -> bool {
        self.code_hash.wf()
    }

    /// The record of the event, or an error where
    /// a token is missing or does not convert, or the message of the event is
    /// not an outbound external one.
    pub fn build_from(event: &ExtractedEvent) -> (r: Result<AddCollectionRules, BuildError>)
        requires
            tokens_wf(event.tokens@),
        ensures
            match add_collection_rules_view(*event) {
                Some(v) => r matches Ok(x) && x@ == v && x.wf(),
                None => r is Err,
            },
    {
        proof {
            lemma_tokens_wf_shallow(event.tokens@);
        }
        let p = match tuple_named(&event.tokens, "collectionFeeInfo") {
            Ok(v) => v,
            Err(e) => return Err(e),
        };
        let s = &event.tokens;
        let mut e: Vec<&str> = Vec::new();
        if find_named(&event.tokens, "collection").is_none() {
            return Err(BuildError::Malformed);
        }
        e.push("collection");
        proof {
            assert(e@.map_values(|x: &str| x@) =~= seq!["collection"@]);
        }
        let collection = match lookup_addr(p, s, &e, "collection") {
            Ok(v) => v,
            Err(e) => return Err(e),
        };
        let code_hash = match lookup_dec(p, s, &e, "codeHash") {
            Ok(v) => v,
            Err(e) => return Err(e),
        };
        let code_depth = match lookup_u16(p, s, &e, "codeDepth") {
            Ok(v) => v,
            Err(e) => return Err(e),
        };
        let numerator = match lookup_i32(p, s, &e, "numerator") {
            Ok(v) => v,
            Err(e) => return Err(e),
        };
        let denominator = match lookup_i32(p, s, &e, "denominator") {
            Ok(v) => v,
            Err(e) => return Err(e),
        };
        let header = match build_header(event, None, Some(collection.clone())) {
            Ok(h) => h,
            Err(e) => return Err(e),
        };
        Ok(AddCollectionRules { header, collection, code_hash, code_depth, numerator, denominator })
    }
}

/// The record of a `RemoveCollectionRules` event.
pub struct RemoveCollectionRules {
    pub header: Header,
    pub collection: String,
}

/// The view of a `RemoveCollectionRules`.
pub struct RemoveCollectionRulesView {
    pub header: HeaderView,
    pub collection: Seq<char>,
}

impl View for RemoveCollectionRules {
    type V = RemoveCollectionRulesView;

    open spec fn view(&self) -> RemoveCollectionRulesView {
        RemoveCollectionRulesView {
            header: self.header@,
            collection: self.collection@,
        }
    }
}

/// The record that `RemoveCollectionRules::build_from` builds from `ev`, or `None` where it
/// fails.
pub open spec fn remove_collection_rules_view(ev: ExtractedEvent) -> Option<RemoveCollectionRulesView> {
    let p = ev.tokens@;
    let s = Seq::<Token>::empty();
    let e = Seq::<Seq<char>>::empty();
    if ev.ext_out_header is Some
        && src_addr(p, s, e, "collection"@) is Some {
        Some(RemoveCollectionRulesView {
            header: header_view(ev, None, Some(src_addr(p, s, e, "collection"@)->0)),
            collection: src_addr(p, s, e, "collection"@)->0,
        })
    } else {
        None
    }
}

impl RemoveCollectionRules {
    /// Whether the numbers of the record are well formed.
    pub open spec fn wf(&self) -> bool {
        true
    }

    /// The record of the event, or an error where
    /// a token is missing or does not convert, or the message of the event is
    /// not an outbound external one.
    pub fn build_from(event: &ExtractedEvent) -> (r: Result<RemoveCollectionRules, BuildError>)
        requires
            tokens_wf(event.tokens@),
        ensures
            match remove_collection_rules_view(*event) {
                Some(v) => r matches Ok(x) && x@ == v && x.wf(),
                None => r is Err,
            },
    {
        proof {
            lemma_tokens_wf_shallow(event.tokens@);
        }
        let p = &event.tokens;
        let s: Vec<Token> = Vec::new();
        let e: Vec<&str> = Vec::new();
        proof {
            assert(e@.map_values(|x: &str| x@) =~= Seq::<Seq<char>>::empty());
        }
        let collection = match lookup_addr(p, &s, &e, "collection") {
            Ok(v) => v,
            Err(e) => return Err(e),
        };
        let header = match build_header(event, None, Some(collection.clone())) {
            Ok(h) => h,
            Err(e) => return Err(e),
        };
        Ok(RemoveCollectionRules { header, collection })
    }
}

/// The record of a `AuctionRootOwnershipTransferred` event.
pub struct AuctionRootOwnershipTransferred {
    pub header: Header,
    pub old_owner: String,
    pub new_owner: String,
}

/// The view of a `AuctionRootOwnershipTransferred`.
pub struct AuctionRootOwnershipTransferredView {
    pub header: HeaderView,
    pub old_owner: Seq<char>,
    pub new_owner: Seq<char>,
}

impl View for AuctionRootOwnershipTransferred {
    type V = AuctionRootOwnershipTransferredView;

    open spec fn view(&self) -> AuctionRootOwnershipTransferredView {
        AuctionRootOwnershipTransferredView {
            header: self.header@,
            old_owner: self.old_owner@,
            new_owner: self.new_owner@,
        }
    }
}

/// The record that `AuctionRootOwnershipTransferred::build_from` builds from `ev`, or `None` where it
/// fails.
pub open spec fn auction_root_ownership_transferred_view(ev: ExtractedEvent) -> Option<AuctionRootOwnershipTransferredView> {
    let p = ev.tokens@;
    let s = Seq::<Token>::empty();
    let e = Seq::<Seq<char>>::empty();
    if ev.ext_out_header is Some
        && src_addr(p, s, e, "oldOwner"@) is Some
        && src_addr(p, s, e, "newOwner"@) is Some {
        Some(AuctionRootOwnershipTransferredView {
            header: header_view(ev, None, None),
            old_owner: src_addr(p, s, e, "oldOwner"@)->0,
            new_owner: src_addr(p, s, e, "newOwner"@)->0,
        })
    } else {
        None
    }
}

impl AuctionRootOwnershipTransferred {
    /// Whether the numbers of the record are well formed.
    pub open spec fn wf(&self) -> bool {
        true
    }

    /// The record of the event, or an error where
    /// a token is missing or does not convert, or the message of the event is
    /// not an outbound external one.
    pub fn build_from(event: &ExtractedEvent) -> (r: Result<AuctionRootOwnershipTransferred, BuildError>)
        requires
            tokens_wf(event.tokens@),
        ensures
            match auction_root_ownership_transferred_view(*event) {
                Some(v) => r matches Ok(x) && x@ == v && x.wf(),
                None => r is Err,
            },
    {
        proof {
            lemma_tokens_wf_shallow(event.tokens@);
        }
        let p = &event.tokens;
        let s: Vec<Token> = Vec::new();
        let e: Vec<&str> = Vec::new();
        proof {
            assert(e@.map_values(|x: &str| x@) =~= Seq::<Seq<char>>::empty());
        }
        let old_owner = match lookup_addr(p, &s, &e, "oldOwner") {
            Ok(v) => v,
            Err(e) => return Err(e),
        };
        let new_owner = match lookup_addr(p, &s, &e, "newOwner") {
            Ok(v) => v,
            Err(e) => return Err(e),
        };
        let header = match build_header(event, None, None) {
            Ok(h) => h,
            Err(e) => return Err(e),
        };
        Ok(AuctionRootOwnershipTransferred { header, old_owner, new_owner })
    }
}

/// The record of a `MarketFeeDefaultChanged` event.
pub struct MarketFeeDefaultChanged {
    pub header: Header,
    pub fee_numerator: i32,
    pub fee_denominator: i32,
}

/// The view of a `MarketFeeDefaultChanged`.
pub struct MarketFeeDefaultChangedView {
    pub header: HeaderView,
    pub fee_numerator: int,
    pub fee_denominator: int,
}

impl View for MarketFeeDefaultChanged {
    type V = MarketFeeDefaultChangedView;

    open spec fn view(&self) -> MarketFeeDefaultChangedView {
        MarketFeeDefaultChangedView {
            header: self.header@,
            fee_numerator: self.fee_numerator as int,
            fee_denominator: self.fee_denominator as int,
        }
    }
}

/// The record that `MarketFeeDefaultChanged::build_from` builds from `ev`, or `None` where it
/// fails.
pub open spec fn market_fee_default_changed_view(ev: ExtractedEvent) -> Option<MarketFeeDefaultChangedView> {
    match tuple_view(ev.tokens@, "fee"@) {
        None => None,
        Some(p) => {
            let s = ev.tokens@;
            let e = Seq::<Seq<char>>::empty();
            if ev.ext_out_header is Some
                && src_i32(p, s, e, "numerator"@) is Some
                && src_i32(p, s, e, "denominator"@) is Some {
                Some(MarketFeeDefaultChangedView {
                    header: header_view(ev, None, None),
                    fee_numerator: src_i32(p, s, e, "numerator"@)->0,
                    fee_denominator: src_i32(p, s, e, "denominator"@)->0,
                })
            } else {
                None
            }
        },
    }
}

impl MarketFeeDefaultChanged {
    /// Whether the numbers of the record are well formed.
    pub open spec fn wf(&self) -> bool {
        true
    }

    /// The record of the event, or an error where
    /// a token is missing or does not convert, or the message of the event is
    /// not an outbound external one.
    pub fn build_from(event: &ExtractedEvent) -> (r: Result<MarketFeeDefaultChanged, BuildError>)
        requires
            tokens_wf(event.tokens@),
        ensures
            match market_fee_default_changed_view(*event) {
                Some(v) => r matches Ok(x) && x@ == v && x.wf(),
                None => r is Err,
            },
    {
        proof {
            lemma_tokens_wf_shallow(event.tokens@);
        }
        let p = match tuple_named(&event.tokens, "fee") {
            Ok(v) => v,
            Err(e) => return Err(e),
        };
        let s = &event.tokens;
        let mut e: Vec<&str> = Vec::new();
        proof {
            assert(e@.map_values(|x: &str| x@) =~= Seq::<Seq<char>>::empty());
        }
        let fee_numerator = match lookup_i32(p, s, &e, "numerator") {
            Ok(v) => v,
            Err(e) => return Err(e),
        };
        let fee_denominator = match lookup_i32(p, s, &e, "denominator") {
            Ok(v) => v,
            Err(e) => return Err(e),
        };
        let header = match build_header(event, None, None) {
            Ok(h) => h,
            Err(e) => return Err(e),
        };
        Ok(MarketFeeDefaultChanged { header, fee_numerator, fee_denominator })
    }
}

/// The record of a `MarketFeeChanged` event.
pub struct MarketFeeChanged {
    pub header: Header,
    pub auction: String,
    pub fee_numerator: i32,
    pub fee_denominator: i32,
}

/// The view of a `MarketFeeChanged`.
pub struct MarketFeeChangedView {
    pub header: HeaderView,
    pub auction: Seq<char>,
    pub fee_numerator: int,
    pub fee_denominator: int,
}

impl View for MarketFeeChanged {
    type V = MarketFeeChangedView;

    open spec fn view(&self) -> MarketFeeChangedView {
        MarketFeeChangedView {
            header: self.header@,
            auction: self.auction@,
            fee_numerator: self.fee_numerator as int,
            fee_denominator: self.fee_denominator as int,
        }
    }
}

/// The record that `MarketFeeChanged::build_from` builds from `ev`, or `None` where it
/// fails.
pub open spec fn market_fee_changed_view(ev: ExtractedEvent) -> Option<MarketFeeChangedView> {
    match tuple_view(ev.tokens@, "fee"@) {
        None => None,
        Some(p) => {
            let s = ev.tokens@;
            let e = seq!["auction"@];
            if ev.ext_out_header is Some
                && find_token(ev.tokens@, "auction"@) is Some
                && src_addr(p, s, e, "auction"@) is Some
                && src_i32(p, s, e, "numerator"@) is Some
                && src_i32(p, s, e, "denominator"@) is Some {
                Some(MarketFeeChangedView {
                    header: header_view(ev, None, None),
                    auction: src_addr(p, s, e, "auction"@)->0,
                    fee_numerator: src_i32(p, s, e, "numerator"@)->0,
                    fee_denominator: src_i32(p, s, e, "denominator"@)->0,
                })
            } else {
                None
            }
        },
    }
}

impl MarketFeeChanged {
    /// Whether the numbers of the record are well formed.
    pub open spec fn wf(&self) -> bool {
        true
    }

    /// The record of the event, or an error where
    /// a token is missing or does not convert, or the message of the event is
    /// not an outbound external one.
    pub fn build_from(event: &ExtractedEvent) -> (r: Result<MarketFeeChanged, BuildError>)
        requires
            tokens_wf(event.tokens@),
        ensures
            match market_fee_changed_view(*event) {
                Some(v) => r matches Ok(x) && x@ == v && x.wf(),
                None => r is Err,
            },
    {
        proof {
            lemma_tokens_wf_shallow(event.tokens@);
        }
        let p = match tuple_named(&event.tokens, "fee") {
            Ok(v) => v,
            Err(e) => return Err(e),
        };
        let s = &event.tokens;
        let mut e: Vec<&str> = Vec::new();
        if find_named(&event.tokens, "auction").is_none() {
            return Err(BuildError::Malformed);
        }
        e.push("auction");
        proof {
            assert(e@.map_values(|x: &str| x@) =~= seq!["auction"@]);
        }
        let auction = match lookup_addr(p, s, &e, "auction") {
            Ok(v) => v,
            Err(e) => return Err(e),
        };
        let fee_numerator = match lookup_i32(p, s, &e, "numerator") {
            Ok(v) => v,
            Err(e) => return Err(e),
        };
        let fee_denominator = match lookup_i32(p, s, &e, "denominator") {
            Ok(v) => v,
            Err(e) => return Err(e),
        };
        let header = match build_header(event, None, None) {
            Ok(h) => h,
            Err(e) => return Err(e),
        };
        Ok(MarketFeeChanged { header, auction, fee_numerator, fee_denominator })
    }
}

/// The record of a `AuctionCreated` event.
pub struct AuctionCreated {
    pub header: Header,
    pub auction_subject: String,
    pub subject_owner: String,
    pub payment_token: String,
    pub wallet_for_bids: String,
    pub start_time: i64,
    pub duration: i64,
    pub finish_time: i64,
    pub price: Decimal,
    pub nonce: Decimal,
    pub status: i16,
}

/// The view of a `AuctionCreated`.
pub struct AuctionCreatedView {
    pub header: HeaderView,
    pub auction_subject: Seq<char>,
    pub subject_owner: Seq<char>,
    pub payment_token: Seq<char>,
    pub wallet_for_bids: Seq<char>,
    pub start_time: int,
    pub duration: int,
    pub finish_time: int,
    pub price: (int, int),
    pub nonce: (int, int),
    pub status: int,
}

impl View for AuctionCreated {
    type V = AuctionCreatedView;

    open spec fn view(&self) -> AuctionCreatedView {
        AuctionCreatedView {
            header: self.header@,
            auction_subject: self.auction_subject@,
            subject_owner: self.subject_owner@,
            payment_token: self.payment_token@,
            wallet_for_bids: self.wallet_for_bids@,
            start_time: self.start_time as int,
            duration: self.duration as int,
            finish_time: self.finish_time as int,
            price: self.price@,
            nonce: self.nonce@,
            status: self.status as int,
        }
    }
}

/// The record that `AuctionCreated::build_from` builds from `ev`, or `None` where it
/// fails.
pub open spec fn auction_created_view(ev: ExtractedEvent) -> Option<AuctionCreatedView> {
    match tuple_view(ev.tokens@, "value0"@) {
        None => None,
        Some(p) => {
            let s = ev.tokens@;
            let e = Seq::<Seq<char>>::empty();
            if ev.ext_out_header is Some
                && src_addr(p, s, e, "auctionSubject"@) is Some
                && src_addr(p, s, e, "subjectOwner"@) is Some
                && src_addr(p, s, e, "_paymentToken"@) is Some
                && src_addr(p, s, e, "walletForBids"@) is Some
                && src_i64(p, s, e, "startTime"@) is Some
                && src_i64(p, s, e, "duration"@) is Some
                && src_i64(p, s, e, "finishTime"@) is Some
                && src_dec(p, s, e, "_price"@) is Some
                && src_dec(p, s, e, "_nonce"@) is Some
                && src_i16(p, s, e, "status"@) is Some {
                Some(AuctionCreatedView {
                    header: header_view(ev, Some(src_addr(p, s, e, "auctionSubject"@)->0), None),
                    auction_subject: src_addr(p, s, e, "auctionSubject"@)->0,
                    subject_owner: src_addr(p, s, e, "subjectOwner"@)->0,
                    payment_token: src_addr(p, s, e, "_paymentToken"@)->0,
                    wallet_for_bids: src_addr(p, s, e, "walletForBids"@)->0,
                    start_time: src_i64(p, s, e, "startTime"@)->0,
                    duration: src_i64(p, s, e, "duration"@)->0,
                    finish_time: src_i64(p, s, e, "finishTime"@)->0,
                    price: src_dec(p, s, e, "_price"@)->0,
                    nonce: src_dec(p, s, e, "_nonce"@)->0,
                    status: src_i16(p, s, e, "status"@)->0,
                })
            } else {
                None
            }
        },
    }
}

impl AuctionCreated {
    /// Whether the numbers of the record are well formed.
    pub open spec fn wf(&self) -> bool {
        self.price.wf() && self.nonce.wf()
    }

    /// The record of the event, or an error where
    /// a token is missing or does not convert, or the message of the event is
    /// not an outbound external one.
    pub fn build_from(event: &ExtractedEvent) -> (r: Result<AuctionCreated, BuildError>)
        requires
            tokens_wf(event.tokens@),
        ensures
            match auction_created_view(*event) {
                Some(v) => r matches Ok(x) && x@ == v && x.wf(),
                None => r is Err,
            },
    {
        proof {
            lemma_tokens_wf_shallow(event.tokens@);
        }
        let p = match tuple_named(&event.tokens, "value0") {
            Ok(v) => v,
            Err(e) => return Err(e),
        };
        let s = &event.tokens;
        let mut e: Vec<&str> = Vec::new();
        proof {
            assert(e@.map_values(|x: &str| x@) =~= Seq::<Seq<char>>::empty());
        }
        let auction_subject = match lookup_addr(p, s, &e, "auctionSubject") {
            Ok(v) => v,
            Err(e) => return Err(e),
        };
        let subject_owner = match lookup_addr(p, s, &e, "subjectOwner") {
            Ok(v) => v,
            Err(e) => return Err(e),
        };
        let payment_token = match lookup_addr(p, s, &e, "_paymentToken") {
            Ok(v) => v,
            Err(e) => return Err(e),
        };
        let wallet_for_bids = match lookup_addr(p, s, &e, "walletForBids") {
            Ok(v) => v,
            Err(e) => return Err(e),
        };
        let start_time = match lookup_i64(p, s, &e, "startTime") {
            Ok(v) => v,
            Err(e) => return Err(e),
        };
        let duration = match lookup_i64(p, s, &e, "duration") {
            Ok(v) => v,
            Err(e) => return Err(e),
        };
        let finish_time = match lookup_i64(p, s, &e, "finishTime") {
            Ok(v) => v,
            Err(e) => return Err(e),
        };
        let price = match lookup_dec(p, s, &e, "_price") {
            Ok(v) => v,
            Err(e) => return Err(e),
        };
        let nonce = match lookup_dec(p, s, &e, "_nonce") {
            Ok(v) => v,
            Err(e) => return Err(e),
        };
        let status = match lookup_i16(p, s, &e, "status") {
            Ok(v) => v,
            Err(e) => return Err(e),
        };
        let header = match build_header(event, Some(auction_subject.clone()), None) {
            Ok(h) => h,
            Err(e) => return Err(e),
        };
        Ok(AuctionCreated { header, auction_subject, subject_owner, payment_token, wallet_for_bids, start_time, duration, finish_time, price, nonce, status })
    }
}

/// The record of a `AuctionActive` event.
pub struct AuctionActive {
    pub header: Header,
    pub auction_subject: String,
    pub subject_owner: String,
    pub payment_token: String,
    pub wallet_for_bids: String,
    pub start_time: i64,
    pub duration: i64,
    pub finish_time: i64,
    pub price: Decimal,
    pub nonce: Decimal,
    pub status: i16,
}

/// The view of a `AuctionActive`.
pub struct AuctionActiveView {
    pub header: HeaderView,
    pub auction_subject: Seq<char>,
    pub subject_owner: Seq<char>,
    pub payment_token: Seq<char>,
    pub wallet_for_bids: Seq<char>,
    pub start_time: int,
    pub duration: int,
    pub finish_time: int,
    pub price: (int, int),
    pub nonce: (int, int),
    pub status: int,
}

impl View for AuctionActive {
    type V = AuctionActiveView;

    open spec fn view(&self) -> AuctionActiveView {
        AuctionActiveView {
            header: self.header@,
            auction_subject: self.auction_subject@,
            subject_owner: self.subject_owner@,
            payment_token: self.payment_token@,
            wallet_for_bids: self.wallet_for_bids@,
            start_time: self.start_time as int,
            duration: self.duration as int,
            finish_time: self.finish_time as int,
            price: self.price@,
            nonce: self.nonce@,
            status: self.status as int,
        }
    }
}

/// The record that `AuctionActive::build_from` builds from `ev`, or `None` where it
/// fails.
pub open spec fn auction_active_view(ev: ExtractedEvent) -> Option<AuctionActiveView> {
    match tuple_view(ev.tokens@, "value0"@) {
        None => None,
        Some(p) => {
            let s = ev.tokens@;
            let e = Seq::<Seq<char>>::empty();
            if ev.ext_out_header is Some
                && src_addr(p, s, e, "auctionSubject"@) is Some
                && src_addr(p, s, e, "subjectOwner"@) is Some
                && src_addr(p, s, e, "_paymentToken"@) is Some
                && src_addr(p, s, e, "walletForBids"@) is Some
                && src_i64(p, s, e, "startTime"@) is Some
                && src_i64(p, s, e, "duration"@) is Some
                && src_i64(p, s, e, "finishTime"@) is Some
                && src_dec(p, s, e, "_price"@) is Some
                && src_dec(p, s, e, "_nonce"@) is Some
                && src_i16(p, s, e, "status"@) is Some {
                Some(AuctionActiveView {
                    header: header_view(ev, Some(src_addr(p, s, e, "auctionSubject"@)->0), None),
                    auction_subject: src_addr(p, s, e, "auctionSubject"@)->0,
                    subject_owner: src_addr(p, s, e, "subjectOwner"@)->0,
                    payment_token: src_addr(p, s, e, "_paymentToken"@)->0,
                    wallet_for_bids: src_addr(p, s, e, "walletForBids"@)->0,
                    start_time: src_i64(p, s, e, "startTime"@)->0,
                    duration: src_i64(p, s, e, "duration"@)->0,
                    finish_time: src_i64(p, s, e, "finishTime"@)->0,
                    price: src_dec(p, s, e, "_price"@)->0,
                    nonce: src_dec(p, s, e, "_nonce"@)->0,
                    status: src_i16(p, s, e, "status"@)->0,
                })
            } else {
                None
            }
        },
    }
}

impl AuctionActive {
    /// Whether the numbers of the record are well formed.
    pub open spec fn wf(&self) -> bool {
        self.price.wf() && self.nonce.wf()
    }

    /// The record of the event, or an error where
    /// a token is missing or does not convert, or the message of the event is
    /// not an outbound external one.
    pub fn build_from(event: &ExtractedEvent) -> (r: Result<AuctionActive, BuildError>)
        requires
            tokens_wf(event.tokens@),
        ensures
            match auction_active_view(*event) {
                Some(v) => r matches Ok(x) && x@ == v && x.wf(),
                None => r is Err,
            },
    {
        proof {
            lemma_tokens_wf_shallow(event.tokens@);
        }
        let p = match tuple_named(&event.tokens, "value0") {
            Ok(v) => v,
            Err(e) => return Err(e),
        };
        let s = &event.tokens;
        let mut e: Vec<&str> = Vec::new();
        proof {
            assert(e@.map_values(|x: &str| x@) =~= Seq::<Seq<char>>::empty());
        }
        let auction_subject = match lookup_addr(p, s, &e, "auctionSubject") {
            Ok(v) => v,
            Err(e) => return Err(e),
        };
        let subject_owner = match lookup_addr(p, s, &e, "subjectOwner") {
            Ok(v) => v,
            Err(e) => return Err(e),
        };
        let payment_token = match lookup_addr(p, s, &e, "_paymentToken") {
            Ok(v) => v,
            Err(e) => return Err(e),
        };
        let wallet_for_bids = match lookup_addr(p, s, &e, "walletForBids") {
            Ok(v) => v,
            Err(e) => return Err(e),
        };
        let start_time = match lookup_i64(p, s, &e, "startTime") {
            Ok(v) => v,
            Err(e) => return Err(e),
        };
        let duration = match lookup_i64(p, s, &e, "duration") {
            Ok(v) => v,
            Err(e) => return Err(e),
        };
        let finish_time = match lookup_i64(p, s, &e, "finishTime") {
            Ok(v) => v,
            Err(e) => return Err(e),
        };
        let price = match lookup_dec(p, s, &e, "_price") {
            Ok(v) => v,
            Err(e) => return Err(e),
        };
        let nonce = match lookup_dec(p, s, &e, "_nonce") {
            Ok(v) => v,
            Err(e) => return Err(e),
        };
        let status = match lookup_i16(p, s, &e, "status") {
            Ok(v) => v,
            Err(e) => return Err(e),
        };
        let header = match build_header(event, Some(auction_subject.clone()), None) {
            Ok(h) => h,
            Err(e) => return Err(e),
        };
        Ok(AuctionActive { header, auction_subject, subject_owner, payment_token, wallet_for_bids, start_time, duration, finish_time, price, nonce, status })
    }
}

/// The record of a `AuctionBidPlaced` event.
pub struct AuctionBidPlaced {
    pub header: Header,
    pub buyer: String,
    pub value: Decimal,
    pub next_bid_value: Decimal,
}

/// The view of a `AuctionBidPlaced`.
pub struct AuctionBidPlacedView {
    pub header: HeaderView,
    pub buyer: Seq<char>,
    pub value: (int, int),
    pub next_bid_value: (int, int),
}

impl View for AuctionBidPlaced {
    type V = AuctionBidPlacedView;

    open spec fn view(&self) -> AuctionBidPlacedView {
        AuctionBidPlacedView {
            header: self.header@,
            buyer: self.buyer@,
            value: self.value@,
            next_bid_value: self.next_bid_value@,
        }
    }
}

/// The record that `AuctionBidPlaced::build_from` builds from `ev`, or `None` where it
/// fails.
pub open spec fn auction_bid_placed_view(ev: ExtractedEvent) -> Option<AuctionBidPlacedView> {
    let p = ev.tokens@;
    let s = Seq::<Token>::empty();
    let e = Seq::<Seq<char>>::empty();
    if ev.ext_out_header is Some
        && src_addr(p, s, e, "buyer"@) is Some
        && src_dec(p, s, e, "value"@) is Some
        && src_dec(p, s, e, "nextBidValue"@) is Some {
        Some(AuctionBidPlacedView {
            header: header_view(ev, None, None),
            buyer: src_addr(p, s, e, "buyer"@)->0,
            value: src_dec(p, s, e, "value"@)->0,
            next_bid_value: src_dec(p, s, e, "nextBidValue"@)->0,
        })
    } else {
        None
    }
}

impl AuctionBidPlaced {
    /// Whether the numbers of the record are well formed.
    pub open spec fn wf(&self) -> bool {
        self.value.wf() && self.next_bid_value.wf()
    }

    /// The record of the event, or an error where
    /// a token is missing or does not convert, or the message of the event is
    /// not an outbound external one.
    pub fn build_from(event: &ExtractedEvent) -> (r: Result<AuctionBidPlaced, BuildError>)
        requires
            tokens_wf(event.tokens@),
        ensures
            match auction_bid_placed_view(*event) {
                Some(v) => r matches Ok(x) && x@ == v && x.wf(),
                None => r is Err,
            },
    {
        proof {
            lemma_tokens_wf_shallow(event.tokens@);
        }
        let p = &event.tokens;
        let s: Vec<Token> = Vec::new();
        let e: Vec<&str> = Vec::new();
        proof {
            assert(e@.map_values(|x: &str| x@) =~= Seq::<Seq<char>>::empty());
        }
        let buyer = match lookup_addr(p, &s, &e, "buyer") {
            Ok(v) => v,
            Err(e) => return Err(e),
        };
        let value = match lookup_dec(p, &s, &e, "value") {
            Ok(v) => v,
            Err(e) => return Err(e),
        };
        let next_bid_value = match lookup_dec(p, &s, &e, "nextBidValue") {
            Ok(v) => v,
            Err(e) => return Err(e),
        };
        let header = match build_header(event, None, None) {
            Ok(h) => h,
            Err(e) => return Err(e),
        };
        Ok(AuctionBidPlaced { header, buyer, value, next_bid_value })
    }
}

/// The record of a `AuctionBidDeclined` event.
pub struct AuctionBidDeclined {
    pub header: Header,
    pub buyer: String,
    pub value: Decimal,
}

/// The view of a `AuctionBidDeclined`.
pub struct AuctionBidDeclinedView {
    pub header: HeaderView,
    pub buyer: Seq<char>,
    pub value: (int, int),
}

impl View for AuctionBidDeclined {
    type V = AuctionBidDeclinedView;

    open spec fn view(&self) -> AuctionBidDeclinedView {
        AuctionBidDeclinedView {
            header: self.header@,
            buyer: self.buyer@,
            value: self.value@,
        }
    }
}

/// The record that `AuctionBidDeclined::build_from` builds from `ev`, or `None` where it
/// fails.
pub open spec fn auction_bid_declined_view(ev: ExtractedEvent) -> Option<AuctionBidDeclinedView> {
    let p = ev.tokens@;
    let s = Seq::<Token>::empty();
    let e = Seq::<Seq<char>>::empty();
    if ev.ext_out_header is Some
        && src_addr(p, s, e, "buyer"@) is Some
        && src_dec(p, s, e, "value"@) is Some {
        Some(AuctionBidDeclinedView {
            header: header_view(ev, None, None),
            buyer: src_addr(p, s, e, "buyer"@)->0,
            value: src_dec(p, s, e, "value"@)->0,
        })
    } else {
        None
    }
}

impl AuctionBidDeclined {
    /// Whether the numbers of the record are well formed.
    pub open spec fn wf(&self) -> bool {
        self.value.wf()
    }

    /// The record of the event, or an error where
    /// a token is missing or does not convert, or the message of the event is
    /// not an outbound external one.
    pub fn build_from(event: &ExtractedEvent) -> (r: Result<AuctionBidDeclined, BuildError>)
        requires
            tokens_wf(event.tokens@),
        ensures
            match auction_bid_declined_view(*event) {
                Some(v) => r matches Ok(x) && x@ == v && x.wf(),
                None => r is Err,
            },
    {
        proof {
            lemma_tokens_wf_shallow(event.tokens@);
        }
        let p = &event.tokens;
        let s: Vec<Token> = Vec::new();
        let e: Vec<&str> = Vec::new();
        proof {
            assert(e@.map_values(|x: &str| x@) =~= Seq::<Seq<char>>::empty());
        }
        let buyer = match lookup_addr(p, &s, &e, "buyer") {
            Ok(v) => v,
            Err(e) => return Err(e),
        };
        let value = match lookup_dec(p, &s, &e, "value") {
            Ok(v) => v,
            Err(e) => return Err(e),
        };
        let header = match build_header(event, None, None) {
            Ok(h) => h,
            Err(e) => return Err(e),
        };
        Ok(AuctionBidDeclined { header, buyer, value })
    }
}

/// The record of a `AuctionComplete` event.
pub struct AuctionComplete {
    pub header: Header,
    pub seller: String,
    pub buyer: String,
    pub value: Decimal,
}

/// The view of a `AuctionComplete`.
pub struct AuctionCompleteView {
    pub header: HeaderView,
    pub seller: Seq<char>,
    pub buyer: Seq<char>,
    pub value: (int, int),
}

impl View for AuctionComplete {
    type V = AuctionCompleteView;

    open spec fn view(&self) -> AuctionCompleteView {
        AuctionCompleteView {
            header: self.header@,
            seller: self.seller@,
            buyer: self.buyer@,
            value: self.value@,
        }
    }
}

/// The record that `AuctionComplete::build_from` builds from `ev`, or `None` where it
/// fails.
pub open spec fn auction_complete_view(ev: ExtractedEvent) -> Option<AuctionCompleteView> {
    let p = ev.tokens@;
    let s = Seq::<Token>::empty();
    let e = Seq::<Seq<char>>::empty();
    if ev.ext_out_header is Some
        && src_addr(p, s, e, "seller"@) is Some
        && src_addr(p, s, e, "buyer"@) is Some
        && src_dec(p, s, e, "value"@) is Some {
        Some(AuctionCompleteView {
            header: header_view(ev, None, None),
            seller: src_addr(p, s, e, "seller"@)->0,
            buyer: src_addr(p, s, e, "buyer"@)->0,
            value: src_dec(p, s, e, "value"@)->0,
        })
    } else {
        None
    }
}

impl AuctionComplete {
    /// Whether the numbers of the record are well formed.
    pub open spec fn wf(&self) -> bool {
        self.value.wf()
    }

    /// The record of the event, or an error where
    /// a token is missing or does not convert, or the message of the event is
    /// not an outbound external one.
    pub fn build_from(event: &ExtractedEvent) -> (r: Result<AuctionComplete, BuildError>)
        requires
            tokens_wf(event.tokens@),
        ensures
            match auction_complete_view(*event) {
                Some(v) => r matches Ok(x) && x@ == v && x.wf(),
                None => r is Err,
            },
    {
        proof {
            lemma_tokens_wf_shallow(event.tokens@);
        }
        let p = &event.tokens;
        let s: Vec<Token> = Vec::new();
        let e: Vec<&str> = Vec::new();
        proof {
            assert(e@.map_values(|x: &str| x@) =~= Seq::<Seq<char>>::empty());
        }
        let seller = match lookup_addr(p, &s, &e, "seller") {
            Ok(v) => v,
            Err(e) => return Err(e),
        };
        let buyer = match lookup_addr(p, &s, &e, "buyer") {
            Ok(v) => v,
            Err(e) => return Err(e),
        };
        let value = match lookup_dec(p, &s, &e, "value") {
            Ok(v) => v,
            Err(e) => return Err(e),
        };
        let header = match build_header(event, None, None) {
            Ok(h) => h,
            Err(e) => return Err(e),
        };
        Ok(AuctionComplete { header, seller, buyer, value })
    }
}

/// The record of a `AuctionCancelled` event.
pub struct AuctionCancelled {
    pub header: Header,
}

/// The view of a `AuctionCancelled`.
pub struct AuctionCancelledView {
    pub header: HeaderView,
}

impl View for AuctionCancelled {
    type V = AuctionCancelledView;

    open spec fn view(&self) -> AuctionCancelledView {
        AuctionCancelledView {
            header: self.header@,
        }
    }
}

/// The record that `AuctionCancelled::build_from` builds from `ev`, or `None` where it
/// fails.
pub open spec fn auction_cancelled_view(ev: ExtractedEvent) -> Option<AuctionCancelledView> {
    let p = ev.tokens@;
    let s = Seq::<Token>::empty();
    let e = Seq::<Seq<char>>::empty();
    if ev.ext_out_header is Some {
        Some(AuctionCancelledView {
            header: header_view(ev, None, None),
        })
    } else {
        None
    }
}

impl AuctionCancelled {
    /// Whether the numbers of the record are well formed.
    pub open spec fn wf(&self) -> bool {
        true
    }

    /// The record of the event, or an error where
    /// a token is missing or does not convert, or the message of the event is
    /// not an outbound external one.
    pub fn build_from(event: &ExtractedEvent) -> (r: Result<AuctionCancelled, BuildError>)
        requires
            tokens_wf(event.tokens@),
        ensures
            match auction_cancelled_view(*event) {
                Some(v) => r matches Ok(x) && x@ == v && x.wf(),
                None => r is Err,
            },
    {
        proof {
            lemma_tokens_wf_shallow(event.tokens@);
        }
        let p = &event.tokens;
        let s: Vec<Token> = Vec::new();
        let e: Vec<&str> = Vec::new();
        proof {
            assert(e@.map_values(|x: &str| x@) =~= Seq::<Seq<char>>::empty());
        }
        let header = match build_header(event, None, None) {
            Ok(h) => h,
            Err(e) => return Err(e),
        };
        Ok(AuctionCancelled { header })
    }
}

/// The record of a `DirectBuyDeployed` event.
pub struct DirectBuyDeployed {
    pub header: Header,
    pub direct_buy: String,
    pub sender: String,
    pub token: String,
    pub nft: String,
    pub nonce: Decimal,
    pub amount: Decimal,
}

/// The view of a `DirectBuyDeployed`.
pub struct DirectBuyDeployedView {
    pub header: HeaderView,
    pub direct_buy: Seq<char>,
    pub sender: Seq<char>,
    pub token: Seq<char>,
    pub nft: Seq<char>,
    pub nonce: (int, int),
    pub amount: (int, int),
}

impl View for DirectBuyDeployed {
    type V = DirectBuyDeployedView;

    open spec fn view(&self) -> DirectBuyDeployedView {
        DirectBuyDeployedView {
            header: self.header@,
            direct_buy: self.direct_buy@,
            sender: self.sender@,
            token: self.token@,
            nft: self.nft@,
            nonce: self.nonce@,
            amount: self.amount@,
        }
    }
}

/// The record that `DirectBuyDeployed::build_from` builds from `ev`, or `None` where it
/// fails.
pub open spec fn direct_buy_deployed_view(ev: ExtractedEvent) -> Option<DirectBuyDeployedView> {
    let p = ev.tokens@;
    let s = Seq::<Token>::empty();
    let e = Seq::<Seq<char>>::empty();
    if ev.ext_out_header is Some
        && src_addr(p, s, e, "directBuy"@) is Some
        && src_addr(p, s, e, "sender"@) is Some
        && src_addr(p, s, e, "token"@) is Some
        && src_addr(p, s, e, "nft"@) is Some
        && src_dec(p, s, e, "nonce"@) is Some
        && src_dec(p, s, e, "amount"@) is Some {
        Some(DirectBuyDeployedView {
            header: header_view(ev, Some(src_addr(p, s, e, "nft"@)->0), None),
            direct_buy: src_addr(p, s, e, "directBuy"@)->0,
            sender: src_addr(p, s, e, "sender"@)->0,
            token: src_addr(p, s, e, "token"@)->0,
            nft: src_addr(p, s, e, "nft"@)->0,
            nonce: src_dec(p, s, e, "nonce"@)->0,
            amount: src_dec(p, s, e, "amount"@)->0,
        })
    } else {
        None
    }
}

impl DirectBuyDeployed {
    /// Whether the numbers of the record are well formed.
    pub open spec fn wf(&self) -> bool {
        self.nonce.wf() && self.amount.wf()
    }

    /// The record of the event, or an error where
    /// a token is missing or does not convert, or the message of the event is
    /// not an outbound external one.
    pub fn build_from(event: &ExtractedEvent) -> (r: Result<DirectBuyDeployed, BuildError>)
        requires
            tokens_wf(event.tokens@),
        ensures
            match direct_buy_deployed_view(*event) {
                Some(v) => r matches Ok(x) && x@ == v && x.wf(),
                None => r is Err,
            },
    {
        proof {
            lemma_tokens_wf_shallow(event.tokens@);
        }
        let p = &event.tokens;
        let s: Vec<Token> = Vec::new();
        let e: Vec<&str> = Vec::new();
        proof {
            assert(e@.map_values(|x: &str| x@) =~= Seq::<Seq<char>>::empty());
        }
        let direct_buy = match lookup_addr(p, &s, &e, "directBuy") {
            Ok(v) => v,
            Err(e) => return Err(e),
        };
        let sender = match lookup_addr(p, &s, &e, "sender") {
            Ok(v) => v,
            Err(e) => return Err(e),
        };
        let token = match lookup_addr(p, &s, &e, "token") {
            Ok(v) => v,
            Err(e) => return Err(e),
        };
        let nft = match lookup_addr(p, &s, &e, "nft") {
            Ok(v) => v,
            Err(e) => return Err(e),
        };
        let nonce = match lookup_dec(p, &s, &e, "nonce") {
            Ok(v) => v,
            Err(e) => return Err(e),
        };
        let amount = match lookup_dec(p, &s, &e, "amount") {
            Ok(v) => v,
            Err(e) => return Err(e),
        };
        let header = match build_header(event, Some(nft.clone()), None) {
            Ok(h) => h,
            Err(e) => return Err(e),
        };
        Ok(DirectBuyDeployed { header, direct_buy, sender, token, nft, nonce, amount })
    }
}

/// The record of a `DirectBuyDeclined` event.
pub struct DirectBuyDeclined {
    pub header: Header,
    pub sender: String,
    pub token: String,
    pub amount: Decimal,
    pub nft: String,
}

/// The view of a `DirectBuyDeclined`.
pub struct DirectBuyDeclinedView {
    pub header: HeaderView,
    pub sender: Seq<char>,
    pub token: Seq<char>,
    pub amount: (int, int),
    pub nft: Seq<char>,
}

impl View for DirectBuyDeclined {
    type V = DirectBuyDeclinedView;

    open spec fn view(&self) -> DirectBuyDeclinedView {
        DirectBuyDeclinedView {
            header: self.header@,
            sender: self.sender@,
            token: self.token@,
            amount: self.amount@,
            nft: self.nft@,
        }
    }
}

/// The record that `DirectBuyDeclined::build_from` builds from `ev`, or `None` where it
/// fails.
pub open spec fn direct_buy_declined_view(ev: ExtractedEvent) -> Option<DirectBuyDeclinedView> {
    let p = ev.tokens@;
    let s = Seq::<Token>::empty();
    let e = Seq::<Seq<char>>::empty();
    if ev.ext_out_header is Some
        && src_addr(p, s, e, "sender"@) is Some
        && src_addr(p, s, e, "token"@) is Some
        && src_dec(p, s, e, "amount"@) is Some
        && src_addr(p, s, e, "nft"@) is Some {
        Some(DirectBuyDeclinedView {
            header: header_view(ev, Some(src_addr(p, s, e, "nft"@)->0), None),
            sender: src_addr(p, s, e, "sender"@)->0,
            token: src_addr(p, s, e, "token"@)->0,
            amount: src_dec(p, s, e, "amount"@)->0,
            nft: src_addr(p, s, e, "nft"@)->0,
        })
    } else {
        None
    }
}

impl DirectBuyDeclined {
    /// Whether the numbers of the record are well formed.
    pub open spec fn wf(&self) -> bool {
        self.amount.wf()
    }

    /// The record of the event, or an error where
    /// a token is missing or does not convert, or the message of the event is
    /// not an outbound external one.
    pub fn build_from(event: &ExtractedEvent) -> (r: Result<DirectBuyDeclined, BuildError>)
        requires
            tokens_wf(event.tokens@),
        ensures
            match direct_buy_declined_view(*event) {
                Some(v) => r matches Ok(x) && x@ == v && x.wf(),
                None => r is Err,
            },
    {
        proof {
            lemma_tokens_wf_shallow(event.tokens@);
        }
        let p = &event.tokens;
        let s: Vec<Token> = Vec::new();
        let e: Vec<&str> = Vec::new();
        proof {
            assert(e@.map_values(|x: &str| x@) =~= Seq::<Seq<char>>::empty());
        }
        let sender = match lookup_addr(p, &s, &e, "sender") {
            Ok(v) => v,
            Err(e) => return Err(e),
        };
        let token = match lookup_addr(p, &s, &e, "token") {
            Ok(v) => v,
            Err(e) => return Err(e),
        };
        let amount = match lookup_dec(p, &s, &e, "amount") {
            Ok(v) => v,
            Err(e) => return Err(e),
        };
        let nft = match lookup_addr(p, &s, &e, "nft") {
            Ok(v) => v,
            Err(e) => return Err(e),
        };
        let header = match build_header(event, Some(nft.clone()), None) {
            Ok(h) => h,
            Err(e) => return Err(e),
        };
        Ok(DirectBuyDeclined { header, sender, token, amount, nft })
    }
}

/// The record of a `FactoryDirectBuyOwnershipTransferred` event.
pub struct FactoryDirectBuyOwnershipTransferred {
    pub header: Header,
    pub old_owner: String,
    pub new_owner: String,
}

/// The view of a `FactoryDirectBuyOwnershipTransferred`.
pub struct FactoryDirectBuyOwnershipTransferredView {
    pub header: HeaderView,
    pub old_owner: Seq<char>,
    pub new_owner: Seq<char>,
}

impl View for FactoryDirectBuyOwnershipTransferred {
    type V = FactoryDirectBuyOwnershipTransferredView;

    open spec fn view(&self) -> FactoryDirectBuyOwnershipTransferredView {
        FactoryDirectBuyOwnershipTransferredView {
            header: self.header@,
            old_owner: self.old_owner@,
            new_owner: self.new_owner@,
        }
    }
}

/// The record that `FactoryDirectBuyOwnershipTransferred::build_from` builds from `ev`, or `None` where it
/// fails.
pub open spec fn factory_direct_buy_ownership_transferred_view(ev: ExtractedEvent) -> Option<FactoryDirectBuyOwnershipTransferredView> {
    let p = ev.tokens@;
    let s = Seq::<Token>::empty();
    let e = Seq::<Seq<char>>::empty();
    if ev.ext_out_header is Some
        && src_addr(p, s, e, "oldOwner"@) is Some
        && src_addr(p, s, e, "newOwner"@) is Some {
        Some(FactoryDirectBuyOwnershipTransferredView {
            header: header_view(ev, None, None),
            old_owner: src_addr(p, s, e, "oldOwner"@)->0,
            new_owner: src_addr(p, s, e, "newOwner"@)->0,
        })
    } else {
        None
    }
}

impl FactoryDirectBuyOwnershipTransferred {
    /// Whether the numbers of the record are well formed.
    pub open spec fn wf(&self) -> bool {
        true
    }

    /// The record of the event, or an error where
    /// a token is missing or does not convert, or the message of the event is
    /// not an outbound external one.
    pub fn build_from(event: &ExtractedEvent) -> (r: Result<FactoryDirectBuyOwnershipTransferred, BuildError>)
        requires
            tokens_wf(event.tokens@),
        ensures
            match factory_direct_buy_ownership_transferred_view(*event) {
                Some(v) => r matches Ok(x) && x@ == v && x.wf(),
                None => r is Err,
            },
    {
        proof {
            lemma_tokens_wf_shallow(event.tokens@);
        }
        let p = &event.tokens;
        let s: Vec<Token> = Vec::new();
        let e: Vec<&str> = Vec::new();
        proof {
            assert(e@.map_values(|x: &str| x@) =~= Seq::<Seq<char>>::empty());
        }
        let old_owner = match lookup_addr(p, &s, &e, "oldOwner") {
            Ok(v) => v,
            Err(e) => return Err(e),
        };
        let new_owner = match lookup_addr(p, &s, &e, "newOwner") {
            Ok(v) => v,
            Err(e) => return Err(e),
        };
        let header = match build_header(event, None, None) {
            Ok(h) => h,
            Err(e) => return Err(e),
        };
        Ok(FactoryDirectBuyOwnershipTransferred { header, old_owner, new_owner })
    }
}

/// The record of a `DirectSellDeployed` event.
pub struct DirectSellDeployed {
    pub header: Header,
    pub direct_sell: String,
    pub sender: String,
    pub payment_token: String,
    pub nft: String,
    pub nonce: Decimal,
    pub price: Decimal,
}

/// The view of a `DirectSellDeployed`.
pub struct DirectSellDeployedView {
    pub header: HeaderView,
    pub direct_sell: Seq<char>,
    pub sender: Seq<char>,
    pub payment_token: Seq<char>,
    pub nft: Seq<char>,
    pub nonce: (int, int),
    pub price: (int, int),
}

impl View for DirectSellDeployed {
    type V = DirectSellDeployedView;

    open spec fn view(&self) -> DirectSellDeployedView {
        DirectSellDeployedView {
            header: self.header@,
            direct_sell: self.direct_sell@,
            sender: self.sender@,
            payment_token: self.payment_token@,
            nft: self.nft@,
            nonce: self.nonce@,
            price: self.price@,
        }
    }
}

/// The record that `DirectSellDeployed::build_from` builds from `ev`, or `None` where it
/// fails.
pub open spec fn direct_sell_deployed_view(ev: ExtractedEvent) -> Option<DirectSellDeployedView> {
    let p = ev.tokens@;
    let s = Seq::<Token>::empty();
    let e = Seq::<Seq<char>>::empty();
    if ev.ext_out_header is Some
        && src_addr(p, s, e, "directSell"@) is Some
        && src_addr(p, s, e, "sender"@) is Some
        && src_addr(p, s, e, "paymentToken"@) is Some
        && src_addr(p, s, e, "nft"@) is Some
        && src_dec(p, s, e, "nonce"@) is Some
        && src_dec(p, s, e, "price"@) is Some {
        Some(DirectSellDeployedView {
            header: header_view(ev, Some(src_addr(p, s, e, "nft"@)->0), None),
            direct_sell: src_addr(p, s, e, "directSell"@)->0,
            sender: src_addr(p, s, e, "sender"@)->0,
            payment_token: src_addr(p, s, e, "paymentToken"@)->0,
            nft: src_addr(p, s, e, "nft"@)->0,
            nonce: src_dec(p, s, e, "nonce"@)->0,
            price: src_dec(p, s, e, "price"@)->0,
        })
    } else {
        None
    }
}

impl DirectSellDeployed {
    /// Whether the numbers of the record are well formed.
    pub open spec fn wf(&self) -> bool {
        self.nonce.wf() && self.price.wf()
    }

    /// The record of the event, or an error where
    /// a token is missing or does not convert, or the message of the event is
    /// not an outbound external one.
    pub fn build_from(event: &ExtractedEvent) -> (r: Result<DirectSellDeployed, BuildError>)
        requires
            tokens_wf(event.tokens@),
        ensures
            match direct_sell_deployed_view(*event) {
                Some(v) => r matches Ok(x) && x@ == v && x.wf(),
                None => r is Err,
            },
    {
        proof {
            lemma_tokens_wf_shallow(event.tokens@);
        }
        let p = &event.tokens;
        let s: Vec<Token> = Vec::new();
        let e: Vec<&str> = Vec::new();
        proof {
            assert(e@.map_values(|x: &str| x@) =~= Seq::<Seq<char>>::empty());
        }
        let direct_sell = match lookup_addr(p, &s, &e, "directSell") {
            Ok(v) => v,
            Err(e) => return Err(e),
        };
        let sender = match lookup_addr(p, &s, &e, "sender") {
            Ok(v) => v,
            Err(e) => return Err(e),
        };
        let payment_token = match lookup_addr(p, &s, &e, "paymentToken") {
            Ok(v) => v,
            Err(e) => return Err(e),
        };
        let nft = match lookup_addr(p, &s, &e, "nft") {
            Ok(v) => v,
            Err(e) => return Err(e),
        };
        let nonce = match lookup_dec(p, &s, &e, "nonce") {
            Ok(v) => v,
            Err(e) => return Err(e),
        };
        let price = match lookup_dec(p, &s, &e, "price") {
            Ok(v) => v,
            Err(e) => return Err(e),
        };
        let header = match build_header(event, Some(nft.clone()), None) {
            Ok(h) => h,
            Err(e) => return Err(e),
        };
        Ok(DirectSellDeployed { header, direct_sell, sender, payment_token, nft, nonce, price })
    }
}

/// The record of a `DirectSellDeclined` event.
pub struct DirectSellDeclined {
    pub header: Header,
    pub sender: String,
    pub nft: String,
}

/// The view of a `DirectSellDeclined`.
pub struct DirectSellDeclinedView {
    pub header: HeaderView,
    pub sender: Seq<char>,
    pub nft: Seq<char>,
}

impl View for DirectSellDeclined {
    type V = DirectSellDeclinedView;

    open spec fn view(&self) -> DirectSellDeclinedView {
        DirectSellDeclinedView {
            header: self.header@,
            sender: self.sender@,
            nft: self.nft@,
        }
    }
}

/// The record that `DirectSellDeclined::build_from` builds from `ev`, or `None` where it
/// fails.
pub open spec fn direct_sell_declined_view(ev: ExtractedEvent) -> Option<DirectSellDeclinedView> {
    let p = ev.tokens@;
    let s = Seq::<Token>::empty();
    let e = Seq::<Seq<char>>::empty();
    if ev.ext_out_header is Some
        && src_addr(p, s, e, "sender"@) is Some
        && src_addr(p, s, e, "nft"@) is Some {
        Some(DirectSellDeclinedView {
            header: header_view(ev, Some(src_addr(p, s, e, "nft"@)->0), None),
            sender: src_addr(p, s, e, "sender"@)->0,
            nft: src_addr(p, s, e, "nft"@)->0,
        })
    } else {
        None
    }
}

impl DirectSellDeclined {
    /// Whether the numbers of the record are well formed.
    pub open spec fn wf(&self) -> bool {
        true
    }

    /// The record of the event, or an error where
    /// a token is missing or does not convert, or the message of the event is
    /// not an outbound external one.
    pub fn build_from(event: &ExtractedEvent) -> (r: Result<DirectSellDeclined, BuildError>)
        requires
            tokens_wf(event.tokens@),
        ensures
            match direct_sell_declined_view(*event) {
                Some(v) => r matches Ok(x) && x@ == v && x.wf(),
                None => r is Err,
            },
    {
        proof {
            lemma_tokens_wf_shallow(event.tokens@);
        }
        let p = &event.tokens;
        let s: Vec<Token> = Vec::new();
        let e: Vec<&str> = Vec::new();
        proof {
            assert(e@.map_values(|x: &str| x@) =~= Seq::<Seq<char>>::empty());
        }
        let sender = match lookup_addr(p, &s, &e, "sender") {
            Ok(v) => v,
            Err(e) => return Err(e),
        };
        let nft = match lookup_addr(p, &s, &e, "nft") {
            Ok(v) => v,
            Err(e) => return Err(e),
        };
        let header = match build_header(event, Some(nft.clone()), None) {
            Ok(h) => h,
            Err(e) => return Err(e),
        };
        Ok(DirectSellDeclined { header, sender, nft })
    }
}

/// The record of a `FactoryDirectSellOwnershipTransferred` event.
pub struct FactoryDirectSellOwnershipTransferred {
    pub header: Header,
    pub old_owner: String,
    pub new_owner: String,
}

/// The view of a `FactoryDirectSellOwnershipTransferred`.
pub struct FactoryDirectSellOwnershipTransferredView {
    pub header: HeaderView,
    pub old_owner: Seq<char>,
    pub new_owner: Seq<char>,
}

impl View for FactoryDirectSellOwnershipTransferred {
    type V = FactoryDirectSellOwnershipTransferredView;

    open spec fn view(&self) -> FactoryDirectSellOwnershipTransferredView {
        FactoryDirectSellOwnershipTransferredView {
            header: self.header@,
            old_owner: self.old_owner@,
            new_owner: self.new_owner@,
        }
    }
}

/// The record that `FactoryDirectSellOwnershipTransferred::build_from` builds from `ev`, or `None` where it
/// fails.
pub open spec fn factory_direct_sell_ownership_transferred_view(ev: ExtractedEvent) -> Option<FactoryDirectSellOwnershipTransferredView> {
    let p = ev.tokens@;
    let s = Seq::<Token>::empty();
    let e = Seq::<Seq<char>>::empty();
    if ev.ext_out_header is Some
        && src_addr(p, s, e, "oldOwner"@) is Some
        && src_addr(p, s, e, "newOwner"@) is Some {
        Some(FactoryDirectSellOwnershipTransferredView {
            header: header_view(ev, None, None),
            old_owner: src_addr(p, s, e, "oldOwner"@)->0,
            new_owner: src_addr(p, s, e, "newOwner"@)->0,
        })
    } else {
        None
    }
}

impl FactoryDirectSellOwnershipTransferred {
    /// Whether the numbers of the record are well formed.
    pub open spec fn wf(&self) -> bool {
        true
    }

    /// The record of the event, or an error where
    /// a token is missing or does not convert, or the message of the event is
    /// not an outbound external one.
    pub fn build_from(event: &ExtractedEvent) -> (r: Result<FactoryDirectSellOwnershipTransferred, BuildError>)
        requires
            tokens_wf(event.tokens@),
        ensures
            match factory_direct_sell_ownership_transferred_view(*event) {
                Some(v) => r matches Ok(x) && x@ == v && x.wf(),
                None => r is Err,
            },
    {
        proof {
            lemma_tokens_wf_shallow(event.tokens@);
        }
        let p = &event.tokens;
        let s: Vec<Token> = Vec::new();
        let e: Vec<&str> = Vec::new();
        proof {
            assert(e@.map_values(|x: &str| x@) =~= Seq::<Seq<char>>::empty());
        }
        let old_owner = match lookup_addr(p, &s, &e, "oldOwner") {
            Ok(v) => v,
            Err(e) => return Err(e),
        };
        let new_owner = match lookup_addr(p, &s, &e, "newOwner") {
            Ok(v) => v,
            Err(e) => return Err(e),
        };
        let header = match build_header(event, None, None) {
            Ok(h) => h,
            Err(e) => return Err(e),
        };
        Ok(FactoryDirectSellOwnershipTransferred { header, old_owner, new_owner })
    }
}

/// The record of a `DirectBuyStateChanged` event.
pub struct DirectBuyStateChanged {
    pub header: Header,
    pub from_state: i16,
    pub to_state: i16,
    pub factory: String,
    pub creator: String,
    pub spent_token: String,
    pub nft: String,
    pub time_tx: i64,
    pub price: Decimal,
    pub spent_wallet: String,
    pub status: i16,
    pub start_time_buy: i64,
    pub duration_time_buy: i64,
    pub end_time_buy: i64,
}

/// The view of a `DirectBuyStateChanged`.
pub struct DirectBuyStateChangedView {
    pub header: HeaderView,
    pub from_state: int,
    pub to_state: int,
    pub factory: Seq<char>,
    pub creator: Seq<char>,
    pub spent_token: Seq<char>,
    pub nft: Seq<char>,
    pub time_tx: int,
    pub price: (int, int),
    pub spent_wallet: Seq<char>,
    pub status: int,
    pub start_time_buy: int,
    pub duration_time_buy: int,
    pub end_time_buy: int,
}

impl View for DirectBuyStateChanged {
    type V = DirectBuyStateChangedView;

    open spec fn view(&self) -> DirectBuyStateChangedView {
        DirectBuyStateChangedView {
            header: self.header@,
            from_state: self.from_state as int,
            to_state: self.to_state as int,
            factory: self.factory@,
            creator: self.creator@,
            spent_token: self.spent_token@,
            nft: self.nft@,
            time_tx: self.time_tx as int,
            price: self.price@,
            spent_wallet: self.spent_wallet@,
            status: self.status as int,
            start_time_buy: self.start_time_buy as int,
            duration_time_buy: self.duration_time_buy as int,
            end_time_buy: self.end_time_buy as int,
        }
    }
}

/// The record that `DirectBuyStateChanged::build_from` builds from `ev`, or `None` where it
/// fails.
pub open spec fn direct_buy_state_changed_view(ev: ExtractedEvent) -> Option<DirectBuyStateChangedView> {
    match tuple_view(ev.tokens@, "value2"@) {
        None => None,
        Some(p) => {
            let s = ev.tokens@;
            let e = seq!["from"@, "to"@];
            if ev.ext_out_header is Some
                && find_token(ev.tokens@, "from"@) is Some
                && find_token(ev.tokens@, "to"@) is Some
                && src_i16(p, s, e, "from"@) is Some
                && src_i16(p, s, e, "to"@) is Some
                && src_addr(p, s, e, "factory"@) is Some
                && src_addr(p, s, e, "creator"@) is Some
                && src_addr(p, s, e, "spentToken"@) is Some
                && src_addr(p, s, e, "nft"@) is Some
                && src_i64(p, s, e, "_timeTx"@) is Some
                && src_dec(p, s, e, "_price"@) is Some
                && src_addr(p, s, e, "spentWallet"@) is Some
                && src_i16(p, s, e, "status"@) is Some
                && src_i64(p, s, e, "startTimeBuy"@) is Some
                && src_i64(p, s, e, "durationTimeBuy"@) is Some
                && src_i64(p, s, e, "endTimeBuy"@) is Some {
                Some(DirectBuyStateChangedView {
                    header: header_view(ev, Some(src_addr(p, s, e, "nft"@)->0), None),
                    from_state: src_i16(p, s, e, "from"@)->0,
                    to_state: src_i16(p, s, e, "to"@)->0,
                    factory: src_addr(p, s, e, "factory"@)->0,
                    creator: src_addr(p, s, e, "creator"@)->0,
                    spent_token: src_addr(p, s, e, "spentToken"@)->0,
                    nft: src_addr(p, s, e, "nft"@)->0,
                    time_tx: src_i64(p, s, e, "_timeTx"@)->0,
                    price: src_dec(p, s, e, "_price"@)->0,
                    spent_wallet: src_addr(p, s, e, "spentWallet"@)->0,
                    status: src_i16(p, s, e, "status"@)->0,
                    start_time_buy: src_i64(p, s, e, "startTimeBuy"@)->0,
                    duration_time_buy: src_i64(p, s, e, "durationTimeBuy"@)->0,
                    end_time_buy: src_i64(p, s, e, "endTimeBuy"@)->0,
                })
            } else {
                None
            }
        },
    }
}

impl DirectBuyStateChanged {
    /// Whether the numbers of the record are well formed.
    pub open spec fn wf(&self) -> bool {
        self.price.wf()
    }

    /// The record of the event, or an error where
    /// a token is missing or does not convert, or the message of the event is
    /// not an outbound external one.
    pub fn build_from(event: &ExtractedEvent) -> (r: Result<DirectBuyStateChanged, BuildError>)
        requires
            tokens_wf(event.tokens@),
        ensures
            match direct_buy_state_changed_view(*event) {
                Some(v) => r matches Ok(x) && x@ == v && x.wf(),
                None => r is Err,
            },
    {
        proof {
            lemma_tokens_wf_shallow(event.tokens@);
        }
        let p = match tuple_named(&event.tokens, "value2") {
            Ok(v) => v,
            Err(e) => return Err(e),
        };
        let s = &event.tokens;
        let mut e: Vec<&str> = Vec::new();
        if find_named(&event.tokens, "from").is_none() {
            return Err(BuildError::Malformed);
        }
        e.push("from");
        if find_named(&event.tokens, "to").is_none() {
            return Err(BuildError::Malformed);
        }
        e.push("to");
        proof {
            assert(e@.map_values(|x: &str| x@) =~= seq!["from"@, "to"@]);
        }
        let from_state = match lookup_i16(p, s, &e, "from") {
            Ok(v) => v,
            Err(e) => return Err(e),
        };
        let to_state = match lookup_i16(p, s, &e, "to") {
            Ok(v) => v,
            Err(e) => return Err(e),
        };
        let factory = match lookup_addr(p, s, &e, "factory") {
            Ok(v) => v,
            Err(e) => return Err(e),
        };
        let creator = match lookup_addr(p, s, &e, "creator") {
            Ok(v) => v,
            Err(e) => return Err(e),
        };
        let spent_token = match lookup_addr(p, s, &e, "spentToken") {
            Ok(v) => v,
            Err(e) => return Err(e),
        };
        let nft = match lookup_addr(p, s, &e, "nft") {
            Ok(v) => v,
            Err(e) => return Err(e),
        };
        let time_tx = match lookup_i64(p, s, &e, "_timeTx") {
            Ok(v) => v,
            Err(e) => return Err(e),
        };
        let price = match lookup_dec(p, s, &e, "_price") {
            Ok(v) => v,
            Err(e) => return Err(e),
        };
        let spent_wallet = match lookup_addr(p, s, &e, "spentWallet") {
            Ok(v) => v,
            Err(e) => return Err(e),
        };
        let status = match lookup_i16(p, s, &e, "status") {
            Ok(v) => v,
            Err(e) => return Err(e),
        };
        let start_time_buy = match lookup_i64(p, s, &e, "startTimeBuy") {
            Ok(v) => v,
            Err(e) => return Err(e),
        };
        let duration_time_buy = match lookup_i64(p, s, &e, "durationTimeBuy") {
            Ok(v) => v,
            Err(e) => return Err(e),
        };
        let end_time_buy = match lookup_i64(p, s, &e, "endTimeBuy") {
            Ok(v) => v,
            Err(e) => return Err(e),
        };
        let header = match build_header(event, Some(nft.clone()), None) {
            Ok(h) => h,
            Err(e) => return Err(e),
        };
        Ok(DirectBuyStateChanged { header, from_state, to_state, factory, creator, spent_token, nft, time_tx, price, spent_wallet, status, start_time_buy, duration_time_buy, end_time_buy })
    }
}

/// The record of a `DirectSellStateChanged` event.
pub struct DirectSellStateChanged {
    pub header: Header,
    pub from_state: i16,
    pub to_state: i16,
    pub factory: String,
    pub creator: String,
    pub token: String,
    pub nft: String,
    pub time_tx: i64,
    pub start: i64,
    pub end: i64,
    pub price: Decimal,
    pub wallet: String,
    pub status: i16,
}

/// The view of a `DirectSellStateChanged`.
pub struct DirectSellStateChangedView {
    pub header: HeaderView,
    pub from_state: int,
    pub to_state: int,
    pub factory: Seq<char>,
    pub creator: Seq<char>,
    pub token: Seq<char>,
    pub nft: Seq<char>,
    pub time_tx: int,
    pub start: int,
    pub end: int,
    pub price: (int, int),
    pub wallet: Seq<char>,
    pub status: int,
}

impl View for DirectSellStateChanged {
    type V = DirectSellStateChangedView;

    open spec fn view(&self) -> DirectSellStateChangedView {
        DirectSellStateChangedView {
            header: self.header@,
            from_state: self.from_state as int,
            to_state: self.to_state as int,
            factory: self.factory@,
            creator: self.creator@,
            token: self.token@,
            nft: self.nft@,
            time_tx: self.time_tx as int,
            start: self.start as int,
            end: self.end as int,
            price: self.price@,
            wallet: self.wallet@,
            status: self.status as int,
        }
    }
}

/// The record that `DirectSellStateChanged::build_from` builds from `ev`, or `None` where it
/// fails.
pub open spec fn direct_sell_state_changed_view(ev: ExtractedEvent) -> Option<DirectSellStateChangedView> {
    match tuple_view(ev.tokens@, "value2"@) {
        None => None,
        Some(p) => {
            let s = ev.tokens@;
            let e = seq!["from"@, "to"@];
            if ev.ext_out_header is Some
                && find_token(ev.tokens@, "from"@) is Some
                && find_token(ev.tokens@, "to"@) is Some
                && src_i16(p, s, e, "from"@) is Some
                && src_i16(p, s, e, "to"@) is Some
                && src_addr(p, s, e, "factory"@) is Some
                && src_addr(p, s, e, "creator"@) is Some
                && src_addr(p, s, e, "token"@) is Some
                && src_addr(p, s, e, "nft"@) is Some
                && src_i64(p, s, e, "_timeTx"@) is Some
                && src_i64(p, s, e, "start"@) is Some
                && src_i64(p, s, e, "end"@) is Some
                && src_dec(p, s, e, "_price"@) is Some
                && src_addr(p, s, e, "wallet"@) is Some
                && src_i16(p, s, e, "status"@) is Some {
                Some(DirectSellStateChangedView {
                    header: header_view(ev, Some(src_addr(p, s, e, "nft"@)->0), None),
                    from_state: src_i16(p, s, e, "from"@)->0,
                    to_state: src_i16(p, s, e, "to"@)->0,
                    factory: src_addr(p, s, e, "factory"@)->0,
                    creator: src_addr(p, s, e, "creator"@)->0,
                    token: src_addr(p, s, e, "token"@)->0,
                    nft: src_addr(p, s, e, "nft"@)->0,
                    time_tx: src_i64(p, s, e, "_timeTx"@)->0,
                    start: src_i64(p, s, e, "start"@)->0,
                    end: src_i64(p, s, e, "end"@)->0,
                    price: src_dec(p, s, e, "_price"@)->0,
                    wallet: src_addr(p, s, e, "wallet"@)->0,
                    status: src_i16(p, s, e, "status"@)->0,
                })
            } else {
                None
            }
        },
    }
}

impl DirectSellStateChanged {
    /// Whether the numbers of the record are well formed.
    pub open spec fn wf(&self) -> bool {
        self.price.wf()
    }

    /// The record of the event, or an error where
    /// a token is missing or does not convert, or the message of the event is
    /// not an outbound external one.
    pub fn build_from(event: &ExtractedEvent) -> (r: Result<DirectSellStateChanged, BuildError>)
        requires
            tokens_wf(event.tokens@),
        ensures
            match direct_sell_state_changed_view(*event) {
                Some(v) => r matches Ok(x) && x@ == v && x.wf(),
                None => r is Err,
            },
    {
        proof {
            lemma_tokens_wf_shallow(event.tokens@);
        }
        let p = match tuple_named(&event.tokens, "value2") {
            Ok(v) => v,
            Err(e) => return Err(e),
        };
        let s = &event.tokens;
        let mut e: Vec<&str> = Vec::new();
        if find_named(&event.tokens, "from").is_none() {
            return Err(BuildError::Malformed);
        }
        e.push("from");
        if find_named(&event.tokens, "to").is_none() {
            return Err(BuildError::Malformed);
        }
        e.push("to");
        proof {
            assert(e@.map_values(|x: &str| x@) =~= seq!["from"@, "to"@]);
        }
        let from_state = match lookup_i16(p, s, &e, "from") {
            Ok(v) => v,
            Err(e) => return Err(e),
        };
        let to_state = match lookup_i16(p, s, &e, "to") {
            Ok(v) => v,
            Err(e) => return Err(e),
        };
        let factory = match lookup_addr(p, s, &e, "factory") {
            Ok(v) => v,
            Err(e) => return Err(e),
        };
        let creator = match lookup_addr(p, s, &e, "creator") {
            Ok(v) => v,
            Err(e) => return Err(e),
        };
        let token = match lookup_addr(p, s, &e, "token") {
            Ok(v) => v,
            Err(e) => return Err(e),
        };
        let nft = match lookup_addr(p, s, &e, "nft") {
            Ok(v) => v,
            Err(e) => return Err(e),
        };
        let time_tx = match lookup_i64(p, s, &e, "_timeTx") {
            Ok(v) => v,
            Err(e) => return Err(e),
        };
        let start = match lookup_i64(p, s, &e, "start") {
            Ok(v) => v,
            Err(e) => return Err(e),
        };
        let end = match lookup_i64(p, s, &e, "end") {
            Ok(v) => v,
            Err(e) => return Err(e),
        };
        let price = match lookup_dec(p, s, &e, "_price") {
            Ok(v) => v,
            Err(e) => return Err(e),
        };
        let wallet = match lookup_addr(p, s, &e, "wallet") {
            Ok(v) => v,
            Err(e) => return Err(e),
        };
        let status = match lookup_i16(p, s, &e, "status") {
            Ok(v) => v,
            Err(e) => return Err(e),
        };
        let header = match build_header(event, Some(nft.clone()), None) {
            Ok(h) => h,
            Err(e) => return Err(e),
        };
        Ok(DirectSellStateChanged { header, from_state, to_state, factory, creator, token, nft, time_tx, start, end, price, wallet, status })
    }
}

/// The record of a `NftOwnerChanged` event.
pub struct NftOwnerChanged {
    pub header: Header,
    pub old_owner: String,
    pub new_owner: String,
}

/// The view of a `NftOwnerChanged`.
pub struct NftOwnerChangedView {
    pub header: HeaderView,
    pub old_owner: Seq<char>,
    pub new_owner: Seq<char>,
}

impl View for NftOwnerChanged {
    type V = NftOwnerChangedView;

    open spec fn view(&self) -> NftOwnerChangedView {
        NftOwnerChangedView {
            header: self.header@,
            old_owner: self.old_owner@,
            new_owner: self.new_owner@,
        }
    }
}

/// The record that `NftOwnerChanged::build_from` builds from `ev`, or `None` where it
/// fails.
pub open spec fn nft_owner_changed_view(ev: ExtractedEvent) -> Option<NftOwnerChangedView> {
    let p = ev.tokens@;
    let s = Seq::<Token>::empty();
    let e = Seq::<Seq<char>>::empty();
    if ev.ext_out_header is Some
        && src_addr(p, s, e, "oldOwner"@) is Some
        && src_addr(p, s, e, "newOwner"@) is Some {
        Some(NftOwnerChangedView {
            header: header_view(ev, Some(address_text(0, ev.account_id@)), None),
            old_owner: src_addr(p, s, e, "oldOwner"@)->0,
            new_owner: src_addr(p, s, e, "newOwner"@)->0,
        })
    } else {
        None
    }
}

impl NftOwnerChanged {
    /// Whether the numbers of the record are well formed.
    pub open spec fn wf(&self) -> bool {
        true
    }

    /// The record of the event, or an error where
    /// a token is missing or does not convert, or the message of the event is
    /// not an outbound external one.
    pub fn build_from(event: &ExtractedEvent) -> (r: Result<NftOwnerChanged, BuildError>)
        requires
            tokens_wf(event.tokens@),
        ensures
            match nft_owner_changed_view(*event) {
                Some(v) => r matches Ok(x) && x@ == v && x.wf(),
                None => r is Err,
            },
    {
        proof {
            lemma_tokens_wf_shallow(event.tokens@);
        }
        let p = &event.tokens;
        let s: Vec<Token> = Vec::new();
        let e: Vec<&str> = Vec::new();
        proof {
            assert(e@.map_values(|x: &str| x@) =~= Seq::<Seq<char>>::empty());
        }
        let old_owner = match lookup_addr(p, &s, &e, "oldOwner") {
            Ok(v) => v,
            Err(e) => return Err(e),
        };
        let new_owner = match lookup_addr(p, &s, &e, "newOwner") {
            Ok(v) => v,
            Err(e) => return Err(e),
        };
        let header = match build_header(event, Some(get_address(event)), None) {
            Ok(h) => h,
            Err(e) => return Err(e),
        };
        Ok(NftOwnerChanged { header, old_owner, new_owner })
    }
}

/// The record of a `NftManagerChanged` event.
pub struct NftManagerChanged {
    pub header: Header,
    pub old_manager: String,
    pub new_manager: String,
}

/// The view of a `NftManagerChanged`.
pub struct NftManagerChangedView {
    pub header: HeaderView,
    pub old_manager: Seq<char>,
    pub new_manager: Seq<char>,
}

impl View for NftManagerChanged {
    type V = NftManagerChangedView;

    open spec fn view(&self) -> NftManagerChangedView {
        NftManagerChangedView {
            header: self.header@,
            old_manager: self.old_manager@,
            new_manager: self.new_manager@,
        }
    }
}

/// The record that `NftManagerChanged::build_from` builds from `ev`, or `None` where it
/// fails.
pub open spec fn nft_manager_changed_view(ev: ExtractedEvent) -> Option<NftManagerChangedView> {
    let p = ev.tokens@;
    let s = Seq::<Token>::empty();
    let e = Seq::<Seq<char>>::empty();
    if ev.ext_out_header is Some
        && src_addr(p, s, e, "oldManager"@) is Some
        && src_addr(p, s, e, "newManager"@) is Some {
        Some(NftManagerChangedView {
            header: header_view(ev, Some(address_text(0, ev.account_id@)), None),
            old_manager: src_addr(p, s, e, "oldManager"@)->0,
            new_manager: src_addr(p, s, e, "newManager"@)->0,
        })
    } else {
        None
    }
}

impl NftManagerChanged {
    /// Whether the numbers of the record are well formed.
    pub open spec fn wf(&self) -> bool {
        true
    }

    /// The record of the event, or an error where
    /// a token is missing or does not convert, or the message of the event is
    /// not an outbound external one.
    pub fn build_from(event: &ExtractedEvent) -> (r: Result<NftManagerChanged, BuildError>)
        requires
            tokens_wf(event.tokens@),
        ensures
            match nft_manager_changed_view(*event) {
                Some(v) => r matches Ok(x) && x@ == v && x.wf(),
                None => r is Err,
            },
    {
        proof {
            lemma_tokens_wf_shallow(event.tokens@);
        }
        let p = &event.tokens;
        let s: Vec<Token> = Vec::new();
        let e: Vec<&str> = Vec::new();
        proof {
            assert(e@.map_values(|x: &str| x@) =~= Seq::<Seq<char>>::empty());
        }
        let old_manager = match lookup_addr(p, &s, &e, "oldManager") {
            Ok(v) => v,
            Err(e) => return Err(e),
        };
        let new_manager = match lookup_addr(p, &s, &e, "newManager") {
            Ok(v) => v,
            Err(e) => return Err(e),
        };
        let header = match build_header(event, Some(get_address(event)), None) {
            Ok(h) => h,
            Err(e) => return Err(e),
        };
        Ok(NftManagerChanged { header, old_manager, new_manager })
    }
}

/// The record of a `CollectionOwnershipTransferred` event.
pub struct CollectionOwnershipTransferred {
    pub header: Header,
    pub old_owner: String,
    pub new_owner: String,
}

/// The view of a `CollectionOwnershipTransferred`.
pub struct CollectionOwnershipTransferredView {
    pub header: HeaderView,
    pub old_owner: Seq<char>,
    pub new_owner: Seq<char>,
}

impl View for CollectionOwnershipTransferred {
    type V = CollectionOwnershipTransferredView;

    open spec fn view(&self) -> CollectionOwnershipTransferredView {
        CollectionOwnershipTransferredView {
            header: self.header@,
            old_owner: self.old_owner@,
            new_owner: self.new_owner@,
        }
    }
}

/// The record that `CollectionOwnershipTransferred::build_from` builds from `ev`, or `None` where it
/// fails.
pub open spec fn collection_ownership_transferred_view(ev: ExtractedEvent) -> Option<CollectionOwnershipTransferredView> {
    let p = ev.tokens@;
    let s = Seq::<Token>::empty();
    let e = Seq::<Seq<char>>::empty();
    if ev.ext_out_header is Some
        && src_addr(p, s, e, "oldOwner"@) is Some
        && src_addr(p, s, e, "newOwner"@) is Some {
        Some(CollectionOwnershipTransferredView {
            header: header_view(ev, None, Some(address_text(0, ev.account_id@))),
            old_owner: src_addr(p, s, e, "oldOwner"@)->0,
            new_owner: src_addr(p, s, e, "newOwner"@)->0,
        })
    } else {
        None
    }
}

impl CollectionOwnershipTransferred {
    /// Whether the numbers of the record are well formed.
    pub open spec fn wf(&self) -> bool {
        true
    }

    /// The record of the event, or an error where
    /// a token is missing or does not convert, or the message of the event is
    /// not an outbound external one.
    pub fn build_from(event: &ExtractedEvent) -> (r: Result<CollectionOwnershipTransferred, BuildError>)
        requires
            tokens_wf(event.tokens@),
        ensures
            match collection_ownership_transferred_view(*event) {
                Some(v) => r matches Ok(x) && x@ == v && x.wf(),
                None => r is Err,
            },
    {
        proof {
            lemma_tokens_wf_shallow(event.tokens@);
        }
        let p = &event.tokens;
        let s: Vec<Token> = Vec::new();
        let e: Vec<&str> = Vec::new();
        proof {
            assert(e@.map_values(|x: &str| x@) =~= Seq::<Seq<char>>::empty());
        }
        let old_owner = match lookup_addr(p, &s, &e, "oldOwner") {
            Ok(v) => v,
            Err(e) => return Err(e),
        };
        let new_owner = match lookup_addr(p, &s, &e, "newOwner") {
            Ok(v) => v,
            Err(e) => return Err(e),
        };
        let header = match build_header(event, None, Some(get_address(event))) {
            Ok(h) => h,
            Err(e) => return Err(e),
        };
        Ok(CollectionOwnershipTransferred { header, old_owner, new_owner })
    }
}

/// The record of a `NftCreated` event.
pub struct NftCreated {
    pub header: Header,
    pub id: Decimal,
    pub nft: String,
    pub owner: String,
    pub manager: String,
    pub creator: String,
}

/// The view of a `NftCreated`.
pub struct NftCreatedView {
    pub header: HeaderView,
    pub id: (int, int),
    pub nft: Seq<char>,
    pub owner: Seq<char>,
    pub manager: Seq<char>,
    pub creator: Seq<char>,
}

impl View for NftCreated {
    type V = NftCreatedView;

    open spec fn view(&self) -> NftCreatedView {
        NftCreatedView {
            header: self.header@,
            id: self.id@,
            nft: self.nft@,
            owner: self.owner@,
            manager: self.manager@,
            creator: self.creator@,
        }
    }
}

/// The record that `NftCreated::build_from` builds from `ev`, or `None` where it
/// fails.
pub open spec fn nft_created_view(ev: ExtractedEvent) -> Option<NftCreatedView> {
    let p = ev.tokens@;
    let s = Seq::<Token>::empty();
    let e = Seq::<Seq<char>>::empty();
    if ev.ext_out_header is Some
        && src_dec(p, s, e, "id"@) is Some
        && src_addr(p, s, e, "nft"@) is Some
        && src_addr(p, s, e, "owner"@) is Some
        && src_addr(p, s, e, "manager"@) is Some
        && src_addr(p, s, e, "creator"@) is Some {
        Some(NftCreatedView {
            header: header_view(ev, Some(src_addr(p, s, e, "nft"@)->0), Some(address_text(0, ev.account_id@))),
            id: src_dec(p, s, e, "id"@)->0,
            nft: src_addr(p, s, e, "nft"@)->0,
            owner: src_addr(p, s, e, "owner"@)->0,
            manager: src_addr(p, s, e, "manager"@)->0,
            creator: src_addr(p, s, e, "creator"@)->0,
        })
    } else {
        None
    }
}

impl NftCreated {
    /// Whether the numbers of the record are well formed.
    pub open spec fn wf(&self) -> bool {
        self.id.wf()
    }

    /// The record of the event, or an error where
    /// a token is missing or does not convert, or the message of the event is
    /// not an outbound external one.
    pub fn build_from(event: &ExtractedEvent) -> (r: Result<NftCreated, BuildError>)
        requires
            tokens_wf(event.tokens@),
        ensures
            match nft_created_view(*event) {
                Some(v) => r matches Ok(x) && x@ == v && x.wf(),
                None => r is Err,
            },
    {
        proof {
            lemma_tokens_wf_shallow(event.tokens@);
        }
        let p = &event.tokens;
        let s: Vec<Token> = Vec::new();
        let e: Vec<&str> = Vec::new();
        proof {
            assert(e@.map_values(|x: &str| x@) =~= Seq::<Seq<char>>::empty());
        }
        let id = match lookup_dec(p, &s, &e, "id") {
            Ok(v) => v,
            Err(e) => return Err(e),
        };
        let nft = match lookup_addr(p, &s, &e, "nft") {
            Ok(v) => v,
            Err(e) => return Err(e),
        };
        let owner = match lookup_addr(p, &s, &e, "owner") {
            Ok(v) => v,
            Err(e) => return Err(e),
        };
        let manager = match lookup_addr(p, &s, &e, "manager") {
            Ok(v) => v,
            Err(e) => return Err(e),
        };
        let creator = match lookup_addr(p, &s, &e, "creator") {
            Ok(v) => v,
            Err(e) => return Err(e),
        };
        let header = match build_header(event, Some(nft.clone()), Some(get_address(event))) {
            Ok(h) => h,
            Err(e) => return Err(e),
        };
        Ok(NftCreated { header, id, nft, owner, manager, creator })
    }
}

/// The record of a `NftBurned` event.
pub struct NftBurned {
    pub header: Header,
    pub id: Decimal,
    pub nft: String,
    pub owner: String,
    pub manager: String,
}

/// The view of a `NftBurned`.
pub struct NftBurnedView {
    pub header: HeaderView,
    pub id: (int, int),
    pub nft: Seq<char>,
    pub owner: Seq<char>,
    pub manager: Seq<char>,
}

impl View for NftBurned {
    type V = NftBurnedView;

    open spec fn view(&self) -> NftBurnedView {
        NftBurnedView {
            header: self.header@,
            id: self.id@,
            nft: self.nft@,
            owner: self.owner@,
            manager: self.manager@,
        }
    }
}

/// The record that `NftBurned::build_from` builds from `ev`, or `None` where it
/// fails.
pub open spec fn nft_burned_view(ev: ExtractedEvent) -> Option<NftBurnedView> {
    let p = ev.tokens@;
    let s = Seq::<Token>::empty();
    let e = Seq::<Seq<char>>::empty();
    if ev.ext_out_header is Some
        && src_dec(p, s, e, "id"@) is Some
        && src_addr(p, s, e, "nft"@) is Some
        && src_addr(p, s, e, "owner"@) is Some
        && src_addr(p, s, e, "manager"@) is Some {
        Some(NftBurnedView {
            header: header_view(ev, Some(src_addr(p, s, e, "nft"@)->0), Some(address_text(0, ev.account_id@))),
            id: src_dec(p, s, e, "id"@)->0,
            nft: src_addr(p, s, e, "nft"@)->0,
            owner: src_addr(p, s, e, "owner"@)->0,
            manager: src_addr(p, s, e, "manager"@)->0,
        })
    } else {
        None
    }
}

impl NftBurned {
    /// Whether the numbers of the record are well formed.
    pub open spec fn wf(&self) -> bool {
        self.id.wf()
    }

    /// The record of the event, or an error where
    /// a token is missing or does not convert, or the message of the event is
    /// not an outbound external one.
    pub fn build_from(event: &ExtractedEvent) -> (r: Result<NftBurned, BuildError>)
        requires
            tokens_wf(event.tokens@),
        ensures
            match nft_burned_view(*event) {
                Some(v) => r matches Ok(x) && x@ == v && x.wf(),
                None => r is Err,
            },
    {
        proof {
            lemma_tokens_wf_shallow(event.tokens@);
        }
        let p = &event.tokens;
        let s: Vec<Token> = Vec::new();
        let e: Vec<&str> = Vec::new();
        proof {
            assert(e@.map_values(|x: &str| x@) =~= Seq::<Seq<char>>::empty());
        }
        let id = match lookup_dec(p, &s, &e, "id") {
            Ok(v) => v,
            Err(e) => return Err(e),
        };
        let nft = match lookup_addr(p, &s, &e, "nft") {
            Ok(v) => v,
            Err(e) => return Err(e),
        };
        let owner = match lookup_addr(p, &s, &e, "owner") {
            Ok(v) => v,
            Err(e) => return Err(e),
        };
        let manager = match lookup_addr(p, &s, &e, "manager") {
            Ok(v) => v,
            Err(e) => return Err(e),
        };
        let header = match build_header(event, Some(nft.clone()), Some(get_address(event))) {
            Ok(h) => h,
            Err(e) => return Err(e),
        };
        Ok(NftBurned { header, id, nft, owner, manager })
    }
}

/// Each value of the record built from a `AuctionDeployed` event is that of the token
/// of the event that the ABI names for it, converted: `collection` from "collection", `nft_owner` from "nftOwner", `nft` from "nft", `offer` from "offer", `price` from "price", `auction_duration` from "auctionDuration", `deploy_nonce` from "deployNonce".
pub proof fn lemma_auction_deployed_values_from_tokens(ev: ExtractedEvent)
    ensures
        auction_deployed_view(ev) matches Some(v) ==> match tuple_view(ev.tokens@, "offerInfo"@) {
            Some(p) => {
                let s = ev.tokens@; let e = Seq::<Seq<char>>::empty();
                &&& match source_token(p, s, e, "collection"@) { Some(t) => token_addr_view(t) == Some(v.collection), None => false }
                &&& match source_token(p, s, e, "nftOwner"@) { Some(t) => token_addr_view(t) == Some(v.nft_owner), None => false }
                &&& match source_token(p, s, e, "nft"@) { Some(t) => token_addr_view(t) == Some(v.nft), None => false }
                &&& match source_token(p, s, e, "offer"@) { Some(t) => token_addr_view(t) == Some(v.offer), None => false }
                &&& match source_token(p, s, e, "price"@) { Some(t) => token_decimal_view(t) == Some(v.price), None => false }
                &&& match source_token(p, s, e, "auctionDuration"@) { Some(t) => token_int_view(t, i64::MAX as int) == Some(v.auction_duration), None => false }
                &&& match source_token(p, s, e, "deployNonce"@) { Some(t) => token_decimal_view(t) == Some(v.deploy_nonce), None => false }
            },
            None => false,
        },
{
}

/// Each value of the record built from a `AuctionDeclined` event is that of the token
/// of the event that the ABI names for it, converted: `nft_owner` from "nftOwner", `nft` from "nft".
pub proof fn lemma_auction_declined_values_from_tokens(ev: ExtractedEvent)
    ensures
        auction_declined_view(ev) matches Some(v) ==> {
            let p = ev.tokens@; let s = Seq::<Token>::empty(); let e = Seq::<Seq<char>>::empty();
            &&& match source_token(p, s, e, "nftOwner"@) { Some(t) => token_addr_view(t) == Some(v.nft_owner), None => false }
            &&& match source_token(p, s, e, "nft"@) { Some(t) => token_addr_view(t) == Some(v.nft), None => false }
        },
{
}

/// Each value of the record built from a `AddCollectionRules` event is that of the token
/// of the event that the ABI names for it, converted: `collection` from "collection", `code_hash` from "codeHash", `code_depth` from "codeDepth", `numerator` from "numerator", `denominator` from "denominator".
pub proof fn lemma_add_collection_rules_values_from_tokens(ev: ExtractedEvent)
    ensures
        add_collection_rules_view(ev) matches Some(v) ==> match tuple_view(ev.tokens@, "collectionFeeInfo"@) {
            Some(p) => {
                let s = ev.tokens@; let e = seq!["collection"@];
                &&& match source_token(p, s, e, "collection"@) { Some(t) => token_addr_view(t) == Some(v.collection), None => false }
                &&& match source_token(p, s, e, "codeHash"@) { Some(t) => token_decimal_view(t) == Some(v.code_hash), None => false }
                &&& match source_token(p, s, e, "codeDepth"@) { Some(t) => token_int_view(t, u16::MAX as int) == Some(v.code_depth), None => false }
                &&& match source_token(p, s, e, "numerator"@) { Some(t) => token_int_view(t, i32::MAX as int) == Some(v.numerator), None => false }
                &&& match source_token(p, s, e, "denominator"@) { Some(t) => token_int_view(t, i32::MAX as int) == Some(v.denominator), None => false }
            },
            None => false,
        },
{
}

/// Each value of the record built from a `RemoveCollectionRules` event is that of the token
/// of the event that the ABI names for it, converted: `collection` from "collection".
pub proof fn lemma_remove_collection_rules_values_from_tokens(ev: ExtractedEvent)
    ensures
        remove_collection_rules_view(ev) matches Some(v) ==> {
            let p = ev.tokens@; let s = Seq::<Token>::empty(); let e = Seq::<Seq<char>>::empty();
            &&& match source_token(p, s, e, "collection"@) { Some(t) => token_addr_view(t) == Some(v.collection), None => false }
        },
{
}

/// Each value of the record built from a `AuctionRootOwnershipTransferred` event is that of the token
/// of the event that the ABI names for it, converted: `old_owner` from "oldOwner", `new_owner` from "newOwner".
pub proof fn lemma_auction_root_ownership_transferred_values_from_tokens(ev: ExtractedEvent)
    ensures
        auction_root_ownership_transferred_view(ev) matches Some(v) ==> {
            let p = ev.tokens@; let s = Seq::<Token>::empty(); let e = Seq::<Seq<char>>::empty();
            &&& match source_token(p, s, e, "oldOwner"@) { Some(t) => token_addr_view(t) == Some(v.old_owner), None => false }
            &&& match source_token(p, s, e, "newOwner"@) { Some(t) => token_addr_view(t) == Some(v.new_owner), None => false }
        },
{
}

/// Each value of the record built from a `MarketFeeDefaultChanged` event is that of the token
/// of the event that the ABI names for it, converted: `fee_numerator` from "numerator", `fee_denominator` from "denominator".
pub proof fn lemma_market_fee_default_changed_values_from_tokens(ev: ExtractedEvent)
    ensures
        market_fee_default_changed_view(ev) matches Some(v) ==> match tuple_view(ev.tokens@, "fee"@) {
            Some(p) => {
                let s = ev.tokens@; let e = Seq::<Seq<char>>::empty();
                &&& match source_token(p, s, e, "numerator"@) { Some(t) => token_int_view(t, i32::MAX as int) == Some(v.fee_numerator), None => false }
                &&& match source_token(p, s, e, "denominator"@) { Some(t) => token_int_view(t, i32::MAX as int) == Some(v.fee_denominator), None => false }
            },
            None => false,
        },
{
}

/// Each value of the record built from a `MarketFeeChanged` event is that of the token
/// of the event that the ABI names for it, converted: `auction` from "auction", `fee_numerator` from "numerator", `fee_denominator` from "denominator".
pub proof fn lemma_market_fee_changed_values_from_tokens(ev: ExtractedEvent)
    ensures
        market_fee_changed_view(ev) matches Some(v) ==> match tuple_view(ev.tokens@, "fee"@) {
            Some(p) => {
                let s = ev.tokens@; let e = seq!["auction"@];
                &&& match source_token(p, s, e, "auction"@) { Some(t) => token_addr_view(t) == Some(v.auction), None => false }
                &&& match source_token(p, s, e, "numerator"@) { Some(t) => token_int_view(t, i32::MAX as int) == Some(v.fee_numerator), None => false }
                &&& match source_token(p, s, e, "denominator"@) { Some(t) => token_int_view(t, i32::MAX as int) == Some(v.fee_denominator), None => false }
            },
            None => false,
        },
{
}

/// Each value of the record built from a `AuctionCreated` event is that of the token
/// of the event that the ABI names for it, converted: `auction_subject` from "auctionSubject", `subject_owner` from "subjectOwner", `payment_token` from "_paymentToken", `wallet_for_bids` from "walletForBids", `start_time` from "startTime", `duration` from "duration", `finish_time` from "finishTime", `price` from "_price", `nonce` from "_nonce", `status` from "status".
pub proof fn lemma_auction_created_values_from_tokens(ev: ExtractedEvent)
    ensures
        auction_created_view(ev) matches Some(v) ==> match tuple_view(ev.tokens@, "value0"@) {
            Some(p) => {
                let s = ev.tokens@; let e = Seq::<Seq<char>>::empty();
                &&& match source_token(p, s, e, "auctionSubject"@) { Some(t) => token_addr_view(t) == Some(v.auction_subject), None => false }
                &&& match source_token(p, s, e, "subjectOwner"@) { Some(t) => token_addr_view(t) == Some(v.subject_owner), None => false }
                &&& match source_token(p, s, e, "_paymentToken"@) { Some(t) => token_addr_view(t) == Some(v.payment_token), None => false }
                &&& match source_token(p, s, e, "walletForBids"@) { Some(t) => token_addr_view(t) == Some(v.wallet_for_bids), None => false }
                &&& match source_token(p, s, e, "startTime"@) { Some(t) => token_int_view(t, i64::MAX as int) == Some(v.start_time), None => false }
                &&& match source_token(p, s, e, "duration"@) { Some(t) => token_int_view(t, i64::MAX as int) == Some(v.duration), None => false }
                &&& match source_token(p, s, e, "finishTime"@) { Some(t) => token_int_view(t, i64::MAX as int) == Some(v.finish_time), None => false }
                &&& match source_token(p, s, e, "_price"@) { Some(t) => token_decimal_view(t) == Some(v.price), None => false }
                &&& match source_token(p, s, e, "_nonce"@) { Some(t) => token_decimal_view(t) == Some(v.nonce), None => false }
                &&& match source_token(p, s, e, "status"@) { Some(t) => token_int_view(t, i16::MAX as int) == Some(v.status), None => false }
            },
            None => false,
        },
{
}

/// Each value of the record built from a `AuctionActive` event is that of the token
/// of the event that the ABI names for it, converted: `auction_subject` from "auctionSubject", `subject_owner` from "subjectOwner", `payment_token` from "_paymentToken", `wallet_for_bids` from "walletForBids", `start_time` from "startTime", `duration` from "duration", `finish_time` from "finishTime", `price` from "_price", `nonce` from "_nonce", `status` from "status".
pub proof fn lemma_auction_active_values_from_tokens(ev: ExtractedEvent)
    ensures
        auction_active_view(ev) matches Some(v) ==> match tuple_view(ev.tokens@, "value0"@) {
            Some(p) => {
                let s = ev.tokens@; let e = Seq::<Seq<char>>::empty();
                &&& match source_token(p, s, e, "auctionSubject"@) { Some(t) => token_addr_view(t) == Some(v.auction_subject), None => false }
                &&& match source_token(p, s, e, "subjectOwner"@) { Some(t) => token_addr_view(t) == Some(v.subject_owner), None => false }
                &&& match source_token(p, s, e, "_paymentToken"@) { Some(t) => token_addr_view(t) == Some(v.payment_token), None => false }
                &&& match source_token(p, s, e, "walletForBids"@) { Some(t) => token_addr_view(t) == Some(v.wallet_for_bids), None => false }
                &&& match source_token(p, s, e, "startTime"@) { Some(t) => token_int_view(t, i64::MAX as int) == Some(v.start_time), None => false }
                &&& match source_token(p, s, e, "duration"@) { Some(t) => token_int_view(t, i64::MAX as int) == Some(v.duration), None => false }
                &&& match source_token(p, s, e, "finishTime"@) { Some(t) => token_int_view(t, i64::MAX as int) == Some(v.finish_time), None => false }
                &&& match source_token(p, s, e, "_price"@) { Some(t) => token_decimal_view(t) == Some(v.price), None => false }
                &&& match source_token(p, s, e, "_nonce"@) { Some(t) => token_decimal_view(t) == Some(v.nonce), None => false }
                &&& match source_token(p, s, e, "status"@) { Some(t) => token_int_view(t, i16::MAX as int) == Some(v.status), None => false }
            },
            None => false,
        },
{
}

/// Each value of the record built from a `AuctionBidPlaced` event is that of the token
/// of the event that the ABI names for it, converted: `buyer` from "buyer", `value` from "value", `next_bid_value` from "nextBidValue".
pub proof fn lemma_auction_bid_placed_values_from_tokens(ev: ExtractedEvent)
    ensures
        auction_bid_placed_view(ev) matches Some(v) ==> {
            let p = ev.tokens@; let s = Seq::<Token>::empty(); let e = Seq::<Seq<char>>::empty();
            &&& match source_token(p, s, e, "buyer"@) { Some(t) => token_addr_view(t) == Some(v.buyer), None => false }
            &&& match source_token(p, s, e, "value"@) { Some(t) => token_decimal_view(t) == Some(v.value), None => false }
            &&& match source_token(p, s, e, "nextBidValue"@) { Some(t) => token_decimal_view(t) == Some(v.next_bid_value), None => false }
        },
{
}

/// Each value of the record built from a `AuctionBidDeclined` event is that of the token
/// of the event that the ABI names for it, converted: `buyer` from "buyer", `value` from "value".
pub proof fn lemma_auction_bid_declined_values_from_tokens(ev: ExtractedEvent)
    ensures
        auction_bid_declined_view(ev) matches Some(v) ==> {
            let p = ev.tokens@; let s = Seq::<Token>::empty(); let e = Seq::<Seq<char>>::empty();
            &&& match source_token(p, s, e, "buyer"@) { Some(t) => token_addr_view(t) == Some(v.buyer), None => false }
            &&& match source_token(p, s, e, "value"@) { Some(t) => token_decimal_view(t) == Some(v.value), None => false }
        },
{
}

/// Each value of the record built from a `AuctionComplete` event is that of the token
/// of the event that the ABI names for it, converted: `seller` from "seller", `buyer` from "buyer", `value` from "value".
pub proof fn lemma_auction_complete_values_from_tokens(ev: ExtractedEvent)
    ensures
        auction_complete_view(ev) matches Some(v) ==> {
            let p = ev.tokens@; let s = Seq::<Token>::empty(); let e = Seq::<Seq<char>>::empty();
            &&& match source_token(p, s, e, "seller"@) { Some(t) => token_addr_view(t) == Some(v.seller), None => false }
            &&& match source_token(p, s, e, "buyer"@) { Some(t) => token_addr_view(t) == Some(v.buyer), None => false }
            &&& match source_token(p, s, e, "value"@) { Some(t) => token_decimal_view(t) == Some(v.value), None => false }
        },
{
}

/// Each value of the record built from a `DirectBuyDeployed` event is that of the token
/// of the event that the ABI names for it, converted: `direct_buy` from "directBuy", `sender` from "sender", `token` from "token", `nft` from "nft", `nonce` from "nonce", `amount` from "amount".
pub proof fn lemma_direct_buy_deployed_values_from_tokens(ev: ExtractedEvent)
    ensures
        direct_buy_deployed_view(ev) matches Some(v) ==> {
            let p = ev.tokens@; let s = Seq::<Token>::empty(); let e = Seq::<Seq<char>>::empty();
            &&& match source_token(p, s, e, "directBuy"@) { Some(t) => token_addr_view(t) == Some(v.direct_buy), None => false }
            &&& match source_token(p, s, e, "sender"@) { Some(t) => token_addr_view(t) == Some(v.sender), None => false }
            &&& match source_token(p, s, e, "token"@) { Some(t) => token_addr_view(t) == Some(v.token), None => false }
            &&& match source_token(p, s, e, "nft"@) { Some(t) => token_addr_view(t) == Some(v.nft), None => false }
            &&& match source_token(p, s, e, "nonce"@) { Some(t) => token_decimal_view(t) == Some(v.nonce), None => false }
            &&& match source_token(p, s, e, "amount"@) { Some(t) => token_decimal_view(t) == Some(v.amount), None => false }
        },
{
}

/// Each value of the record built from a `DirectBuyDeclined` event is that of the token
/// of the event that the ABI names for it, converted: `sender` from "sender", `token` from "token", `amount` from "amount", `nft` from "nft".
pub proof fn lemma_direct_buy_declined_values_from_tokens(ev: ExtractedEvent)
    ensures
        direct_buy_declined_view(ev) matches Some(v) ==> {
            let p = ev.tokens@; let s = Seq::<Token>::empty(); let e = Seq::<Seq<char>>::empty();
            &&& match source_token(p, s, e, "sender"@) { Some(t) => token_addr_view(t) == Some(v.sender), None => false }
            &&& match source_token(p, s, e, "token"@) { Some(t) => token_addr_view(t) == Some(v.token), None => false }
            &&& match source_token(p, s, e, "amount"@) { Some(t) => token_decimal_view(t) == Some(v.amount), None => false }
            &&& match source_token(p, s, e, "nft"@) { Some(t) => token_addr_view(t) == Some(v.nft), None => false }
        },
{
}

/// Each value of the record built from a `FactoryDirectBuyOwnershipTransferred` event is that of the token
/// of the event that the ABI names for it, converted: `old_owner` from "oldOwner", `new_owner` from "newOwner".
pub proof fn lemma_factory_direct_buy_ownership_transferred_values_from_tokens(ev: ExtractedEvent)
    ensures
        factory_direct_buy_ownership_transferred_view(ev) matches Some(v) ==> {
            let p = ev.tokens@; let s = Seq::<Token>::empty(); let e = Seq::<Seq<char>>::empty();
            &&& match source_token(p, s, e, "oldOwner"@) { Some(t) => token_addr_view(t) == Some(v.old_owner), None => false }
            &&& match source_token(p, s, e, "newOwner"@) { Some(t) => token_addr_view(t) == Some(v.new_owner), None => false }
        },
{
}

/// Each value of the record built from a `DirectSellDeployed` event is that of the token
/// of the event that the ABI names for it, converted: `direct_sell` from "directSell", `sender` from "sender", `payment_token` from "paymentToken", `nft` from "nft", `nonce` from "nonce", `price` from "price".
pub proof fn lemma_direct_sell_deployed_values_from_tokens(ev: ExtractedEvent)
    ensures
        direct_sell_deployed_view(ev) matches Some(v) ==> {
            let p = ev.tokens@; let s = Seq::<Token>::empty(); let e = Seq::<Seq<char>>::empty();
            &&& match source_token(p, s, e, "directSell"@) { Some(t) => token_addr_view(t) == Some(v.direct_sell), None => false }
            &&& match source_token(p, s, e, "sender"@) { Some(t) => token_addr_view(t) == Some(v.sender), None => false }
            &&& match source_token(p, s, e, "paymentToken"@) { Some(t) => token_addr_view(t) == Some(v.payment_token), None => false }
            &&& match source_token(p, s, e, "nft"@) { Some(t) => token_addr_view(t) == Some(v.nft), None => false }
            &&& match source_token(p, s, e, "nonce"@) { Some(t) => token_decimal_view(t) == Some(v.nonce), None => false }
            &&& match source_token(p, s, e, "price"@) { Some(t) => token_decimal_view(t) == Some(v.price), None => false }
        },
{
}

/// Each value of the record built from a `DirectSellDeclined` event is that of the token
/// of the event that the ABI names for it, converted: `sender` from "sender", `nft` from "nft".
pub proof fn lemma_direct_sell_declined_values_from_tokens(ev: ExtractedEvent)
    ensures
        direct_sell_declined_view(ev) matches Some(v) ==> {
            let p = ev.tokens@; let s = Seq::<Token>::empty(); let e = Seq::<Seq<char>>::empty();
            &&& match source_token(p, s, e, "sender"@) { Some(t) => token_addr_view(t) == Some(v.sender), None => false }
            &&& match source_token(p, s, e, "nft"@) { Some(t) => token_addr_view(t) == Some(v.nft), None => false }
        },
{
}

/// Each value of the record built from a `FactoryDirectSellOwnershipTransferred` event is that of the token
/// of the event that the ABI names for it, converted: `old_owner` from "oldOwner", `new_owner` from "newOwner".
pub proof fn lemma_factory_direct_sell_ownership_transferred_values_from_tokens(ev: ExtractedEvent)
    ensures
        factory_direct_sell_ownership_transferred_view(ev) matches Some(v) ==> {
            let p = ev.tokens@; let s = Seq::<Token>::empty(); let e = Seq::<Seq<char>>::empty();
            &&& match source_token(p, s, e, "oldOwner"@) { Some(t) => token_addr_view(t) == Some(v.old_owner), None => false }
            &&& match source_token(p, s, e, "newOwner"@) { Some(t) => token_addr_view(t) == Some(v.new_owner), None => false }
        },
{
}

/// Each value of the record built from a `DirectBuyStateChanged` event is that of the token
/// of the event that the ABI names for it, converted: `from_state` from "from", `to_state` from "to", `factory` from "factory", `creator` from "creator", `spent_token` from "spentToken", `nft` from "nft", `time_tx` from "_timeTx", `price` from "_price", `spent_wallet` from "spentWallet", `status` from "status", `start_time_buy` from "startTimeBuy", `duration_time_buy` from "durationTimeBuy", `end_time_buy` from "endTimeBuy".
pub proof fn lemma_direct_buy_state_changed_values_from_tokens(ev: ExtractedEvent)
    ensures
        direct_buy_state_changed_view(ev) matches Some(v) ==> match tuple_view(ev.tokens@, "value2"@) {
            Some(p) => {
                let s = ev.tokens@; let e = seq!["from"@, "to"@];
                &&& match source_token(p, s, e, "from"@) { Some(t) => token_int_view(t, i16::MAX as int) == Some(v.from_state), None => false }
                &&& match source_token(p, s, e, "to"@) { Some(t) => token_int_view(t, i16::MAX as int) == Some(v.to_state), None => false }
                &&& match source_token(p, s, e, "factory"@) { Some(t) => token_addr_view(t) == Some(v.factory), None => false }
                &&& match source_token(p, s, e, "creator"@) { Some(t) => token_addr_view(t) == Some(v.creator), None => false }
                &&& match source_token(p, s, e, "spentToken"@) { Some(t) => token_addr_view(t) == Some(v.spent_token), None => false }
                &&& match source_token(p, s, e, "nft"@) { Some(t) => token_addr_view(t) == Some(v.nft), None => false }
                &&& match source_token(p, s, e, "_timeTx"@) { Some(t) => token_int_view(t, i64::MAX as int) == Some(v.time_tx), None => false }
                &&& match source_token(p, s, e, "_price"@) { Some(t) => token_decimal_view(t) == Some(v.price), None => false }
                &&& match source_token(p, s, e, "spentWallet"@) { Some(t) => token_addr_view(t) == Some(v.spent_wallet), None => false }
                &&& match source_token(p, s, e, "status"@) { Some(t) => token_int_view(t, i16::MAX as int) == Some(v.status), None => false }
                &&& match source_token(p, s, e, "startTimeBuy"@) { Some(t) => token_int_view(t, i64::MAX as int) == Some(v.start_time_buy), None => false }
                &&& match source_token(p, s, e, "durationTimeBuy"@) { Some(t) => token_int_view(t, i64::MAX as int) == Some(v.duration_time_buy), None => false }
                &&& match source_token(p, s, e, "endTimeBuy"@) { Some(t) => token_int_view(t, i64::MAX as int) == Some(v.end_time_buy), None => false }
            },
            None => false,
        },
{
}

/// Each value of the record built from a `DirectSellStateChanged` event is that of the token
/// of the event that the ABI names for it, converted: `from_state` from "from", `to_state` from "to", `factory` from "factory", `creator` from "creator", `token` from "token", `nft` from "nft", `time_tx` from "_timeTx", `start` from "start", `end` from "end", `price` from "_price", `wallet` from "wallet", `status` from "status".
pub proof fn lemma_direct_sell_state_changed_values_from_tokens(ev: ExtractedEvent)
    ensures
        direct_sell_state_changed_view(ev) matches Some(v) ==> match tuple_view(ev.tokens@, "value2"@) {
            Some(p) => {
                let s = ev.tokens@; let e = seq!["from"@, "to"@];
                &&& match source_token(p, s, e, "from"@) { Some(t) => token_int_view(t, i16::MAX as int) == Some(v.from_state), None => false }
                &&& match source_token(p, s, e, "to"@) { Some(t) => token_int_view(t, i16::MAX as int) == Some(v.to_state), None => false }
                &&& match source_token(p, s, e, "factory"@) { Some(t) => token_addr_view(t) == Some(v.factory), None => false }
                &&& match source_token(p, s, e, "creator"@) { Some(t) => token_addr_view(t) == Some(v.creator), None => false }
                &&& match source_token(p, s, e, "token"@) { Some(t) => token_addr_view(t) == Some(v.token), None => false }
                &&& match source_token(p, s, e, "nft"@) { Some(t) => token_addr_view(t) == Some(v.nft), None => false }
                &&& match source_token(p, s, e, "_timeTx"@) { Some(t) => token_int_view(t, i64::MAX as int) == Some(v.time_tx), None => false }
                &&& match source_token(p, s, e, "start"@) { Some(t) => token_int_view(t, i64::MAX as int) == Some(v.start), None => false }
                &&& match source_token(p, s, e, "end"@) { Some(t) => token_int_view(t, i64::MAX as int) == Some(v.end), None => false }
                &&& match source_token(p, s, e, "_price"@) { Some(t) => token_decimal_view(t) == Some(v.price), None => false }
                &&& match source_token(p, s, e, "wallet"@) { Some(t) => token_addr_view(t) == Some(v.wallet), None => false }
                &&& match source_token(p, s, e, "status"@) { Some(t) => token_int_view(t, i16::MAX as int) == Some(v.status), None => false }
            },
            None => false,
        },
{
}

/// Each value of the record built from a `NftOwnerChanged` event is that of the token
/// of the event that the ABI names for it, converted: `old_owner` from "oldOwner", `new_owner` from "newOwner".
pub proof fn lemma_nft_owner_changed_values_from_tokens(ev: ExtractedEvent)
    ensures
        nft_owner_changed_view(ev) matches Some(v) ==> {
            let p = ev.tokens@; let s = Seq::<Token>::empty(); let e = Seq::<Seq<char>>::empty();
            &&& match source_token(p, s, e, "oldOwner"@) { Some(t) => token_addr_view(t) == Some(v.old_owner), None => false }
            &&& match source_token(p, s, e, "newOwner"@) { Some(t) => token_addr_view(t) == Some(v.new_owner), None => false }
        },
{
}

/// Each value of the record built from a `NftManagerChanged` event is that of the token
/// of the event that the ABI names for it, converted: `old_manager` from "oldManager", `new_manager` from "newManager".
pub proof fn lemma_nft_manager_changed_values_from_tokens(ev: ExtractedEvent)
    ensures
        nft_manager_changed_view(ev) matches Some(v) ==> {
            let p = ev.tokens@; let s = Seq::<Token>::empty(); let e = Seq::<Seq<char>>::empty();
            &&& match source_token(p, s, e, "oldManager"@) { Some(t) => token_addr_view(t) == Some(v.old_manager), None => false }
            &&& match source_token(p, s, e, "newManager"@) { Some(t) => token_addr_view(t) == Some(v.new_manager), None => false }
        },
{
}

/// Each value of the record built from a `CollectionOwnershipTransferred` event is that of the token
/// of the event that the ABI names for it, converted: `old_owner` from "oldOwner", `new_owner` from "newOwner".
pub proof fn lemma_collection_ownership_transferred_values_from_tokens(ev: ExtractedEvent)
    ensures
        collection_ownership_transferred_view(ev) matches Some(v) ==> {
            let p = ev.tokens@; let s = Seq::<Token>::empty(); let e = Seq::<Seq<char>>::empty();
            &&& match source_token(p, s, e, "oldOwner"@) { Some(t) => token_addr_view(t) == Some(v.old_owner), None => false }
            &&& match source_token(p, s, e, "newOwner"@) { Some(t) => token_addr_view(t) == Some(v.new_owner), None => false }
        },
{
}

/// Each value of the record built from a `NftCreated` event is that of the token
/// of the event that the ABI names for it, converted: `id` from "id", `nft` from "nft", `owner` from "owner", `manager` from "manager", `creator` from "creator".
pub proof fn lemma_nft_created_values_from_tokens(ev: ExtractedEvent)
    ensures
        nft_created_view(ev) matches Some(v) ==> {
            let p = ev.tokens@; let s = Seq::<Token>::empty(); let e = Seq::<Seq<char>>::empty();
            &&& match source_token(p, s, e, "id"@) { Some(t) => token_decimal_view(t) == Some(v.id), None => false }
            &&& match source_token(p, s, e, "nft"@) { Some(t) => token_addr_view(t) == Some(v.nft), None => false }
            &&& match source_token(p, s, e, "owner"@) { Some(t) => token_addr_view(t) == Some(v.owner), None => false }
            &&& match source_token(p, s, e, "manager"@) { Some(t) => token_addr_view(t) == Some(v.manager), None => false }
            &&& match source_token(p, s, e, "creator"@) { Some(t) => token_addr_view(t) == Some(v.creator), None => false }
        },
{
}

/// Each value of the record built from a `NftBurned` event is that of the token
/// of the event that the ABI names for it, converted: `id` from "id", `nft` from "nft", `owner` from "owner", `manager` from "manager".
pub proof fn lemma_nft_burned_values_from_tokens(ev: ExtractedEvent)
    ensures
        nft_burned_view(ev) matches Some(v) ==> {
            let p = ev.tokens@; let s = Seq::<Token>::empty(); let e = Seq::<Seq<char>>::empty();
            &&& match source_token(p, s, e, "id"@) { Some(t) => token_decimal_view(t) == Some(v.id), None => false }
            &&& match source_token(p, s, e, "nft"@) { Some(t) => token_addr_view(t) == Some(v.nft), None => false }
            &&& match source_token(p, s, e, "owner"@) { Some(t) => token_addr_view(t) == Some(v.owner), None => false }
            &&& match source_token(p, s, e, "manager"@) { Some(t) => token_addr_view(t) == Some(v.manager), None => false }
        },
{
}

} // verus!
