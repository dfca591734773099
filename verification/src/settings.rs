//! Settings: the default auction contracts, the trusted offer roots and the
//! whitelist of offer addresses that is built from them.
use vstd::prelude::*;

verus! {

/// The default list of auction contracts.
pub open spec fn default_contracts_spec() -> Seq<Seq<char>> {
    seq!["postgresql://localhost/nft_indexer"@]
}

/// The default list of auction contracts.
pub fn default_contracts() -> (r: Vec<String>)
    ensures
        r.deep_view() == default_contracts_spec(),
{
    let mut v: Vec<String> = Vec::new();
    v.push(String::from_str("postgresql://localhost/nft_indexer"));
    proof {
        assert(v.deep_view() =~= default_contracts_spec());
    }
    v
}

/// The auction settings: the contracts to follow.
pub struct AuctionsConfig {
    pub contracts: Vec<String>,
}

impl Default for AuctionsConfig {
    fn default() -> (r: AuctionsConfig)
        ensures
            r.contracts.deep_view() == default_contracts_spec(),
    {
        AuctionsConfig { contracts: default_contracts() }
    }
}

/// The settings of the model service that are read from its configuration
/// file: the auction settings.
pub struct ModelConfig {
    pub auctions: AuctionsConfig,
}

impl Default for ModelConfig {
    fn default() -> (r: ModelConfig)
        ensures
            r.auctions.contracts.deep_view() == default_contracts_spec(),
    {
        ModelConfig { auctions: AuctionsConfig::default() }
    }
}

/// The trusted auction root.
pub fn trusted_auction_roots() -> (r: [&'static str; 1])
    ensures
        r[0]@ == "0:a9adf011a072ae8efac041aa4cdc046f973e275208eba607543ac08690ebab3c"@,
{
    ["0:a9adf011a072ae8efac041aa4cdc046f973e275208eba607543ac08690ebab3c"]
}

/// The trusted direct-buy factory.
pub fn trusted_direct_buy_factories() -> (r: [&'static str; 1])
    ensures
        r[0]@ == "0:41ffcebbdc210ed279edaeae705be303a63610eae03bba18014e9945a0f34039"@,
{
    ["0:41ffcebbdc210ed279edaeae705be303a63610eae03bba18014e9945a0f34039"]
}

/// The trusted direct-sell factory.
pub fn trusted_direct_sell_factories() -> (r: [&'static str; 1])
    ensures
        r[0]@ == "0:0cd020840266c5ee7ad575787379c4894f9d494c00d0fc00e22889d721df3f8c"@,
{
    ["0:0cd020840266c5ee7ad575787379c4894f9d494c00d0fc00e22889d721df3f8c"]
}

/// The kinds of contract that deploy offers.
#[derive(Clone, Copy, PartialEq, Eq, Structural, Debug)]
pub enum OfferRootType {
    AuctionRoot,
    FactoryDirectBuy,
    FactoryDirectSell,
}

/// Whether `a` is one of the addresses in `list`.
pub fn contains_address(list: &Vec<String>, a: &String) -> (r: bool)
    ensures
        r == list.deep_view().contains(a@),
{
    let mut i: usize = 0;
    while i < list.len()
        invariant
            i <= list.len(),
            forall|j: int| 0 <= j < i ==> list.deep_view()[j] != a@,
        decreases list.len() - i,
    {
        if list[i] == *a {
            proof {
                assert(list.deep_view()[i as int] == a@);
            }
            return true;
        }
        i = i + 1;
    }
    proof {
        if list.deep_view().contains(a@) {
            let j = choose|j: int| 0 <= j < list.deep_view().len() && list.deep_view()[j] == a@;
            assert(list.deep_view()[j] == a@);
        }
    }
    false
}

/// The trusted addresses of each kind of offer root.
pub struct TrustedAddresses {
    pub auction_roots: Vec<String>,
    pub direct_buy_factories: Vec<String>,
    pub direct_sell_factories: Vec<String>,
}

impl TrustedAddresses {
    /// The trusted addresses of roots of kind `t`.
    pub open spec fn of_kind(&self, t: OfferRootType) -> Seq<Seq<char>> {
        match t {
            OfferRootType::AuctionRoot => self.auction_roots.deep_view(),
            OfferRootType::FactoryDirectBuy => self.direct_buy_factories.deep_view(),
            OfferRootType::FactoryDirectSell => self.direct_sell_factories.deep_view(),
        }
    }

    /// Builds the table from the three lists of the configuration.
    pub fn init_trusted_addresses(
        trusted_auction_roots: Vec<String>,
        trusted_direct_buy_factories: Vec<String>,
        trusted_direct_sell_factories: Vec<String>,
    ) -> (r: TrustedAddresses)
        ensures
            r.of_kind(OfferRootType::AuctionRoot) == trusted_auction_roots.deep_view(),
            r.of_kind(OfferRootType::FactoryDirectBuy) == trusted_direct_buy_factories.deep_view(),
            r.of_kind(OfferRootType::FactoryDirectSell) == trusted_direct_sell_factories.deep_view(),
    {
        TrustedAddresses {
            auction_roots: trusted_auction_roots,
            direct_buy_factories: trusted_direct_buy_factories,
            direct_sell_factories: trusted_direct_sell_factories,
        }
    }

    /// Whether `address` is a trusted root of kind `t`.
    pub fn is_trusted(&self, t: OfferRootType, address: &String) -> (r: bool)
        ensures
            r == self.of_kind(t).contains(address@),
    {
        match t {
            OfferRootType::AuctionRoot => contains_address(&self.auction_roots, address),
            OfferRootType::FactoryDirectBuy => contains_address(&self.direct_buy_factories, address),
            OfferRootType::FactoryDirectSell => contains_address(&self.direct_sell_factories, address),
        }
    }

    /// The addresses to put in the whitelist at start, in the order in
    /// which they are added: the auction roots, then the direct-buy
    /// factories, then the direct-sell factories.
    pub fn whitelist_addresses(&self) -> (r: Vec<String>)
        ensures
            r.deep_view() == self.of_kind(OfferRootType::AuctionRoot) + self.of_kind(
                OfferRootType::FactoryDirectBuy,
            ) + self.of_kind(OfferRootType::FactoryDirectSell),
    {
        let mut r: Vec<String> = Vec::new();
        append_all(&mut r, &self.auction_roots);
        append_all(&mut r, &self.direct_buy_factories);
        append_all(&mut r, &self.direct_sell_factories);
        r
    }
}

/// Appends copies of all of `from` to `to`.
pub fn append_all(to: &mut Vec<String>, from: &Vec<String>)
    ensures
        final(to).deep_view() == old(to).deep_view() + from.deep_view(),
{
    let mut i: usize = 0;
    while i < from.len()
        invariant
            i <= from.len(),
            to.deep_view() == old(to).deep_view() + from.deep_view().take(i as int),
        decreases from.len() - i,
    {
        let ghost prev = to.deep_view();
        let c = from[i].clone();
        to.push(c);
        proof {
            assert(to.deep_view() =~= prev.push(from[i as int]@));
            assert(from.deep_view().take(i + 1) =~= from.deep_view().take(i as int).push(from[i as int]@));
            assert(to.deep_view() =~= old(to).deep_view() + from.deep_view().take(i + 1));
        }
        i = i + 1;
    }
    proof {
        assert(from.deep_view().take(i as int) =~= from.deep_view());
    }
}

/// A key of the Kafka settings as the environment writes it, with `.` for
/// each `_`.
pub open spec fn kafka_key_spec(k: Seq<char>) -> Seq<char> {
    k.map_values(|c: char| if c == '_' { '.' } else { c })
}

/// The name of a Kafka option from its key in the configuration: each `_`
/// becomes `.`.
pub fn kafka_option_key(k: &str) -> (r: String)
    ensures
        r@ == kafka_key_spec(k@),
{
    let mut r = String::new();
    let ghost all = k@;
    proof {
        vstd::string::axiom_spec_iter(k);
    }
    for c in it: k.chars()
        invariant
            it.seq() == all,
            r@ == kafka_key_spec(all.take(it.index() as int)),
    {
        let ghost i = it.index() as int;
        proof {
            assert(c == all[i]);
            assert(all.take(i + 1) =~= all.take(i).push(c));
        }
        if c == '_' {
            crate::text::string_push(&mut r, '.');
        } else {
            crate::text::string_push(&mut r, c);
        }
        proof {
            assert(r@ =~= kafka_key_spec(all.take(i + 1)));
        }
    }
    proof {
        assert(all.take(all.len() as int) =~= all);
    }
    r
}

/// The Kafka options that the consumer is built with: those of the
/// configuration when it asks for them, none otherwise.
pub fn kafka_options(use_kafka_options: Option<bool>, settings: &Vec<(String, String)>) -> (r: Vec<(String, String)>)
    ensures
        use_kafka_options == Some(true) ==> r@.map_values(|p: (String, String)| (p.0@, p.1@)) == settings@.map_values(
            |p: (String, String)| (p.0@, p.1@),
        ),
        use_kafka_options != Some(true) ==> r@.len() == 0,
{
    let mut r: Vec<(String, String)> = Vec::new();
    if use_kafka_options == Some(true) {
        let mut i: usize = 0;
        while i < settings.len()
            invariant
                i <= settings.len(),
                r@.len() == i,
                r@.map_values(|p: (String, String)| (p.0@, p.1@)) == settings@.take(i as int).map_values(
                    |p: (String, String)| (p.0@, p.1@),
                ),
            decreases settings.len() - i,
        {
            let ghost prev = r@;
            r.push((settings[i].0.clone(), settings[i].1.clone()));
            proof {
                let f = |p: (String, String)| (p.0@, p.1@);
                assert(settings@.take(i + 1) =~= settings@.take(i as int).push(settings@[i as int]));
                assert forall|j: int| 0 <= j < i + 1 implies #[trigger] r@.map_values(f)[j] == settings@.take(i + 1).map_values(f)[j] by {
                    if j < i {
                        assert(prev.map_values(f)[j] == settings@.take(i as int).map_values(f)[j]);
                        assert(r@[j] == prev[j]);
                    }
                }
                assert(r@.map_values(f) =~= settings@.take(i + 1).map_values(f));
            }
            i = i + 1;
        }
        proof {
            assert(settings@.take(i as int) =~= settings@);
        }
    }
    r
}

} // verus!
