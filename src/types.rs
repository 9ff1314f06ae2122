use vstd::prelude::*;

verus! {

/// Refresh period used when the configuration leaves it open.
pub const DEFAULT_PRIORITY_FEE_MAP_FREQUENCY_MS: u64 = 10000;

/// The market categories the cache keeps a bucket for.
#[derive(Clone, Copy, Debug, PartialEq, Eq, Structural)]
pub enum MarketType {
    Perp,
    Spot,
}

/// The name under which the fee service reports perpetual markets.
pub open spec fn perp_name() -> Seq<char> {
    seq!['p', 'e', 'r', 'p']
}

/// The name under which the fee service reports spot markets.
pub open spec fn spot_name() -> Seq<char> {
    seq!['s', 'p', 'o', 't']
}

/// The known category named `s`, if any.
pub open spec fn category_of(s: Seq<char>) -> Option<MarketType> {
    if s == perp_name() {
        Some(MarketType::Perp)
    } else if s == spot_name() {
        Some(MarketType::Spot)
    } else {
        None
    }
}

impl MarketType {
    /// The known category named `s`; `None` for a name the cache has no bucket for.
    pub fn from_name(s: &str) -> (r: Option<MarketType>)
        ensures
            r == category_of(s@),
    {
        let name = s.to_owned();
        let perp = "perp".to_owned();
        let spot = "spot".to_owned();
        proof {
            reveal_strlit("perp");
            reveal_strlit("spot");
            assert(perp@ =~= perp_name());
            assert(spot@ =~= spot_name());
        }
        if name == perp {
            Some(MarketType::Perp)
        } else if name == spot {
            Some(MarketType::Spot)
        } else {
            None
        }
    }
}

/// One market to poll: its category name and its index.
#[derive(Clone, Debug, PartialEq, Eq)]
pub struct DriftMarketInfo {
    pub market_type: String,
    pub market_index: u16,
}

/// The fee levels that the fee service reports for one market, tagged with the
/// market's category name and index. Replaced whole on every refresh.
#[derive(Clone, Debug, PartialEq, Eq)]
pub struct DriftPriorityFeeLevels {
    pub low: u64,
    pub medium: u64,
    pub high: u64,
    pub very_high: u64,
    pub unsafe_max: u64,
    pub market_type: String,
    pub market_index: u64,
}

/// One answer of the fee service: the fee levels of each market it reports on.
#[derive(Clone, Debug, PartialEq, Eq)]
pub struct DriftPriorityFeeResponse(pub Vec<DriftPriorityFeeLevels>);

/// Options for building a subscriber map.
#[derive(Clone, Debug)]
pub struct PriorityFeeSubscriberMapConfig {
    /// Refresh period; the default period when absent.
    pub frequency_ms: Option<u64>,
    /// Markets to poll; nothing is polled when absent.
    pub drift_markets: Option<Vec<DriftMarketInfo>>,
    /// Address of the fee service.
    pub drift_priority_fee_endpoint: String,
}

impl DriftPriorityFeeLevels {
    /// A copy equal to `self` in every field.
    pub fn duplicate(&self) -> (r: DriftPriorityFeeLevels)
        ensures
            r == *self,
    {
        DriftPriorityFeeLevels {
            low: self.low,
            medium: self.medium,
            high: self.high,
            very_high: self.very_high,
            unsafe_max: self.unsafe_max,
            market_type: self.market_type.clone(),
            market_index: self.market_index,
        }
    }
}

} // verus!
