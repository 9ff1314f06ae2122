//! The fee cache, its watch list and its subscription lifecycle.
use crate::cache::{bucket_after, entry_of};
use crate::types::{
    category_of, perp_name, spot_name, DriftMarketInfo, DriftPriorityFeeLevels,
    DriftPriorityFeeResponse, MarketType, PriorityFeeSubscriberMapConfig,
    DEFAULT_PRIORITY_FEE_MAP_FREQUENCY_MS,
};
use std::collections::HashMap;
use vstd::prelude::*;

verus! {

broadcast use vstd::std_specs::hash::group_hash_axioms;

/// Where a subscriber map stands in its subscription.
#[derive(Clone, Copy, Debug, PartialEq, Eq, Structural)]
pub enum Lifecycle {
    /// Never subscribed, or the first load of the last attempt failed.
    Idle,
    /// A subscription has begun and waits for its first load.
    Starting,
    /// The first load succeeded and the periodic refresh runs.
    Polling,
}

/// What the caller of `start_subscribe` does next.
#[derive(Clone, Copy, Debug, PartialEq, Eq, Structural)]
pub enum SubscribeAction {
    /// The refresh already runs: nothing to do.
    AlreadySubscribed,
    /// Load once, then report the outcome to `complete_subscribe`.
    LoadFirst,
}

/// What a subscriber map holds, as mathematical values.
/// `frequency_ms` is the refresh period, `markets` the watch list, `perp`
/// and `spot` the cache buckets of the two known categories.
pub struct FeeMapModel {
    pub frequency_ms: u64,
    pub lifecycle: Lifecycle,
    pub markets: Option<Seq<DriftMarketInfo>>,
    pub endpoint: Seq<char>,
    pub perp: Map<u64, DriftPriorityFeeLevels>,
    pub spot: Map<u64, DriftPriorityFeeLevels>,
}

impl FeeMapModel {
    /// The cached fee levels of market `k` in the category named `name`.
    pub open spec fn lookup(self, name: Seq<char>, k: u64) -> Option<DriftPriorityFeeLevels> {
        match category_of(name) {
            Some(MarketType::Perp) => entry_of(self.perp, k),
            Some(MarketType::Spot) => entry_of(self.spot, k),
            None => None,
        }
    }

    /// The state after the entries of one response are stored in the cache.
    pub open spec fn updated(self, entries: Seq<DriftPriorityFeeLevels>) -> FeeMapModel {
        FeeMapModel {
            perp: bucket_after(self.perp, entries, perp_name()),
            spot: bucket_after(self.spot, entries, spot_name()),
            ..self
        }
    }

    /// The state after a successful load: the response names the markets to
    /// watch from now on, and its entries are stored in the cache.
    pub open spec fn loaded(self, entries: Seq<DriftPriorityFeeLevels>) -> FeeMapModel {
        FeeMapModel { markets: Some(markets_of(entries)), ..self.updated(entries) }
    }

    /// What a subscribe call asks of its caller in this state.
    pub open spec fn start_action(self) -> SubscribeAction {
        match self.lifecycle {
            Lifecycle::Polling => SubscribeAction::AlreadySubscribed,
            _ => SubscribeAction::LoadFirst,
        }
    }

    /// The state once a subscribe call has begun.
    pub open spec fn after_start(self) -> FeeMapModel {
        match self.lifecycle {
            Lifecycle::Polling => self,
            _ => FeeMapModel { lifecycle: Lifecycle::Starting, ..self },
        }
    }

    /// The period of the refresh loop to launch once the first load of a
    /// subscription ended (`loaded` tells whether it succeeded); `None` when no
    /// loop is to be launched.
    pub open spec fn launched(self, loaded: bool) -> Option<u64> {
        if self.lifecycle != Lifecycle::Polling && loaded {
            Some(self.frequency_ms)
        } else {
            None
        }
    }

    /// The state once the first load of a subscription ended.
    pub open spec fn after_complete(self, loaded: bool) -> FeeMapModel {
        if self.lifecycle == Lifecycle::Polling || loaded {
            FeeMapModel { lifecycle: Lifecycle::Polling, ..self }
        } else {
            FeeMapModel { lifecycle: Lifecycle::Idle, ..self }
        }
    }
}

/// The state of a newly built map: the configured (or default) period, not
/// subscribed, the configured watch list and endpoint, and both cache buckets
/// present and empty.
pub open spec fn initial_model(config: PriorityFeeSubscriberMapConfig) -> FeeMapModel {
    FeeMapModel {
        frequency_ms: match config.frequency_ms {
            Some(f) => f,
            None => DEFAULT_PRIORITY_FEE_MAP_FREQUENCY_MS,
        },
        lifecycle: Lifecycle::Idle,
        markets: match config.drift_markets {
            Some(v) => Some(v@),
            None => None,
        },
        endpoint: config.drift_priority_fee_endpoint@,
        perp: Map::empty(),
        spot: Map::empty(),
    }
}

/// What the fee service is asked for on one load: parallel lists of the
/// watched markets' category names and indices.
#[derive(Clone, Debug)]
pub struct FeeRequest {
    pub endpoint: String,
    pub market_types: Vec<String>,
    pub market_indexes: Vec<u16>,
}

/// The market that a response entry reports on, as a watch-list item; the
/// index keeps its low 16 bits, the width of a watch-list index.
pub open spec fn market_of(e: DriftPriorityFeeLevels) -> DriftMarketInfo {
    DriftMarketInfo { market_type: e.market_type, market_index: e.market_index as u16 }
}

/// The watch list that a response defines: one market per entry, in order.
pub open spec fn markets_of(entries: Seq<DriftPriorityFeeLevels>) -> Seq<DriftMarketInfo> {
    entries.map_values(|e: DriftPriorityFeeLevels| market_of(e))
}

/// The fee levels per market, refreshed from a remote fee service.
pub struct PriorityFeeSubscriberMap {
    /// The refresh period, in milliseconds.
    frequency_ms: u64,
    lifecycle: Lifecycle,
    drift_markets: Option<Vec<DriftMarketInfo>>,
    drift_priority_fee_endpoint: String,
    perp_fees: HashMap<u64, DriftPriorityFeeLevels>,
    spot_fees: HashMap<u64, DriftPriorityFeeLevels>,
}

impl View for PriorityFeeSubscriberMap {
    type V = FeeMapModel;

    closed spec fn view(&self) -> FeeMapModel {
        FeeMapModel {
            frequency_ms: self.frequency_ms,
            lifecycle: self.lifecycle,
            markets: match self.drift_markets {
                Some(v) => Some(v@),
                None => None,
            },
            endpoint: self.drift_priority_fee_endpoint@,
            perp: self.perp_fees@,
            spot: self.spot_fees@,
        }
    }
}

impl PriorityFeeSubscriberMap {
    /// A map with an empty cache, not subscribed, that polls the configured
    /// markets every `frequency_ms` (the default period when none is given).
    /// The period must be positive.
    pub fn new(config: PriorityFeeSubscriberMapConfig) -> (r: Self)
        requires
            config.frequency_ms != Some(0u64),
        ensures
            r@ == initial_model(config),
            r@.frequency_ms > 0,
            forall|name: Seq<char>, k: u64| #[trigger] r@.lookup(name, k) is None,
    {
        let frequency_ms = match config.frequency_ms {
            Some(f) => f,
            None => DEFAULT_PRIORITY_FEE_MAP_FREQUENCY_MS,
        };
        PriorityFeeSubscriberMap {
            frequency_ms,
            lifecycle: Lifecycle::Idle,
            drift_markets: config.drift_markets,
            drift_priority_fee_endpoint: config.drift_priority_fee_endpoint,
            perp_fees: HashMap::new(),
            spot_fees: HashMap::new(),
        }
    }

    /// Stores each entry of the response under its category and market index,
    /// in order; entries of an unknown category are dropped.
    pub fn update_fees_map(&mut self, drift_priority_fee_res: DriftPriorityFeeResponse)
        ensures
            final(self)@ == old(self)@.updated(drift_priority_fee_res.0@),
    {
        let entries = &drift_priority_fee_res.0;
        let mut i: usize = 0;
        while i < entries.len()
            invariant
                0 <= i <= entries@.len(),
                self@ == old(self)@.updated(entries@.take(i as int)),
            decreases entries@.len() - i,
        {
            let fee = &entries[i];
            match MarketType::from_name(fee.market_type.as_str()) {
                Some(MarketType::Perp) => {
                    self.perp_fees.insert(fee.market_index, fee.duplicate());
                },
                Some(MarketType::Spot) => {
                    self.spot_fees.insert(fee.market_index, fee.duplicate());
                },
                None => {},
            }
            proof {
                assert(entries@.take(i + 1).drop_last() =~= entries@.take(i as int));
            }
            i = i + 1;
        }
        proof {
            assert(entries@.take(i as int) =~= entries@);
        }
    }

    /// The request for one load: `None` when no watch list is configured or
    /// the watch list is empty, in which case a load does nothing and succeeds.
    pub fn load_request(&self) -> (r: Option<FeeRequest>)
        ensures
            match self@.markets {
                None => r is None,
                Some(ms) => ms.len() == 0 ==> r is None,
            },
            match self@.markets {
                None => true,
                Some(ms) => ms.len() > 0 ==> (r matches Some(q) && q.endpoint@ == self@.endpoint
                    && q.market_types@ == ms.map_values(|m: DriftMarketInfo| m.market_type)
                    && q.market_indexes@ == ms.map_values(|m: DriftMarketInfo| m.market_index)),
            },
    {
        match &self.drift_markets {
            None => None,
            Some(markets) => {
                if markets.len() == 0 {
                    return None;
                }
                let mut market_types: Vec<String> = Vec::new();
                let mut market_indexes: Vec<u16> = Vec::new();
                let mut i: usize = 0;
                while i < markets.len()
                    invariant
                        0 <= i <= markets@.len(),
                        market_types@ == markets@.take(i as int).map_values(
                            |m: DriftMarketInfo| m.market_type,
                        ),
                        market_indexes@ == markets@.take(i as int).map_values(
                            |m: DriftMarketInfo| m.market_index,
                        ),
                    decreases markets@.len() - i,
                {
                    market_types.push(markets[i].market_type.clone());
                    market_indexes.push(markets[i].market_index);
                    proof {
                        assert(markets@.take(i + 1).drop_last() =~= markets@.take(i as int));
                    }
                    i = i + 1;
                    assert(market_types@ =~= markets@.take(i as int).map_values(
                        |m: DriftMarketInfo| m.market_type,
                    ));
                    assert(market_indexes@ =~= markets@.take(i as int).map_values(
                        |m: DriftMarketInfo| m.market_index,
                    ));
                }
                proof {
                    assert(markets@.take(i as int) =~= markets@);
                }
                Some(
                    FeeRequest {
                        endpoint: self.drift_priority_fee_endpoint.clone(),
                        market_types,
                        market_indexes,
                    },
                )
            },
        }
    }

    /// Commits the outcome of one fetch. On success the response becomes the
    /// watch list and its entries are stored in the cache; on failure nothing
    /// changes and the failure is handed back.
    pub fn finish_load<E>(&mut self, fetched: Result<DriftPriorityFeeResponse, E>) -> (r: Result<
        (),
        E,
    >)
        ensures
            match fetched {
                Ok(res) => r is Ok && final(self)@ == old(self)@.loaded(res.0@),
                Err(e) => r == Err::<(), E>(e) && final(self)@ == old(self)@,
            },
    {
        match fetched {
            Ok(res) => {
                let mut markets: Vec<DriftMarketInfo> = Vec::new();
                let mut i: usize = 0;
                while i < res.0.len()
                    invariant
                        0 <= i <= res.0@.len(),
                        markets@ == markets_of(res.0@.take(i as int)),
                    decreases res.0@.len() - i,
                {
                    let fee = &res.0[i];
                    markets.push(
                        DriftMarketInfo {
                            market_type: fee.market_type.clone(),
                            market_index: fee.market_index as u16,
                        },
                    );
                    i = i + 1;
                    assert(markets@ =~= markets_of(res.0@.take(i as int)));
                }
                proof {
                    assert(res.0@.take(i as int) =~= res.0@);
                }
                self.update_market_type_and_index(markets);
                self.update_fees_map(res);
                Ok(())
            },
            Err(e) => Err(e),
        }
    }

    /// Begins a subscription: asks for a first load unless the refresh
    /// already runs, in which case nothing changes.
    pub fn start_subscribe(&mut self) -> (r: SubscribeAction)
        ensures
            r == old(self)@.start_action(),
            final(self)@ == old(self)@.after_start(),
    {
        match self.lifecycle {
            Lifecycle::Polling => SubscribeAction::AlreadySubscribed,
            _ => {
                self.lifecycle = Lifecycle::Starting;
                SubscribeAction::LoadFirst
            },
        }
    }

    /// Ends a subscription attempt once its first load is over. After a
    /// success the refresh runs, and the result is the period of the loop to
    /// launch (`None` if one already runs); after a failure the map is back to
    /// not subscribed, so that a later attempt may retry.
    pub fn complete_subscribe(&mut self, loaded: bool) -> (r: Option<u64>)
        ensures
            r == old(self)@.launched(loaded),
            final(self)@ == old(self)@.after_complete(loaded),
    {
        match self.lifecycle {
            Lifecycle::Polling => None,
            _ => {
                if loaded {
                    self.lifecycle = Lifecycle::Polling;
                    Some(self.frequency_ms)
                } else {
                    self.lifecycle = Lifecycle::Idle;
                    None
                }
            },
        }
    }

    /// Replaces the watch list.
    pub fn update_market_type_and_index(&mut self, drift_markets: Vec<DriftMarketInfo>)
        ensures
            final(self)@ == (FeeMapModel { markets: Some(drift_markets@), ..old(self)@ }),
    {
        self.drift_markets = Some(drift_markets);
    }

    /// The cached fee levels of one market; `None` for a market never
    /// reported or a category the cache does not keep.
    pub fn get_priority_fees(&self, market_type: &str, market_index: u64) -> (r: Option<
        &DriftPriorityFeeLevels,
    >)
        ensures
            match r {
                Some(v) => self@.lookup(market_type@, market_index) == Some(*v),
                None => self@.lookup(market_type@, market_index) is None,
            },
    {
        match MarketType::from_name(market_type) {
            Some(MarketType::Perp) => self.perp_fees.get(&market_index),
            Some(MarketType::Spot) => self.spot_fees.get(&market_index),
            None => None,
        }
    }
}

} // verus!
