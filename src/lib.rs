//! A locally cached, periodically refreshed view of per-market priority fee
//! levels. The library holds the cache, the watch list and the subscription
//! lifecycle; the caller performs the remote fetch and runs the timer.

pub mod cache;
pub mod laws;
pub mod subscriber_map;
pub mod types;

pub use subscriber_map::{
    FeeRequest, Lifecycle, PriorityFeeSubscriberMap, SubscribeAction,
};
pub use types::{
    DriftMarketInfo, DriftPriorityFeeLevels, DriftPriorityFeeResponse, MarketType,
    PriorityFeeSubscriberMapConfig, DEFAULT_PRIORITY_FEE_MAP_FREQUENCY_MS,
};
