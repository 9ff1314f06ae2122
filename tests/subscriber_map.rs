use priority_fee_map::{
    DriftMarketInfo, DriftPriorityFeeLevels, DriftPriorityFeeResponse, MarketType,
    PriorityFeeSubscriberMap, PriorityFeeSubscriberMapConfig, SubscribeAction,
    DEFAULT_PRIORITY_FEE_MAP_FREQUENCY_MS,
};

fn levels(market_type: &str, market_index: u64, medium: u64) -> DriftPriorityFeeLevels {
    DriftPriorityFeeLevels {
        low: medium / 2,
        medium,
        high: medium * 2,
        very_high: medium * 3,
        unsafe_max: medium * 4,
        market_type: market_type.to_string(),
        market_index,
    }
}

fn market(market_type: &str, market_index: u16) -> DriftMarketInfo {
    DriftMarketInfo { market_type: market_type.to_string(), market_index }
}

fn config(
    frequency_ms: Option<u64>,
    drift_markets: Option<Vec<DriftMarketInfo>>,
) -> PriorityFeeSubscriberMapConfig {
    PriorityFeeSubscriberMapConfig {
        frequency_ms,
        drift_markets,
        drift_priority_fee_endpoint: "https://fees.example".to_string(),
    }
}

#[test]
fn market_type_from_name() {
    assert_eq!(MarketType::from_name("perp"), Some(MarketType::Perp));
    assert_eq!(MarketType::from_name("spot"), Some(MarketType::Spot));
    assert_eq!(MarketType::from_name("Perp"), None);
    assert_eq!(MarketType::from_name(""), None);
    assert_eq!(MarketType::from_name("perps"), None);
}

#[test]
fn read_before_subscribe_finds_nothing() {
    let map = PriorityFeeSubscriberMap::new(config(None, Some(vec![market("perp", 0)])));
    assert!(map.get_priority_fees("perp", 0).is_none());
    assert!(map.get_priority_fees("spot", 0).is_none());
    assert!(map.get_priority_fees("perp", u64::MAX).is_none());
    assert!(map.get_priority_fees("bogus", 1).is_none());
}

#[test]
fn default_frequency_is_used_when_absent() {
    let mut map = PriorityFeeSubscriberMap::new(config(None, None));
    assert_eq!(map.start_subscribe(), SubscribeAction::LoadFirst);
    assert_eq!(map.complete_subscribe(true), Some(DEFAULT_PRIORITY_FEE_MAP_FREQUENCY_MS));
    assert_eq!(DEFAULT_PRIORITY_FEE_MAP_FREQUENCY_MS, 10000);
}

#[test]
fn configured_frequency_is_used() {
    let mut map = PriorityFeeSubscriberMap::new(config(Some(250), None));
    assert_eq!(map.start_subscribe(), SubscribeAction::LoadFirst);
    assert_eq!(map.complete_subscribe(true), Some(250));
}

#[test]
fn update_stores_entries_by_category_and_index() {
    let mut map = PriorityFeeSubscriberMap::new(config(None, None));
    map.update_fees_map(DriftPriorityFeeResponse(vec![
        levels("perp", 0, 100),
        levels("spot", 0, 7),
        levels("perp", 3, 40),
    ]));
    assert_eq!(map.get_priority_fees("perp", 0), Some(&levels("perp", 0, 100)));
    assert_eq!(map.get_priority_fees("spot", 0), Some(&levels("spot", 0, 7)));
    assert_eq!(map.get_priority_fees("perp", 3), Some(&levels("perp", 3, 40)));
    assert!(map.get_priority_fees("spot", 3).is_none());
}

#[test]
fn later_entry_for_same_market_wins() {
    let mut map = PriorityFeeSubscriberMap::new(config(None, None));
    map.update_fees_map(DriftPriorityFeeResponse(vec![
        levels("perp", 1, 10),
        levels("perp", 1, 20),
    ]));
    assert_eq!(map.get_priority_fees("perp", 1).map(|l| l.medium), Some(20));
    map.update_fees_map(DriftPriorityFeeResponse(vec![levels("perp", 1, 30)]));
    assert_eq!(map.get_priority_fees("perp", 1).map(|l| l.medium), Some(30));
}

#[test]
fn unknown_category_is_dropped() {
    let mut map = PriorityFeeSubscriberMap::new(config(None, None));
    map.update_fees_map(DriftPriorityFeeResponse(vec![levels("perp", 2, 5)]));
    map.update_fees_map(DriftPriorityFeeResponse(vec![
        levels("futures", 2, 99),
        levels("futures", 0, 98),
    ]));
    assert!(map.get_priority_fees("futures", 2).is_none());
    assert!(map.get_priority_fees("futures", 0).is_none());
    assert_eq!(map.get_priority_fees("perp", 2), Some(&levels("perp", 2, 5)));
    assert!(map.get_priority_fees("perp", 0).is_none());
    assert!(map.get_priority_fees("spot", 2).is_none());
}

#[test]
fn update_twice_equals_update_once() {
    let response = DriftPriorityFeeResponse(vec![
        levels("perp", 0, 1),
        levels("spot", 4, 2),
        levels("perp", 0, 3),
        levels("other", 1, 4),
    ]);
    let mut once = PriorityFeeSubscriberMap::new(config(None, None));
    once.update_fees_map(response.clone());
    let mut twice = PriorityFeeSubscriberMap::new(config(None, None));
    twice.update_fees_map(response.clone());
    twice.update_fees_map(response);
    for (name, index) in [("perp", 0), ("spot", 4), ("other", 1), ("perp", 4), ("spot", 0)] {
        assert_eq!(once.get_priority_fees(name, index), twice.get_priority_fees(name, index));
    }
    assert_eq!(twice.get_priority_fees("perp", 0).map(|l| l.medium), Some(3));
}

#[test]
fn load_request_without_watch_list_is_none() {
    let map = PriorityFeeSubscriberMap::new(config(None, None));
    assert!(map.load_request().is_none());
}

#[test]
fn load_request_has_parallel_lists() {
    let map = PriorityFeeSubscriberMap::new(config(
        None,
        Some(vec![market("perp", 0), market("spot", 5), market("perp", 9)]),
    ));
    let request = map.load_request().unwrap();
    assert_eq!(request.endpoint, "https://fees.example");
    assert_eq!(request.market_types, vec!["perp", "spot", "perp"]);
    assert_eq!(request.market_indexes, vec![0, 5, 9]);
}

#[test]
fn load_request_with_empty_watch_list() {
    let map = PriorityFeeSubscriberMap::new(config(None, Some(vec![])));
    assert!(map.load_request().is_none());
}

#[test]
fn successful_load_replaces_watch_list_and_cache() {
    let mut map = PriorityFeeSubscriberMap::new(config(None, Some(vec![market("perp", 0)])));
    let fetched: Result<DriftPriorityFeeResponse, String> = Ok(DriftPriorityFeeResponse(vec![
        levels("spot", 1, 11),
        levels("perp", 65539, 12),
    ]));
    assert_eq!(map.finish_load(fetched), Ok(()));
    let request = map.load_request().unwrap();
    assert_eq!(request.market_types, vec!["spot", "perp"]);
    assert_eq!(request.market_indexes, vec![1, 3]);
    assert_eq!(map.get_priority_fees("spot", 1).map(|l| l.medium), Some(11));
    assert_eq!(map.get_priority_fees("perp", 65539).map(|l| l.medium), Some(12));
}

#[test]
fn manual_watch_list_update() {
    let mut map = PriorityFeeSubscriberMap::new(config(None, None));
    map.update_market_type_and_index(vec![market("spot", 2)]);
    let request = map.load_request().unwrap();
    assert_eq!(request.market_types, vec!["spot"]);
    assert_eq!(request.market_indexes, vec![2]);
}

#[test]
fn failed_load_changes_nothing() {
    let mut map = PriorityFeeSubscriberMap::new(config(None, Some(vec![market("perp", 0)])));
    let first: Result<DriftPriorityFeeResponse, String> =
        Ok(DriftPriorityFeeResponse(vec![levels("perp", 0, 100), levels("perp", 1, 5)]));
    assert_eq!(map.finish_load(first), Ok(()));
    let failed: Result<DriftPriorityFeeResponse, String> = Err("timeout".to_string());
    assert_eq!(map.finish_load(failed), Err("timeout".to_string()));
    assert_eq!(map.get_priority_fees("perp", 0).map(|l| l.medium), Some(100));
    assert_eq!(map.get_priority_fees("perp", 1).map(|l| l.medium), Some(5));
    let request = map.load_request().unwrap();
    assert_eq!(request.market_types, vec!["perp", "perp"]);
    assert_eq!(request.market_indexes, vec![0, 1]);
}

#[test]
fn subscribe_twice_loads_once() {
    let mut map = PriorityFeeSubscriberMap::new(config(Some(50), Some(vec![market("perp", 0)])));
    assert_eq!(map.start_subscribe(), SubscribeAction::LoadFirst);
    assert_eq!(map.complete_subscribe(true), Some(50));
    assert_eq!(map.start_subscribe(), SubscribeAction::AlreadySubscribed);
    assert_eq!(map.start_subscribe(), SubscribeAction::AlreadySubscribed);
    assert_eq!(map.complete_subscribe(true), None);
}

#[test]
fn failed_first_load_allows_retry() {
    let mut map = PriorityFeeSubscriberMap::new(config(Some(50), None));
    assert_eq!(map.start_subscribe(), SubscribeAction::LoadFirst);
    assert_eq!(map.complete_subscribe(false), None);
    assert_eq!(map.start_subscribe(), SubscribeAction::LoadFirst);
    assert_eq!(map.complete_subscribe(true), Some(50));
}

#[test]
fn end_to_end_refresh() {
    let mut map = PriorityFeeSubscriberMap::new(config(Some(50), Some(vec![market("perp", 0)])));
    assert_eq!(map.start_subscribe(), SubscribeAction::LoadFirst);
    let request = map.load_request().unwrap();
    assert_eq!(request.market_types, vec!["perp"]);
    assert_eq!(request.market_indexes, vec![0]);
    let first: Result<DriftPriorityFeeResponse, String> =
        Ok(DriftPriorityFeeResponse(vec![levels("perp", 0, 100)]));
    let loaded = map.finish_load(first);
    assert_eq!(map.complete_subscribe(loaded.is_ok()), Some(50));
    assert_eq!(map.get_priority_fees("perp", 0).map(|l| l.medium), Some(100));
    // one tick of the refresh loop
    assert!(map.load_request().is_some());
    let second: Result<DriftPriorityFeeResponse, String> =
        Ok(DriftPriorityFeeResponse(vec![levels("perp", 0, 150)]));
    assert_eq!(map.finish_load(second), Ok(()));
    assert_eq!(map.get_priority_fees("perp", 0).map(|l| l.medium), Some(150));
}
