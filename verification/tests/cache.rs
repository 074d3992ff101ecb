//! Freshness cache behaviour: TTL round trips, wholesale replacement,
//! explicit invalidation, and statistics.

use hamclock::cache::{CacheEntry, ResponseCache};
use hamclock::models::{Forecast, SpaceWeather};

fn weather(kp: i32, flux: i32) -> SpaceWeather {
    let mut w = SpaceWeather::new();
    w.kp = kp;
    w.a = 20;
    w.ap = 20;
    w.flux = flux;
    w
}

#[test]
fn test_cache_entry_ttl() {
    let entry = CacheEntry::new(42, 1, 1000);

    assert!(entry.is_valid(1000));
    assert_eq!(entry.get(1000), Some(&42));

    // after the one-second TTL has elapsed
    assert!(!entry.is_valid(1002));
    assert_eq!(entry.get(1002), None);
}

#[test]
fn test_cache_round_trip_boundaries() {
    let mut cache = ResponseCache::new();
    cache.cache_space_weather(weather(50, 85), 1000);
    // valid strictly below the 30-minute TTL
    assert!(cache.get_space_weather(1000).is_some());
    assert!(cache.get_space_weather(1000 + 1799).is_some());
    // at the TTL the entry is expired
    assert!(cache.get_space_weather(1000 + 1800).is_none());
}

#[test]
fn test_response_cache() {
    let now = 1000;
    let cache = {
        let mut c = ResponseCache::new();
        // initially empty
        assert!(c.get_space_weather(now).is_none());
        c.cache_space_weather(weather(50, 85), now);
        c
    };

    // should be retrievable
    let got = cache.get_space_weather(now).expect("cached");
    assert_eq!(got.kp, 50);
    assert_eq!(got.flux, 85);

    // clear cache
    let mut cache = cache;
    cache.clear_all();
    assert!(cache.get_space_weather(now).is_none());
}

#[test]
fn test_cache_stats() {
    let mut cache = ResponseCache::new();

    let stats = cache.get_stats(1000);
    assert_eq!(stats.total_cached, 0);

    cache.cache_space_weather(weather(50, 85), 1000);

    let stats = cache.get_stats(1000);
    assert_eq!(stats.total_cached, 1);
    assert!(stats.space_weather_cached);

    // the entry stops counting once it expires
    let stats = cache.get_stats(1000 + 1800);
    assert_eq!(stats.total_cached, 0);
    assert!(!stats.space_weather_cached);
}

#[test]
fn test_cache_replaced_wholesale() {
    let mut cache = ResponseCache::new();
    cache.cache_space_weather(weather(10, 70), 1000);
    cache.cache_space_weather(weather(70, 120), 2000);
    let got = cache.get_space_weather(2000).expect("cached");
    assert_eq!(got.kp, 70);
    // the replacement reset the entry's clock
    assert!(cache.get_space_weather(2000 + 1799).is_some());
}

#[test]
fn test_cache_kinds_independent() {
    let mut cache = ResponseCache::new();
    cache.cache_forecast(
        vec![Forecast {
            date: "2024-01-01".to_string(),
            temp_high: 10,
            temp_low: 2,
            conditions: "Fair".to_string(),
            humidity: 60,
        }],
        1000,
    );
    assert!(cache.get_space_weather(1000).is_none());
    let fc = cache.get_forecast(1000).expect("cached");
    assert_eq!(fc.len(), 1);
    assert_eq!(fc[0].date, "2024-01-01");
    // forecast has a two-hour TTL
    assert!(cache.get_forecast(1000 + 7199).is_some());
    assert!(cache.get_forecast(1000 + 7200).is_none());
}
