//! Freshness cache: per-data-kind store of the last fetched value plus a
//! time-to-live. Entries are replaced wholesale on refresh, never mutated
//! in place; expiry is checked lazily at read time with a strict
//! comparison. A single writer (the detection cycle) owns the cache.

use vstd::prelude::*;

use crate::models::{DxSpot, Forecast, SatelliteData, SpaceWeather, MAX_EPOCH_SECONDS};

verus! {

/// Cache TTL for space weather, seconds (30 minutes).
pub const SPACE_WEATHER_TTL_SECONDS: i64 = 1800;

/// Cache TTL for the forecast, seconds (2 hours).
pub const FORECAST_TTL_SECONDS: i64 = 7200;

/// Cache TTL for spots, seconds (10 minutes).
pub const DX_SPOTS_TTL_SECONDS: i64 = 600;

/// Cache TTL for satellite data, seconds (15 minutes).
pub const SATELLITES_TTL_SECONDS: i64 = 900;

/// A cached value with its creation instant and time-to-live.
#[derive(Debug)]
pub struct CacheEntry<T> {
    pub data: T,
    /// Creation instant, seconds since the Unix epoch.
    pub created_at: i64,
    /// Time-to-live in seconds.
    pub ttl_seconds: i64,
}

impl<T> CacheEntry<T> {
    /// Timestamps of the entry are sane epoch values.
    pub open spec fn wf(&self) -> bool {
        &&& 0 <= self.created_at <= MAX_EPOCH_SECONDS
        &&& 0 <= self.ttl_seconds <= MAX_EPOCH_SECONDS
    }

    /// Create a new cache entry stamped at `now`.
    pub fn new(data: T, ttl_seconds: i64, now: i64) -> (e: Self)
        requires
            0 <= now <= MAX_EPOCH_SECONDS,
            0 <= ttl_seconds <= MAX_EPOCH_SECONDS,
        ensures
            e.data == data,
            e.created_at == now,
            e.ttl_seconds == ttl_seconds,
            e.wf(),
    {
        CacheEntry { data, created_at: now, ttl_seconds }
    }

    /// A cache entry is valid while its age stays strictly below its TTL.
    pub open spec fn spec_is_valid(&self, now: i64) -> bool {
        now - self.created_at < self.ttl_seconds
    }

    /// A cache entry is valid while its age stays strictly below its TTL.
    #[verifier::when_used_as_spec(spec_is_valid)]
    pub fn is_valid(&self, now: i64) -> (r: bool)
        requires
            self.wf(),
            0 <= now <= MAX_EPOCH_SECONDS,
        ensures
            r == self.spec_is_valid(now),
    {
        now - self.created_at < self.ttl_seconds
    }

    /// Remaining TTL in seconds, zero once expired.
    pub fn remaining_ttl_secs(&self, now: i64) -> (r: i64)
        requires
            self.wf(),
            0 <= now <= MAX_EPOCH_SECONDS,
        ensures
            r == if self.ttl_seconds - (now - self.created_at) >= 0 {
                self.ttl_seconds - (now - self.created_at)
            } else {
                0
            },
    {
        let age = now - self.created_at;
        let remaining = self.ttl_seconds - age;
        if remaining >= 0 {
            remaining
        } else {
            0
        }
    }

    /// What a read at `now` yields: the value while valid, nothing after.
    pub open spec fn spec_get(&self, now: i64) -> Option<T> {
        if self.spec_is_valid(now) {
            Some(self.data)
        } else {
            None
        }
    }

    /// Borrow the cached data if the entry is still valid.
    pub fn get(&self, now: i64) -> (r: Option<&T>)
        requires
            self.wf(),
            0 <= now <= MAX_EPOCH_SECONDS,
        ensures
            r is Some <==> self.spec_is_valid(now),
            r is Some ==> r.unwrap() == &self.data,
    {
        if self.is_valid(now) {
            Some(&self.data)
        } else {
            None
        }
    }
}

/// Statistics over the cache: which kinds currently hold a valid entry.
#[derive(Debug, Clone, Copy, PartialEq, Eq, Structural)]
pub struct CacheStats {
    pub space_weather_cached: bool,
    pub forecast_cached: bool,
    pub dx_spots_cached: bool,
    pub satellites_cached: bool,
    pub total_cached: u32,
}

/// Freshness cache for all four telemetry kinds. The detection cycle is
/// its single writer; reads never observe a partially written entry
/// because entries are replaced wholesale.
#[derive(Debug)]
pub struct ResponseCache {
    pub space_weather: Option<CacheEntry<SpaceWeather>>,
    pub forecast: Option<CacheEntry<Vec<Forecast>>>,
    pub dx_spots: Option<CacheEntry<Vec<DxSpot>>>,
    pub satellites: Option<CacheEntry<Vec<SatelliteData>>>,
}

impl ResponseCache {
    /// Every present entry carries sane timestamps.
    pub open spec fn wf(&self) -> bool {
        &&& match self.space_weather {
            Some(e) => e.wf(),
            None => true,
        }
        &&& match self.forecast {
            Some(e) => e.wf(),
            None => true,
        }
        &&& match self.dx_spots {
            Some(e) => e.wf(),
            None => true,
        }
        &&& match self.satellites {
            Some(e) => e.wf(),
            None => true,
        }
    }

    /// An empty cache.
    pub fn new() -> (r: Self)
        ensures
            r.space_weather is None,
            r.forecast is None,
            r.dx_spots is None,
            r.satellites is None,
            r.wf(),
    {
        ResponseCache { space_weather: None, forecast: None, dx_spots: None, satellites: None }
    }

    /// Replace the space weather entry, stamped at `now`, TTL 30 minutes.
    pub fn cache_space_weather(&mut self, data: SpaceWeather, now: i64)
        requires
            old(self).wf(),
            0 <= now <= MAX_EPOCH_SECONDS,
        ensures
            final(self).space_weather == Some(
                CacheEntry { data, created_at: now, ttl_seconds: SPACE_WEATHER_TTL_SECONDS },
            ),
            final(self).forecast == old(self).forecast,
            final(self).dx_spots == old(self).dx_spots,
            final(self).satellites == old(self).satellites,
            final(self).wf(),
    {
        self.space_weather = Some(CacheEntry::new(data, SPACE_WEATHER_TTL_SECONDS, now));
    }

    /// Space weather if cached and still valid at `now`.
    pub fn get_space_weather(&self, now: i64) -> (r: Option<SpaceWeather>)
        requires
            self.wf(),
            0 <= now <= MAX_EPOCH_SECONDS,
        ensures
            r == match self.space_weather {
                Some(e) => e.spec_get(now),
                None => None::<SpaceWeather>,
            },
    {
        match &self.space_weather {
            Some(e) => match e.get(now) {
                Some(d) => Some(d.clone()),
                None => None,
            },
            None => None,
        }
    }

    /// Replace the forecast entry, stamped at `now`, TTL 2 hours.
    pub fn cache_forecast(&mut self, data: Vec<Forecast>, now: i64)
        requires
            old(self).wf(),
            0 <= now <= MAX_EPOCH_SECONDS,
        ensures
            final(self).forecast == Some(
                CacheEntry { data, created_at: now, ttl_seconds: FORECAST_TTL_SECONDS },
            ),
            final(self).space_weather == old(self).space_weather,
            final(self).dx_spots == old(self).dx_spots,
            final(self).satellites == old(self).satellites,
            final(self).wf(),
    {
        self.forecast = Some(CacheEntry::new(data, FORECAST_TTL_SECONDS, now));
    }

    /// Forecast if cached and still valid at `now`.
    pub fn get_forecast(&self, now: i64) -> (r: Option<Vec<Forecast>>)
        requires
            self.wf(),
            0 <= now <= MAX_EPOCH_SECONDS,
        ensures
            match self.forecast {
                Some(e) => (r is Some <==> e.spec_is_valid(now)) && (r is Some ==> r.unwrap()@
                    == e.data@),
                None => r is None,
            },
    {
        match &self.forecast {
            Some(e) => match e.get(now) {
                Some(d) => Some(clone_forecasts(d)),
                None => None,
            },
            None => None,
        }
    }

    /// Replace the spots entry, stamped at `now`, TTL 10 minutes.
    pub fn cache_dx_spots(&mut self, data: Vec<DxSpot>, now: i64)
        requires
            old(self).wf(),
            0 <= now <= MAX_EPOCH_SECONDS,
        ensures
            final(self).dx_spots == Some(
                CacheEntry { data, created_at: now, ttl_seconds: DX_SPOTS_TTL_SECONDS },
            ),
            final(self).space_weather == old(self).space_weather,
            final(self).forecast == old(self).forecast,
            final(self).satellites == old(self).satellites,
            final(self).wf(),
    {
        self.dx_spots = Some(CacheEntry::new(data, DX_SPOTS_TTL_SECONDS, now));
    }

    /// Spots if cached and still valid at `now`.
    pub fn get_dx_spots(&self, now: i64) -> (r: Option<Vec<DxSpot>>)
        requires
            self.wf(),
            0 <= now <= MAX_EPOCH_SECONDS,
        ensures
            match self.dx_spots {
                Some(e) => (r is Some <==> e.spec_is_valid(now)) && (r is Some ==> r.unwrap()@
                    == e.data@),
                None => r is None,
            },
    {
        match &self.dx_spots {
            Some(e) => match e.get(now) {
                Some(d) => Some(clone_dx_spots(d)),
                None => None,
            },
            None => None,
        }
    }

    /// Replace the satellites entry, stamped at `now`, TTL 15 minutes.
    pub fn cache_satellites(&mut self, data: Vec<SatelliteData>, now: i64)
        requires
            old(self).wf(),
            0 <= now <= MAX_EPOCH_SECONDS,
        ensures
            final(self).satellites == Some(
                CacheEntry { data, created_at: now, ttl_seconds: SATELLITES_TTL_SECONDS },
            ),
            final(self).space_weather == old(self).space_weather,
            final(self).forecast == old(self).forecast,
            final(self).dx_spots == old(self).dx_spots,
            final(self).wf(),
    {
        self.satellites = Some(CacheEntry::new(data, SATELLITES_TTL_SECONDS, now));
    }

    /// Satellites if cached and still valid at `now`.
    pub fn get_satellites(&self, now: i64) -> (r: Option<Vec<SatelliteData>>)
        requires
            self.wf(),
            0 <= now <= MAX_EPOCH_SECONDS,
        ensures
            match self.satellites {
                Some(e) => (r is Some <==> e.spec_is_valid(now)) && (r is Some ==> r.unwrap()@
                    == e.data@),
                None => r is None,
            },
    {
        match &self.satellites {
            Some(e) => match e.get(now) {
                Some(d) => Some(clone_satellites(d)),
                None => None,
            },
            None => None,
        }
    }

    /// Explicit invalidation: drop every entry.
    pub fn clear_all(&mut self)
        ensures
            final(self).space_weather is None,
            final(self).forecast is None,
            final(self).dx_spots is None,
            final(self).satellites is None,
            final(self).wf(),
    {
        self.space_weather = None;
        self.forecast = None;
        self.dx_spots = None;
        self.satellites = None;
    }

    /// Which kinds currently hold a valid entry, and how many do.
    pub fn get_stats(&self, now: i64) -> (r: CacheStats)
        requires
            self.wf(),
            0 <= now <= MAX_EPOCH_SECONDS,
        ensures
            r.space_weather_cached == match self.space_weather {
                Some(e) => e.spec_is_valid(now),
                None => false,
            },
            r.forecast_cached == match self.forecast {
                Some(e) => e.spec_is_valid(now),
                None => false,
            },
            r.dx_spots_cached == match self.dx_spots {
                Some(e) => e.spec_is_valid(now),
                None => false,
            },
            r.satellites_cached == match self.satellites {
                Some(e) => e.spec_is_valid(now),
                None => false,
            },
            r.total_cached == (if r.space_weather_cached { 1int } else { 0 }) + (if r.forecast_cached {
                1int
            } else {
                0
            }) + (if r.dx_spots_cached { 1int } else { 0 }) + (if r.satellites_cached {
                1int
            } else {
                0
            }),
    {
        let sw_valid = match &self.space_weather {
            Some(e) => e.is_valid(now),
            None => false,
        };
        let fc_valid = match &self.forecast {
            Some(e) => e.is_valid(now),
            None => false,
        };
        let dx_valid = match &self.dx_spots {
            Some(e) => e.is_valid(now),
            None => false,
        };
        let sat_valid = match &self.satellites {
            Some(e) => e.is_valid(now),
            None => false,
        };
        let mut total: u32 = 0;
        if sw_valid {
            total += 1;
        }
        if fc_valid {
            total += 1;
        }
        if dx_valid {
            total += 1;
        }
        if sat_valid {
            total += 1;
        }
        CacheStats {
            space_weather_cached: sw_valid,
            forecast_cached: fc_valid,
            dx_spots_cached: dx_valid,
            satellites_cached: sat_valid,
            total_cached: total,
        }
    }
}

impl Default for ResponseCache {
    /// An empty cache.
    fn default() -> (r: Self)
        ensures
            r.space_weather is None,
            r.forecast is None,
            r.dx_spots is None,
            r.satellites is None,
    {
        ResponseCache::new()
    }
}

/// Element-wise copy of a forecast list.
fn clone_forecasts(v: &Vec<Forecast>) -> (r: Vec<Forecast>)
    ensures
        r@ == v@,
{
    let mut r: Vec<Forecast> = Vec::new();
    let mut i: usize = 0;
    #[verifier::loop_isolation(false)]
    while i < v.len()
        invariant
            0 <= i <= v@.len(),
            r@ == v@.take(i as int),
        decreases v@.len() - i,
    {
        r.push(v[i].clone());
        proof {
            assert(r@ =~= v@.take(i as int + 1));
        }
        i += 1;
    }
    proof {
        assert(r@ =~= v@);
    }
    r
}

/// Element-wise copy of a spot list.
fn clone_dx_spots(v: &Vec<DxSpot>) -> (r: Vec<DxSpot>)
    ensures
        r@ == v@,
{
    let mut r: Vec<DxSpot> = Vec::new();
    let mut i: usize = 0;
    #[verifier::loop_isolation(false)]
    while i < v.len()
        invariant
            0 <= i <= v@.len(),
            r@ == v@.take(i as int),
        decreases v@.len() - i,
    {
        r.push(v[i].clone());
        proof {
            assert(r@ =~= v@.take(i as int + 1));
        }
        i += 1;
    }
    proof {
        assert(r@ =~= v@);
    }
    r
}

/// Element-wise copy of a satellite list.
fn clone_satellites(v: &Vec<SatelliteData>) -> (r: Vec<SatelliteData>)
    ensures
        r@ == v@,
{
    let mut r: Vec<SatelliteData> = Vec::new();
    let mut i: usize = 0;
    #[verifier::loop_isolation(false)]
    while i < v.len()
        invariant
            0 <= i <= v@.len(),
            r@ == v@.take(i as int),
        decreases v@.len() - i,
    {
        r.push(v[i].clone());
        proof {
            assert(r@ =~= v@.take(i as int + 1));
        }
        i += 1;
    }
    proof {
        assert(r@ =~= v@);
    }
    r
}

} // verus!
