//! A single slot that keeps the last weather fetched and the time it was
//! fetched at, and serves it for half an hour.
//!
//! Time is a reading of a monotonic clock in nanoseconds, which the caller
//! supplies. Reading never changes the slot: an expired value stays until the
//! next write replaces it.

use vstd::prelude::*;
use crate::model::{optional_weather, NormalizedWeather, WeatherData};

verus! {

/// How long a cached value is served: thirty minutes, in nanoseconds.
pub const CACHE_DURATION_NANOS: u64 = 30 * 60 * 1_000_000_000;

/// Model of [`CacheEntry`]: a value and the clock reading it was stored at.
pub struct Captured {
    pub value: NormalizedWeather,
    pub captured_at: nat,
}

/// Whether a value stored at `captured_at` may still be served at `now`: less
/// than the cache duration has passed. A clock that reads earlier than the
/// time of storing counts as no time passed.
pub open spec fn is_fresh(captured_at: int, now: int) -> bool {
    now - captured_at < CACHE_DURATION_NANOS
}

/// What a read of `slot` at `now` gives.
pub open spec fn read_at(slot: Option<Captured>, now: int) -> Option<NormalizedWeather> {
    match slot {
        Some(entry) => if is_fresh(entry.captured_at as int, now) {
            Some(entry.value)
        } else {
            None
        },
        None => None,
    }
}

/// The slot after `value` was written at `now`, whatever it held before.
pub open spec fn written(value: NormalizedWeather, now: nat) -> Option<Captured> {
    Some(Captured { value, captured_at: now })
}

/// A cached value with the clock reading it was stored at.
#[derive(Debug, PartialEq, Eq)]
pub struct CacheEntry {
    value: WeatherData,
    captured_at: u64,
}

impl View for CacheEntry {
    type V = Captured;

    closed spec fn view(&self) -> Captured {
        Captured { value: self.value@, captured_at: self.captured_at as nat }
    }
}

/// The cache: one slot, empty until the first write.
#[derive(Debug, PartialEq, Eq)]
pub struct WeatherCache {
    slot: Option<CacheEntry>,
}

impl View for WeatherCache {
    type V = Option<Captured>;

    closed spec fn view(&self) -> Option<Captured> {
        match self.slot {
            Some(entry) => Some(entry@),
            None => None,
        }
    }
}

impl WeatherCache {
    /// An empty cache.
    pub fn new() -> (cache: WeatherCache)
        ensures
            cache@ is None,
    {
        WeatherCache { slot: None }
    }

    /// The cached value, if there is one and it is still fresh at `now`.
    pub fn read(&self, now: u64) -> (hit: Option<WeatherData>)
        ensures
            optional_weather(hit) == read_at(self@, now as int),
    {
        match &self.slot {
            Some(entry) => {
                if now <= entry.captured_at || now - entry.captured_at < CACHE_DURATION_NANOS {
                    Some(entry.value.clone())
                } else {
                    None
                }
            },
            None => None,
        }
    }

    /// Replaces the slot with `value`, stored at `now`.
    pub fn write(&mut self, value: WeatherData, now: u64)
        ensures
            final(self)@ == written(value@, now as nat),
    {
        self.slot = Some(CacheEntry { value, captured_at: now });
    }
}

/// A value written at `t1` is read back unchanged at any later `t2` that is
/// less than the cache duration after `t1`.
pub proof fn lemma_read_within_duration_hits(value: NormalizedWeather, t1: nat, t2: nat)
    requires
        t1 < t2,
        t2 - t1 < CACHE_DURATION_NANOS,
    ensures
        read_at(written(value, t1), t2 as int) == Some(value),
{
}

/// A value written at `t1` is not served at `t2` once the cache duration or
/// more has passed since `t1`.
pub proof fn lemma_read_after_duration_misses(value: NormalizedWeather, t1: nat, t2: nat)
    requires
        t2 - t1 >= CACHE_DURATION_NANOS,
    ensures
        read_at(written(value, t1), t2 as int) is None,
{
}

} // verus!
