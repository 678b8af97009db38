use ip_weather::cache::{WeatherCache, CACHE_DURATION_NANOS};
use ip_weather::model::WeatherData;

fn sample(city: &str, temperature: &str) -> WeatherData {
    WeatherData {
        province: "Beijing".to_string(),
        city: city.to_string(),
        weather: "Sunny".to_string(),
        temperature: temperature.to_string(),
        humidity: "40".to_string(),
        update_time: "2024-01-01 12:00:00".to_string(),
    }
}

#[test]
fn cache_duration_is_thirty_minutes() {
    assert_eq!(CACHE_DURATION_NANOS, 1_800_000_000_000u64);
}

#[test]
fn new_cache_serves_nothing() {
    let cache = WeatherCache::new();
    assert_eq!(cache.read(0), None);
    assert_eq!(cache.read(u64::MAX), None);
}

#[test]
fn read_within_duration_returns_written_value() {
    let mut cache = WeatherCache::new();
    let t1: u64 = 5_000;
    cache.write(sample("Beijing", "22"), t1);
    assert_eq!(cache.read(t1 + 1), Some(sample("Beijing", "22")));
    assert_eq!(cache.read(t1 + 900_000_000_000), Some(sample("Beijing", "22")));
    assert_eq!(cache.read(t1 + CACHE_DURATION_NANOS - 1), Some(sample("Beijing", "22")));
}

#[test]
fn read_at_the_moment_of_writing_hits() {
    let mut cache = WeatherCache::new();
    cache.write(sample("Beijing", "22"), 77);
    assert_eq!(cache.read(77), Some(sample("Beijing", "22")));
}

#[test]
fn read_at_exactly_the_duration_misses() {
    let mut cache = WeatherCache::new();
    let t1: u64 = 5_000;
    cache.write(sample("Beijing", "22"), t1);
    assert_eq!(cache.read(t1 + CACHE_DURATION_NANOS), None);
}

#[test]
fn read_after_duration_misses() {
    let mut cache = WeatherCache::new();
    let t1: u64 = 5_000;
    cache.write(sample("Beijing", "22"), t1);
    assert_eq!(cache.read(t1 + CACHE_DURATION_NANOS + 1), None);
    assert_eq!(cache.read(u64::MAX), None);
}

#[test]
fn clock_reading_before_the_write_counts_as_fresh() {
    let mut cache = WeatherCache::new();
    cache.write(sample("Beijing", "22"), 10_000_000_000_000);
    assert_eq!(cache.read(3), Some(sample("Beijing", "22")));
}

#[test]
fn write_at_the_largest_clock_reading_is_served() {
    let mut cache = WeatherCache::new();
    cache.write(sample("Beijing", "22"), u64::MAX);
    assert_eq!(cache.read(u64::MAX), Some(sample("Beijing", "22")));
    assert_eq!(cache.read(0), Some(sample("Beijing", "22")));
}

#[test]
fn stale_read_leaves_the_entry_in_place() {
    let mut cache = WeatherCache::new();
    let t1: u64 = 1_000;
    cache.write(sample("Beijing", "22"), t1);
    let before = cache.read(t1 + 10);
    assert_eq!(cache.read(t1 + CACHE_DURATION_NANOS + 5), None);
    assert_eq!(cache.read(t1 + 10), before);
    assert_eq!(cache.read(t1 + 10), Some(sample("Beijing", "22")));
}

#[test]
fn write_replaces_the_whole_entry() {
    let mut cache = WeatherCache::new();
    cache.write(sample("Beijing", "22"), 1_000);
    let t2: u64 = 1_000 + CACHE_DURATION_NANOS + 1;
    cache.write(sample("Shanghai", "25"), t2);
    assert_eq!(cache.read(t2), Some(sample("Shanghai", "25")));
    assert_eq!(cache.read(t2 + CACHE_DURATION_NANOS - 1), Some(sample("Shanghai", "25")));
    assert_eq!(cache.read(t2 + CACHE_DURATION_NANOS), None);
}

#[test]
fn reading_twice_gives_the_same_value() {
    let mut cache = WeatherCache::new();
    cache.write(sample("Beijing", "22"), 0);
    assert_eq!(cache.read(5), cache.read(6));
}
