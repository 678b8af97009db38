//! Weather for the caller's own location: the location is resolved from the
//! caller's network address, the current weather is looked up for it, and the
//! result is served from a single cache slot until it expires.
//!
//! The library decides; it performs no I/O. A caller drives one lookup by
//! feeding [`weather::get_weather`] the outcome of each request it asked for.

pub mod cache;
pub mod model;
pub mod text;
pub mod transport;
pub mod upstream;
pub mod weather;

