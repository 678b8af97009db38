//! The shapes of the two upstream replies and of the weather handed to callers,
//! each with its mathematical model.

use vstd::prelude::*;
use crate::text::optional_text;

verus! {

/// Model of [`WeatherIpResponse`]: what the location service said.
pub struct GeoResult {
    pub status: Seq<char>,
    pub info: Seq<char>,
    pub infocode: Seq<char>,
    pub province: Option<Seq<char>>,
    pub city: Option<Seq<char>>,
    pub adcode: Option<Seq<char>>,
    pub rectangle: Option<Seq<char>>,
}

/// Model of [`WeatherLive`]: one observation as the weather service reports it.
pub struct WeatherObservation {
    pub province: Seq<char>,
    pub city: Seq<char>,
    pub adcode: Seq<char>,
    pub weather: Seq<char>,
    pub temperature: Seq<char>,
    pub winddirection: Seq<char>,
    pub windpower: Seq<char>,
    pub humidity: Seq<char>,
    pub reporttime: Seq<char>,
    pub temperature_float: Seq<char>,
    pub humidity_float: Seq<char>,
}

/// Model of [`WeatherResponse`]: what the weather service said.
pub struct WeatherReport {
    pub status: Seq<char>,
    pub info: Seq<char>,
    pub infocode: Seq<char>,
    pub count: Seq<char>,
    pub lives: Seq<WeatherObservation>,
}

/// Model of [`WeatherData`]: the weather as callers see it.
pub struct NormalizedWeather {
    pub province: Seq<char>,
    pub city: Seq<char>,
    pub weather: Seq<char>,
    pub temperature: Seq<char>,
    pub humidity: Seq<char>,
    pub update_time: Seq<char>,
}

impl WeatherObservation {
    /// The part of an observation that callers see. The report time is kept as
    /// the service gave it.
    pub open spec fn normalized(self) -> NormalizedWeather {
        NormalizedWeather {
            province: self.province,
            city: self.city,
            weather: self.weather,
            temperature: self.temperature,
            humidity: self.humidity,
            update_time: self.reporttime,
        }
    }
}

/// Reply of the location service, which places the caller by network address.
/// The region code (`adcode`) is what the weather lookup is keyed by.
#[derive(Debug, PartialEq, Eq)]
pub struct WeatherIpResponse {
    pub status: String,
    pub info: String,
    pub infocode: String,
    pub province: Option<String>,
    pub city: Option<String>,
    pub adcode: Option<String>,
    pub rectangle: Option<String>,
}

impl View for WeatherIpResponse {
    type V = GeoResult;

    open spec fn view(&self) -> GeoResult {
        GeoResult {
            status: self.status@,
            info: self.info@,
            infocode: self.infocode@,
            province: optional_text(self.province),
            city: optional_text(self.city),
            adcode: optional_text(self.adcode),
            rectangle: optional_text(self.rectangle),
        }
    }
}

/// One live observation in a reply of the weather service.
#[derive(Debug, PartialEq, Eq)]
pub struct WeatherLive {
    pub province: String,
    pub city: String,
    pub adcode: String,
    pub weather: String,
    pub temperature: String,
    pub winddirection: String,
    pub windpower: String,
    pub humidity: String,
    pub reporttime: String,
    pub temperature_float: String,
    pub humidity_float: String,
}

impl View for WeatherLive {
    type V = WeatherObservation;

    open spec fn view(&self) -> WeatherObservation {
        WeatherObservation {
            province: self.province@,
            city: self.city@,
            adcode: self.adcode@,
            weather: self.weather@,
            temperature: self.temperature@,
            winddirection: self.winddirection@,
            windpower: self.windpower@,
            humidity: self.humidity@,
            reporttime: self.reporttime@,
            temperature_float: self.temperature_float@,
            humidity_float: self.humidity_float@,
        }
    }
}

impl Clone for WeatherLive {
    fn clone(&self) -> (copy: Self)
        ensures
            copy == *self,
    {
        WeatherLive {
            province: self.province.clone(),
            city: self.city.clone(),
            adcode: self.adcode.clone(),
            weather: self.weather.clone(),
            temperature: self.temperature.clone(),
            winddirection: self.winddirection.clone(),
            windpower: self.windpower.clone(),
            humidity: self.humidity.clone(),
            reporttime: self.reporttime.clone(),
            temperature_float: self.temperature_float.clone(),
            humidity_float: self.humidity_float.clone(),
        }
    }
}

/// Reply of the weather service for one region code. `lives` may be empty even
/// when `status` reports success.
#[derive(Debug, PartialEq, Eq)]
pub struct WeatherResponse {
    pub status: String,
    pub info: String,
    pub infocode: String,
    pub count: String,
    pub lives: Vec<WeatherLive>,
}

impl View for WeatherResponse {
    type V = WeatherReport;

    open spec fn view(&self) -> WeatherReport {
        WeatherReport {
            status: self.status@,
            info: self.info@,
            infocode: self.infocode@,
            count: self.count@,
            lives: self.lives@.map_values(|live: WeatherLive| live@),
        }
    }
}

/// The weather handed to callers, and what the cache holds.
#[derive(Debug, PartialEq, Eq)]
pub struct WeatherData {
    pub province: String,
    pub city: String,
    pub weather: String,
    pub temperature: String,
    pub humidity: String,
    pub update_time: String,
}

impl View for WeatherData {
    type V = NormalizedWeather;

    open spec fn view(&self) -> NormalizedWeather {
        NormalizedWeather {
            province: self.province@,
            city: self.city@,
            weather: self.weather@,
            temperature: self.temperature@,
            humidity: self.humidity@,
            update_time: self.update_time@,
        }
    }
}

impl Clone for WeatherData {
    fn clone(&self) -> (copy: Self)
        ensures
            copy == *self,
    {
        WeatherData {
            province: self.province.clone(),
            city: self.city.clone(),
            weather: self.weather.clone(),
            temperature: self.temperature.clone(),
            humidity: self.humidity.clone(),
            update_time: self.update_time.clone(),
        }
    }
}

impl WeatherData {
    /// The caller-visible part of one observation.
    pub fn from_live(live: &WeatherLive) -> (data: WeatherData)
        ensures
            data@ == live@.normalized(),
    {
        WeatherData {
            province: live.province.clone(),
            city: live.city.clone(),
            weather: live.weather.clone(),
            temperature: live.temperature.clone(),
            humidity: live.humidity.clone(),
            update_time: live.reporttime.clone(),
        }
    }
}

/// View of an optional weather value.
pub open spec fn optional_weather(value: Option<WeatherData>) -> Option<NormalizedWeather> {
    match value {
        Some(data) => Some(data@),
        None => None,
    }
}

} // verus!
