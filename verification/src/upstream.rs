//! The two upstream services: how each is asked, and what its reply means.
//!
//! Both report success inside the body, by a status of `"1"`; an HTTP success
//! alone says nothing.

use vstd::prelude::*;
use crate::model::{GeoResult, NormalizedWeather, WeatherData, WeatherIpResponse, WeatherReport,
    WeatherResponse};
use crate::text::{join, result_view, same_text};
use crate::transport::{ApiError, TransportError};

verus! {

/// The two steps of a lookup, in the order they are taken.
#[derive(Clone, Copy, Debug, PartialEq, Eq, Structural)]
pub enum Stage {
    /// Placing the caller by network address.
    Location,
    /// Fetching the weather for the region found.
    Weather,
}

/// What a reply's status field says.
#[derive(Clone, Copy, Debug, PartialEq, Eq, Structural)]
pub enum UpstreamStatus {
    Success,
    Rejected,
}

/// The status text by which both services report success.
pub open spec fn success_sentinel() -> Seq<char> {
    "1"@
}

/// Reads a status field: `"1"` is success, anything else a rejection.
pub fn upstream_status(status: &str) -> (read: UpstreamStatus)
    ensures
        read == if status@ == success_sentinel() {
            UpstreamStatus::Success
        } else {
            UpstreamStatus::Rejected
        },
{
    if same_text(status, "1") {
        UpstreamStatus::Success
    } else {
        UpstreamStatus::Rejected
    }
}

/// Address of the location service for a caller with credential `key`.
pub open spec fn location_address(key: Seq<char>) -> Seq<char> {
    "https://restapi.amap.com/v3/ip?key="@ + key
}

/// Address of the weather service for region `adcode` and credential `key`.
pub open spec fn weather_address(adcode: Seq<char>, key: Seq<char>) -> Seq<char> {
    "https://restapi.amap.com/v3/weather/weatherInfo?city="@ + adcode + "&key="@ + key
}

/// The URL to GET for the caller's location. `key` is put in as it is given.
pub fn location_url(key: &str) -> (url: String)
    ensures
        url@ == location_address(key@),
{
    join("https://restapi.amap.com/v3/ip?key=", key)
}

/// The URL to GET for the weather of region `adcode`. Both parts are put in as
/// they are given.
pub fn weather_url(adcode: &str, key: &str) -> (url: String)
    ensures
        url@ == weather_address(adcode@, key@),
{
    let city = join("https://restapi.amap.com/v3/weather/weatherInfo?city=", adcode);
    let keyed = join(city.as_str(), "&key=");
    join(keyed.as_str(), key)
}

/// Model of [`OrchestrationError`].
pub enum OrchestrationFailure {
    Transport(TransportError),
    UpstreamRejected(Seq<char>),
    MissingField(Seq<char>),
    EmptyResult,
}

/// Why one step of a lookup gave nothing to go on with.
#[derive(Debug, PartialEq, Eq)]
pub enum OrchestrationError {
    /// The request itself failed.
    Transport(ApiError),
    /// The service answered and refused; holds the reason it gave.
    UpstreamRejected(String),
    /// The service reported success and left out the named field.
    MissingField(String),
    /// The weather service reported success with no observation at all.
    EmptyResult,
}

impl View for OrchestrationError {
    type V = OrchestrationFailure;

    open spec fn view(&self) -> OrchestrationFailure {
        match self {
            OrchestrationError::Transport(error) => OrchestrationFailure::Transport(error@),
            OrchestrationError::UpstreamRejected(info) => OrchestrationFailure::UpstreamRejected(
                info@,
            ),
            OrchestrationError::MissingField(name) => OrchestrationFailure::MissingField(name@),
            OrchestrationError::EmptyResult => OrchestrationFailure::EmptyResult,
        }
    }
}

impl OrchestrationFailure {
    /// The failure in words, for the step `stage` at which it happened.
    pub open spec fn message(self, stage: Stage) -> Seq<char> {
        match self {
            OrchestrationFailure::Transport(error) => request_failed_text(stage)
                + error.rendered(),
            OrchestrationFailure::UpstreamRejected(info) => rejected_text(stage) + info,
            OrchestrationFailure::MissingField(_) => missing_region_code_text(),
            OrchestrationFailure::EmptyResult => empty_result_text(),
        }
    }
}

/// What a message starts with when the request of `stage` itself failed:
/// "locating by IP failed" and "fetching the weather failed".
pub open spec fn request_failed_text(stage: Stage) -> Seq<char> {
    match stage {
        Stage::Location => "IP定位失败: "@,
        Stage::Weather => "获取天气数据失败: "@,
    }
}

/// What a message starts with when the service of `stage` refused: "the IP
/// location API returned an error" and "the weather API returned an error".
pub open spec fn rejected_text(stage: Stage) -> Seq<char> {
    match stage {
        Stage::Location => "IP定位API返回错误: "@,
        Stage::Weather => "天气API返回错误: "@,
    }
}

/// The message for a location reply without a region code: "region code not
/// found".
pub open spec fn missing_region_code_text() -> Seq<char> {
    "未找到地区编码"@
}

/// The message for a weather reply without observations: "weather data not
/// found".
pub open spec fn empty_result_text() -> Seq<char> {
    "未找到天气数据"@
}

impl OrchestrationError {
    /// The error in words, for the step `stage` at which it happened.
    pub fn message(&self, stage: Stage) -> (text: String)
        ensures
            text@ == self@.message(stage),
    {
        match self {
            OrchestrationError::Transport(error) => {
                let shown = error.describe();
                match stage {
                    Stage::Location => join("IP定位失败: ", shown.as_str()),
                    Stage::Weather => join("获取天气数据失败: ", shown.as_str()),
                }
            },
            OrchestrationError::UpstreamRejected(info) => {
                match stage {
                    Stage::Location => join("IP定位API返回错误: ", info.as_str()),
                    Stage::Weather => join("天气API返回错误: ", info.as_str()),
                }
            },
            OrchestrationError::MissingField(_) => "未找到地区编码".to_owned(),
            OrchestrationError::EmptyResult => "未找到天气数据".to_owned(),
        }
    }
}

/// Name under which a missing region code is reported.
pub open spec fn region_code_field() -> Seq<char> {
    "region-code"@
}

/// What a location reply means: the reply itself if the service reported
/// success and gave a region code, and otherwise the first thing wrong with it.
pub open spec fn location_meaning(reply: Result<GeoResult, TransportError>) -> Result<
    GeoResult,
    OrchestrationFailure,
> {
    match reply {
        Err(error) => Err(OrchestrationFailure::Transport(error)),
        Ok(geo) => if geo.status != success_sentinel() {
            Err(OrchestrationFailure::UpstreamRejected(geo.info))
        } else if geo.adcode is None {
            Err(OrchestrationFailure::MissingField(region_code_field()))
        } else {
            Ok(geo)
        },
    }
}

/// What a weather reply means: the first observation, normalized, if the
/// service reported success and gave at least one; otherwise the first thing
/// wrong with it. Observations after the first are not looked at.
pub open spec fn weather_meaning(reply: Result<WeatherReport, TransportError>) -> Result<
    NormalizedWeather,
    OrchestrationFailure,
> {
    match reply {
        Err(error) => Err(OrchestrationFailure::Transport(error)),
        Ok(report) => if report.status != success_sentinel() {
            Err(OrchestrationFailure::UpstreamRejected(report.info))
        } else if report.lives.len() == 0 {
            Err(OrchestrationFailure::EmptyResult)
        } else {
            Ok(report.lives[0].normalized())
        },
    }
}

/// Only the first observation counts: two successful replies that agree in
/// their first observation mean the same weather, whatever follows it.
pub proof fn lemma_only_first_observation_counts(one: WeatherReport, other: WeatherReport)
    requires
        one.status == success_sentinel(),
        other.status == success_sentinel(),
        one.lives.len() > 0,
        other.lives.len() > 0,
        one.lives[0] == other.lives[0],
    ensures
        weather_meaning(Ok(one)) == weather_meaning(Ok(other)),
        weather_meaning(Ok(one)) == Ok::<NormalizedWeather, OrchestrationFailure>(
            one.lives[0].normalized(),
        ),
{
}

/// Validates the outcome of the location request. A reply that passes is
/// handed back unchanged, and then holds a region code.
pub fn resolve_location(reply: Result<WeatherIpResponse, ApiError>) -> (resolved: Result<
    WeatherIpResponse,
    OrchestrationError,
>)
    ensures
        result_view(resolved) == location_meaning(result_view(reply)),
        resolved matches Ok(geo) ==> (reply == Ok::<WeatherIpResponse, ApiError>(geo)
            && geo.adcode is Some),
{
    match reply {
        Err(error) => Err(OrchestrationError::Transport(error)),
        Ok(geo) => {
            match upstream_status(geo.status.as_str()) {
                UpstreamStatus::Rejected => Err(OrchestrationError::UpstreamRejected(geo.info)),
                UpstreamStatus::Success => {
                    if geo.adcode.is_none() {
                        Err(OrchestrationError::MissingField("region-code".to_owned()))
                    } else {
                        Ok(geo)
                    }
                },
            }
        },
    }
}

/// Validates the outcome of the weather request and keeps the caller-visible
/// part of its first observation. Success with no observation is
/// [`OrchestrationError::EmptyResult`], never an empty value.
pub fn resolve_weather(reply: Result<WeatherResponse, ApiError>) -> (resolved: Result<
    WeatherData,
    OrchestrationError,
>)
    ensures
        result_view(resolved) == weather_meaning(result_view(reply)),
        (reply matches Ok(report) && report@.status == success_sentinel()
            && report@.lives.len() == 0) ==> (resolved matches Err(error)
            && error@ == OrchestrationFailure::EmptyResult),
{
    match reply {
        Err(error) => Err(OrchestrationError::Transport(error)),
        Ok(report) => {
            match upstream_status(report.status.as_str()) {
                UpstreamStatus::Rejected => Err(OrchestrationError::UpstreamRejected(report.info)),
                UpstreamStatus::Success => {
                    if report.lives.len() == 0 {
                        Err(OrchestrationError::EmptyResult)
                    } else {
                        Ok(WeatherData::from_live(&report.lives[0]))
                    }
                },
            }
        },
    }
}

} // verus!
