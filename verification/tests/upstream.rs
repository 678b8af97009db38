use ip_weather::model::{WeatherData, WeatherIpResponse, WeatherLive, WeatherResponse};
use ip_weather::transport::ApiError;
use ip_weather::upstream::{
    location_url, resolve_location, resolve_weather, upstream_status, weather_url,
    OrchestrationError, Stage, UpstreamStatus,
};

fn geo(status: &str, info: &str, adcode: Option<&str>) -> WeatherIpResponse {
    WeatherIpResponse {
        status: status.to_string(),
        info: info.to_string(),
        infocode: "10000".to_string(),
        province: Some("Beijing".to_string()),
        city: Some("Beijing".to_string()),
        adcode: adcode.map(|code| code.to_string()),
        rectangle: None,
    }
}

fn live(city: &str, weather: &str, temperature: &str) -> WeatherLive {
    WeatherLive {
        province: "Beijing".to_string(),
        city: city.to_string(),
        adcode: "110101".to_string(),
        weather: weather.to_string(),
        temperature: temperature.to_string(),
        winddirection: "North".to_string(),
        windpower: "3".to_string(),
        humidity: "40".to_string(),
        reporttime: "2024-01-01 12:00:00".to_string(),
        temperature_float: "22.0".to_string(),
        humidity_float: "40.0".to_string(),
    }
}

fn report(status: &str, info: &str, lives: Vec<WeatherLive>) -> WeatherResponse {
    WeatherResponse {
        status: status.to_string(),
        info: info.to_string(),
        infocode: "10000".to_string(),
        count: lives.len().to_string(),
        lives,
    }
}

#[test]
fn location_url_carries_the_key() {
    assert_eq!(location_url("abc123"), "https://restapi.amap.com/v3/ip?key=abc123");
    assert_eq!(location_url(""), "https://restapi.amap.com/v3/ip?key=");
}

#[test]
fn weather_url_carries_region_and_key() {
    assert_eq!(
        weather_url("110101", "abc123"),
        "https://restapi.amap.com/v3/weather/weatherInfo?city=110101&key=abc123"
    );
    assert_eq!(
        weather_url("", ""),
        "https://restapi.amap.com/v3/weather/weatherInfo?city=&key="
    );
}

#[test]
fn urls_take_their_parts_as_given() {
    assert_eq!(location_url("a b&c"), "https://restapi.amap.com/v3/ip?key=a b&c");
    assert_eq!(
        weather_url("1 1", "k=v"),
        "https://restapi.amap.com/v3/weather/weatherInfo?city=1 1&key=k=v"
    );
}

#[test]
fn only_one_is_the_success_status() {
    assert_eq!(upstream_status("1"), UpstreamStatus::Success);
    assert_eq!(upstream_status("0"), UpstreamStatus::Rejected);
    assert_eq!(upstream_status(""), UpstreamStatus::Rejected);
    assert_eq!(upstream_status("11"), UpstreamStatus::Rejected);
    assert_eq!(upstream_status(" 1"), UpstreamStatus::Rejected);
    assert_eq!(upstream_status("01"), UpstreamStatus::Rejected);
}

#[test]
fn accepted_location_is_handed_back_unchanged() {
    let resolved = resolve_location(Ok(geo("1", "OK", Some("110101"))));
    assert_eq!(resolved, Ok(geo("1", "OK", Some("110101"))));
}

#[test]
fn rejected_location_gives_the_reason() {
    let resolved = resolve_location(Ok(geo("0", "INVALID_USER_KEY", None)));
    assert_eq!(
        resolved,
        Err(OrchestrationError::UpstreamRejected("INVALID_USER_KEY".to_string()))
    );
}

#[test]
fn rejection_is_found_before_a_missing_region_code() {
    let resolved = resolve_location(Ok(geo("0", "DAILY_QUERY_OVER_LIMIT", Some("110101"))));
    assert_eq!(
        resolved,
        Err(OrchestrationError::UpstreamRejected("DAILY_QUERY_OVER_LIMIT".to_string()))
    );
}

#[test]
fn location_without_region_code_is_a_missing_field() {
    let resolved = resolve_location(Ok(geo("1", "OK", None)));
    assert_eq!(resolved, Err(OrchestrationError::MissingField("region-code".to_string())));
}

#[test]
fn location_with_empty_region_code_is_accepted() {
    let resolved = resolve_location(Ok(geo("1", "OK", Some(""))));
    assert_eq!(resolved, Ok(geo("1", "OK", Some(""))));
}

#[test]
fn failed_location_request_is_passed_on() {
    let resolved = resolve_location(Err(ApiError::Timeout));
    assert_eq!(resolved, Err(OrchestrationError::Transport(ApiError::Timeout)));
    let refused = resolve_location(Err(ApiError::NetworkError("dns".to_string())));
    assert_eq!(
        refused,
        Err(OrchestrationError::Transport(ApiError::NetworkError("dns".to_string())))
    );
}

#[test]
fn weather_is_the_first_observation() {
    let resolved = resolve_weather(Ok(report("1", "OK", vec![live("Beijing", "Sunny", "22")])));
    assert_eq!(
        resolved,
        Ok(WeatherData {
            province: "Beijing".to_string(),
            city: "Beijing".to_string(),
            weather: "Sunny".to_string(),
            temperature: "22".to_string(),
            humidity: "40".to_string(),
            update_time: "2024-01-01 12:00:00".to_string(),
        })
    );
}

#[test]
fn observations_after_the_first_are_ignored() {
    let resolved = resolve_weather(Ok(report(
        "1",
        "OK",
        vec![live("Dongcheng", "Cloudy", "18"), live("Xicheng", "Rain", "12")],
    )));
    assert_eq!(resolved, Ok(WeatherData::from_live(&live("Dongcheng", "Cloudy", "18"))));
}

#[test]
fn from_live_keeps_the_report_time_as_given() {
    let mut observation = live("Beijing", "Sunny", "22");
    observation.reporttime = "not a time".to_string();
    let data = WeatherData::from_live(&observation);
    assert_eq!(data.update_time, "not a time");
    assert_eq!(data.province, "Beijing");
    assert_eq!(data.city, "Beijing");
    assert_eq!(data.weather, "Sunny");
    assert_eq!(data.temperature, "22");
    assert_eq!(data.humidity, "40");
}

#[test]
fn success_without_observations_is_an_empty_result() {
    let resolved = resolve_weather(Ok(report("1", "OK", vec![])));
    assert_eq!(resolved, Err(OrchestrationError::EmptyResult));
}

#[test]
fn rejected_weather_gives_the_reason() {
    let resolved = resolve_weather(Ok(report("0", "INVALID_PARAMS", vec![])));
    assert_eq!(resolved, Err(OrchestrationError::UpstreamRejected("INVALID_PARAMS".to_string())));
}

#[test]
fn rejected_weather_with_observations_is_still_rejected() {
    let resolved =
        resolve_weather(Ok(report("0", "INVALID_PARAMS", vec![live("Beijing", "Sunny", "22")])));
    assert_eq!(resolved, Err(OrchestrationError::UpstreamRejected("INVALID_PARAMS".to_string())));
}

#[test]
fn failed_weather_request_is_passed_on() {
    let resolved = resolve_weather(Err(ApiError::InvalidResponse("eof".to_string())));
    assert_eq!(
        resolved,
        Err(OrchestrationError::Transport(ApiError::InvalidResponse("eof".to_string())))
    );
}

#[test]
fn clones_equal_what_they_copy() {
    let observation = live("Beijing", "Sunny", "22");
    assert_eq!(observation.clone(), observation);
    let data = WeatherData::from_live(&observation);
    assert_eq!(data.clone(), data);
}

#[test]
fn transport_failure_messages() {
    let error = OrchestrationError::Transport(ApiError::Timeout);
    assert_eq!(error.message(Stage::Location), "IP定位失败: Timeout");
    assert_eq!(error.message(Stage::Weather), "获取天气数据失败: Timeout");
    let undecodable = OrchestrationError::Transport(ApiError::InvalidResponse("eof".to_string()));
    assert_eq!(undecodable.message(Stage::Location), "IP定位失败: InvalidResponse(\"eof\")");
    let unreachable = OrchestrationError::Transport(ApiError::NetworkError("dns".to_string()));
    assert_eq!(unreachable.message(Stage::Weather), "获取天气数据失败: NetworkError(dns)");
}

#[test]
fn rejection_messages() {
    let error = OrchestrationError::UpstreamRejected("INVALID_USER_KEY".to_string());
    assert_eq!(error.message(Stage::Location), "IP定位API返回错误: INVALID_USER_KEY");
    assert_eq!(error.message(Stage::Weather), "天气API返回错误: INVALID_USER_KEY");
}

#[test]
fn missing_field_and_empty_result_messages() {
    let missing = OrchestrationError::MissingField("region-code".to_string());
    assert_eq!(missing.message(Stage::Location), "未找到地区编码");
    assert_eq!(OrchestrationError::EmptyResult.message(Stage::Weather), "未找到天气数据");
}
