use wedder::condition::{UndefinedCondition, WeatherCondition};
use wedder::formatter::format_status;
use wedder::icons::Icons;
use wedder::location::Location;
use wedder::quantities::{Hpa, Kelvin, Meter, Millimeter, Ms, Percentage};
use wedder::units::{DistanceUnit, PrecipitationUnit, TemperatureUnit, Units, WindSpeedUnit};
use wedder::weather::{Response, Settings, Weather, WeatherSnapshot, WeatherStatus};

fn celsius_units() -> Units {
    Units {
        temperature: TemperatureUnit::Celsius,
        wind_speed: WindSpeedUnit::Kmh,
        distance: DistanceUnit::Kilometer,
        precipitation: PrecipitationUnit::Millimeter,
    }
}

fn no_city() -> Location {
    Location {
        city: None,
        lat: 0,
        lon: 0,
    }
}

fn sample_response() -> Response {
    Response {
        weather: vec![300],
        temp: Kelvin(280320),
        feels_like: None,
        temp_max: Some(Kelvin(281150)),
        temp_min: Some(Kelvin(279150)),
        pressure: Some(Hpa(1012000)),
        humidity: Some(Percentage(81000)),
        wind_speed: Some(Ms(4100)),
        clouds: Some(Percentage(90000)),
        visibility: Some(Meter(10000000)),
        rain_last_hour: None,
        snow_last_hour: None,
        aqi: None,
        sunrise: Some(1572216151),
        sunset: Some(1572251879),
    }
}

#[test]
fn tests_weather() {
    let weather = sample_response();
    assert_eq!(weather.weather_condition(), Ok(WeatherCondition::Rain));
    assert_eq!(weather.temp, Kelvin(280320));
    assert_eq!(weather.temp_max, Some(Kelvin(281150)));
    assert_eq!(weather.temp_min, Some(Kelvin(279150)));
    assert_eq!(weather.pressure, Some(Hpa(1012000)));
    assert_eq!(weather.humidity, Some(Percentage(81000)));
    assert_eq!(weather.wind_speed, Some(Ms(4100)));
    assert_eq!(weather.clouds, Some(Percentage(90000)));
    assert!(weather.precipitation().is_none());
}

#[test]
fn mod_weather() {
    let snapshot = sample_response().to_snapshot().unwrap();
    assert_eq!(snapshot.condition, Some(WeatherCondition::Rain));
    assert_eq!(snapshot.temperature, Some(Kelvin(280320)));
    assert_eq!(snapshot.feels_like, None);
    assert_eq!(snapshot.temp_max, Some(Kelvin(281150)));
    assert_eq!(snapshot.temp_min, Some(Kelvin(279150)));
    assert_eq!(snapshot.pressure, Some(Hpa(1012000)));
    assert_eq!(snapshot.humidity, Some(Percentage(81000)));
    assert_eq!(snapshot.wind_speed, Some(Ms(4100)));
    assert_eq!(snapshot.clouds, Some(Percentage(90000)));
    assert_eq!(snapshot.visibility, Some(Meter(10000000)));
    assert_eq!(snapshot.precipitation, None);
    assert_eq!(snapshot.sunrise, Some(1572216151));
}

#[test]
fn tests_default() {
    let snapshot = sample_response().to_snapshot().unwrap();
    let out = format_status(
        "<icon> <temperature>\u{b0}C",
        &snapshot,
        &no_city(),
        &celsius_units(),
        &Icons::default(),
        None,
        None,
    );
    assert_eq!(out, "\u{e316} 7\u{b0}C");
}

#[test]
fn feels_like_missing_renders_sentinel() {
    let snapshot = sample_response().to_snapshot().unwrap();
    assert_eq!(snapshot.feels_like, None);
    let out = format_status(
        "<temperature_feels_like>",
        &snapshot,
        &no_city(),
        &celsius_units(),
        &Icons::default(),
        None,
        None,
    );
    assert_eq!(out, "N/A");
}

#[test]
fn icon_fallback_to_name() {
    let mut snapshot = WeatherSnapshot::empty();
    snapshot.condition = Some(WeatherCondition::Rain);
    let out = format_status(
        "<icon>",
        &snapshot,
        &no_city(),
        &celsius_units(),
        &Icons::new(vec![]),
        None,
        None,
    );
    assert_eq!(out, "Rain");
}

#[test]
fn unknown_tags_left_untouched() {
    let out = format_status(
        "<nonsense> stays, N/A",
        &WeatherSnapshot::empty(),
        &no_city(),
        &celsius_units(),
        &Icons::default(),
        None,
        None,
    );
    assert_eq!(out, "<nonsense> stays, N/A");
}

#[test]
fn missing_fields_render_sentinel() {
    let out = format_status(
        "<city>: <icon> <temperature> <wind_speed> <visibility> <precipitation>",
        &WeatherSnapshot::empty(),
        &no_city(),
        &celsius_units(),
        &Icons::default(),
        None,
        None,
    );
    assert_eq!(out, "N/A: N/A N/A N/A N/A N/A");
}

#[test]
fn formatting_is_repeatable() {
    let snapshot = sample_response().to_snapshot().unwrap();
    let units = celsius_units();
    let icons = Icons::default();
    let first = format_status("<icon> <temperature>", &snapshot, &no_city(), &units, &icons, None, None);
    let second = format_status("<icon> <temperature>", &snapshot, &no_city(), &units, &icons, None, None);
    assert_eq!(first, second);
}

#[test]
fn sunrise_renders_as_clock_text() {
    let snapshot = sample_response().to_snapshot().unwrap();
    let rendered = wedder::formatter::Formatter::new(
        {
            let mut config = wedder::config::Config::default();
            config.format = wedder::config::Format("<sunrise>".to_string());
            config
        },
        no_city(),
        snapshot,
    )
    .format();
    let chars: Vec<char> = rendered.chars().collect();
    assert_eq!(chars.len(), 5);
    assert!(chars[0].is_ascii_digit());
    assert!(chars[1].is_ascii_digit());
    assert_eq!(chars[2], ':');
    assert!(chars[3].is_ascii_digit());
    assert!(chars[4].is_ascii_digit());
}

#[test]
fn precipitation_combines_rain_and_snow() {
    let mut response = sample_response();
    response.rain_last_hour = Some(Millimeter(74));
    response.snow_last_hour = Some(Millimeter(26));
    assert_eq!(response.precipitation(), Some(Millimeter(100)));
    response.snow_last_hour = None;
    assert_eq!(response.precipitation(), Some(Millimeter(74)));
    response.rain_last_hour = None;
    response.snow_last_hour = Some(Millimeter(26));
    assert_eq!(response.precipitation(), Some(Millimeter(26)));
}

#[test]
fn unclassifiable_response_is_an_error() {
    let mut response = sample_response();
    response.weather = vec![999];
    assert!(matches!(response.to_snapshot(), Err(UndefinedCondition)));
}

#[test]
fn weather_status_line() {
    let status = WeatherStatus::new(WeatherCondition::Rain, 5, "\u{b0}C".to_string());
    assert_eq!(status.to_string(), "\u{e316} 5 \u{b0}C");
}

#[test]
fn weather_format_tags() {
    let weather = Weather::new(WeatherCondition::Mist, Kelvin(274753));
    assert_eq!(
        weather.format(&"<icon> <temperature_celsius>".to_string()),
        "\u{e313} 2"
    );
    assert_eq!(
        weather.format(&"<temperature_fahrenheit>".to_string()),
        "35"
    );
    assert_eq!(weather.format(&"<temperature_kelvin>".to_string()), "275");
}

#[test]
fn settings_holds_its_values() {
    let settings = Settings::new("Montreal".to_string(), 300, "key".to_string());
    assert_eq!(settings.city, "Montreal");
    assert_eq!(settings.interval, 300);
    assert_eq!(settings.weather_api_key, "key");
}
