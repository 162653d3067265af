use wedder::config::{CliArgs, Config, Format, Interval, WeatherProvider};
use wedder::location::{Location, LocationProvider};
use wedder::units::{DistanceUnit, PrecipitationUnit, TemperatureUnit, WindSpeedUnit};

fn full_args() -> CliArgs {
    CliArgs {
        debug: false,
        default_config_path: false,
        config_file: None,
        format: Some(Format("format".to_string())),
        interval: Some(Interval(123)),
        temperature_unit: Some(TemperatureUnit::Kelvin),
        wind_speed_unit: Some(WindSpeedUnit::Ms),
        distance_unit: Some(DistanceUnit::Mile),
        precipitation_unit: Some(PrecipitationUnit::Inch),
        weather_provider: Some(WeatherProvider::OpenWeatherMap),
        weather_api_key: Some("key".to_string()),
        location_provider: Some(LocationProvider::Manual),
        lat: Some(10000000),
        lon: Some(10000000),
    }
}

#[test]
fn merge() {
    let args = full_args();
    let mut config = Config::default();
    config.merge(args.clone());

    assert_eq!(config.format, args.format.unwrap());
    assert_eq!(config.interval, args.interval.unwrap());
    assert_eq!(config.units.temperature, TemperatureUnit::Kelvin);
    assert_eq!(config.units.wind_speed, WindSpeedUnit::Ms);
    assert_eq!(config.units.distance, DistanceUnit::Mile);
    assert_eq!(config.units.precipitation, PrecipitationUnit::Inch);
    assert_eq!(config.weather.provider, args.weather_provider.unwrap());
    assert_eq!(config.weather.api_key, args.weather_api_key.unwrap());
    assert_eq!(config.location.provider, args.location_provider.unwrap());
    assert_eq!(config.location.location.lat, args.lat.unwrap());
    assert_eq!(config.location.location.lon, args.lon.unwrap());
}

#[test]
fn merge_keeps_unset_fields() {
    let mut args = full_args();
    args.format = None;
    args.interval = None;
    args.weather_api_key = None;
    let mut config = Config::default();
    config.merge(args);

    assert_eq!(config.format, Format::default());
    assert_eq!(config.interval, Interval(300));
    assert_eq!(config.weather.api_key, "");
    assert_eq!(config.units.temperature, TemperatureUnit::Kelvin);
}

#[test]
fn config_defaults() {
    let config = Config::default();
    assert_eq!(config.format.0, "<icon> <temperature>\u{b0}C");
    assert_eq!(config.interval, Interval(300));
    assert_eq!(config.units.temperature, TemperatureUnit::Celsius);
    assert_eq!(config.units.wind_speed, WindSpeedUnit::Kmh);
    assert_eq!(config.units.distance, DistanceUnit::Kilometer);
    assert_eq!(config.units.precipitation, PrecipitationUnit::Millimeter);
    assert_eq!(config.weather.provider, WeatherProvider::OpenWeatherMap);
    assert_eq!(config.weather.api_key, "");
    assert_eq!(config.location.provider, LocationProvider::IpApi);
}

#[test]
fn location_equality_by_coordinates() {
    let a = Location {
        city: Some("Montreal".to_string()),
        lat: 455808000,
        lon: -735825000,
    };
    let b = Location {
        city: Some("Montreal".to_string()),
        lat: 455808000,
        lon: -735825000,
    };
    let c = Location {
        city: Some("Montreal".to_string()),
        lat: 455808001,
        lon: -735825000,
    };
    assert!(a == b);
    assert!(a != c);
    let d = Location {
        city: None,
        lat: 455808000,
        lon: -735825000,
    };
    assert!(a != d);
}
