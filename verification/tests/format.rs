use wedder::config::Config;
use wedder::condition::WeatherCondition;
use wedder::formatter::{format_status, Formatter};
use wedder::icons::Icons;
use wedder::location::Location;
use wedder::quantities::{Aqi, Hpa, Kelvin, Meter, Millimeter, Ms, Percentage, Uvi};
use wedder::units::{DistanceUnit, PrecipitationUnit, TemperatureUnit, Units, WindSpeedUnit};
use wedder::weather::WeatherSnapshot;

fn sample_location() -> Location {
    Location {
        city: Some("Montreal".to_string()),
        lat: 455808000,
        lon: -735825000,
    }
}

fn sample_snapshot() -> WeatherSnapshot {
    WeatherSnapshot {
        condition: Some(WeatherCondition::Mist),
        temperature: Some(Kelvin(274753)),
        feels_like: Some(Kelvin(270456)),
        temp_max: Some(Kelvin(279471)),
        temp_min: Some(Kelvin(273159)),
        dew_point: Some(Kelvin(274300)),
        precipitation: Some(Millimeter(74)),
        precipitation_chance: Some(Percentage(20000)),
        clouds: Some(Percentage(90000)),
        humidity: Some(Percentage(97000)),
        visibility: Some(Meter(6437000)),
        wind_speed: Some(Ms(3600)),
        pressure: Some(Hpa(1017000)),
        uv_index: Some(Uvi(0)),
        air_quality_index: Some(Aqi(1000)),
        sunrise: None,
        sunset: None,
    }
}

fn render(template: &str, units: Units) -> String {
    format_status(
        template,
        &sample_snapshot(),
        &sample_location(),
        &units,
        &Icons::default(),
        None,
        None,
    )
}

fn default_units() -> Units {
    Units {
        temperature: TemperatureUnit::Celsius,
        wind_speed: WindSpeedUnit::Kmh,
        distance: DistanceUnit::Kilometer,
        precipitation: PrecipitationUnit::Millimeter,
    }
}

fn units_with_temperature(t: TemperatureUnit) -> Units {
    let mut u = default_units();
    u.temperature = t;
    u
}

#[test]
fn format_default() {
    let formatter = Formatter::new(Config::default(), sample_location(), sample_snapshot());
    assert_eq!(formatter.format(), "\u{e313} 2\u{b0}C");
}

#[test]
fn city() {
    assert_eq!(render("<city>", default_units()), "Montreal");
}

#[test]
fn format_temperature_celsius() {
    let format = "<temperature>, <temperature_feels_like>, \
    <temperature_max>, <temperature_min>, <dew_point>";
    assert_eq!(render(format, default_units()), "2, -3, 6, 0, 1");
}

#[test]
fn format_temperature_fahrenheit() {
    let format = "<temperature>, <temperature_feels_like>, \
    <temperature_max>, <temperature_min>, <dew_point>";
    assert_eq!(
        render(format, units_with_temperature(TemperatureUnit::Fahrenheit)),
        "35, 27, 43, 32, 34"
    );
}

#[test]
fn format_temperature_kelvin() {
    let format = "<temperature>, <temperature_feels_like>, \
    <temperature_max>, <temperature_min>, <dew_point>";
    assert_eq!(
        render(format, units_with_temperature(TemperatureUnit::Kelvin)),
        "275, 270, 279, 273, 274"
    );
}

#[test]
fn wind_speed_ms() {
    let mut units = default_units();
    units.wind_speed = WindSpeedUnit::Ms;
    assert_eq!(render("<wind_speed>", units), "3.6");
}

#[test]
fn wind_speed_kmh() {
    assert_eq!(render("<wind_speed>", default_units()), "13.0");
}

#[test]
fn wind_speed_mph() {
    let mut units = default_units();
    units.wind_speed = WindSpeedUnit::Mph;
    assert_eq!(render("<wind_speed>", units), "8.1");
}

#[test]
fn distance_meter() {
    let mut units = default_units();
    units.distance = DistanceUnit::Meter;
    assert_eq!(render("<visibility>", units), "6437.0");
}

#[test]
fn distance_kilometer() {
    assert_eq!(render("<visibility>", default_units()), "6.4");
}

#[test]
fn distance_mile() {
    let mut units = default_units();
    units.distance = DistanceUnit::Mile;
    assert_eq!(render("<visibility>", units), "4.0");
}

#[test]
fn precipitation_millimeter() {
    assert_eq!(render("<precipitation>", default_units()), "0.074");
}

#[test]
fn precipitation_inch() {
    let mut units = default_units();
    units.precipitation = PrecipitationUnit::Inch;
    assert_eq!(render("<precipitation>", units), "0.003");
}

#[test]
fn format_other() {
    let format = "<pressure>, <humidity>, <clouds>, \
    <precipitation_chance>, <uv_index>, <air_quality_index>";
    assert_eq!(render(format, default_units()), "1017, 97, 90, 20, 0, 1");
}
