use wedder::quantities::{Aqi, Convert, Hpa, Kelvin, Meter, Millimeter, Ms, Percentage, Uvi};
use wedder::units::{DistanceUnit, PrecipitationUnit, TemperatureUnit, WindSpeedUnit};

#[test]
fn kelvin_identity() {
    assert_eq!(Kelvin(280000).convert(&TemperatureUnit::Kelvin), "280");
    assert_eq!(Kelvin(0).convert(&TemperatureUnit::Kelvin), "0");
}

#[test]
fn kelvin_to_celsius_rounds() {
    assert_eq!(Kelvin(280320).convert(&TemperatureUnit::Celsius), "7");
    assert_eq!(Kelvin(274753).convert(&TemperatureUnit::Celsius), "2");
    assert_eq!(Kelvin(263150).convert(&TemperatureUnit::Celsius), "-10");
    assert_eq!(Kelvin(270456).convert(&TemperatureUnit::Celsius), "-3");
}

#[test]
fn kelvin_to_fahrenheit() {
    assert_eq!(Kelvin(280320).convert(&TemperatureUnit::Fahrenheit), "45");
    assert_eq!(Kelvin(273150).convert(&TemperatureUnit::Fahrenheit), "32");
    assert_eq!(Kelvin(274753).convert(&TemperatureUnit::Fahrenheit), "35");
}

#[test]
fn wind_speed_conversions() {
    assert_eq!(Ms(4100).convert(&WindSpeedUnit::Ms), "4.1");
    assert_eq!(Ms(4100).convert(&WindSpeedUnit::Kmh), "14.8");
    assert_eq!(Ms(4100).convert(&WindSpeedUnit::Mph), "9.2");
}

#[test]
fn distance_conversions() {
    assert_eq!(Meter(6437888).convert(&DistanceUnit::Meter), "6437.9");
    assert_eq!(Meter(6437888).convert(&DistanceUnit::Kilometer), "6.4");
    assert_eq!(Meter(6437888).convert(&DistanceUnit::Mile), "4.0");
    assert_eq!(Meter(6437000).convert(&DistanceUnit::Meter), "6437.0");
}

#[test]
fn precipitation_conversions() {
    assert_eq!(Millimeter(74).convert(&PrecipitationUnit::Millimeter), "0.074");
    assert_eq!(Millimeter(74).convert(&PrecipitationUnit::Inch), "0.003");
    assert_eq!(Millimeter(25400).convert(&PrecipitationUnit::Inch), "1.000");
    assert_eq!(Millimeter(0).convert(&PrecipitationUnit::Millimeter), "0.000");
}

#[test]
fn plain_readings_round() {
    assert_eq!(Percentage(90563).text(), "91");
    assert_eq!(Percentage(20000).text(), "20");
    assert_eq!(Hpa(1017567).text(), "1018");
    assert_eq!(Uvi(0).text(), "0");
    assert_eq!(Aqi(1330).text(), "1");
}
