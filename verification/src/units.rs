//! Unit selectors for the displayable physical quantities.

use vstd::prelude::*;

verus! {

/// Unit in which temperatures are displayed.
#[derive(Debug, PartialEq, Eq, Structural, Clone, Copy)]
pub enum TemperatureUnit {
    Celsius,
    Fahrenheit,
    Kelvin,
}

impl Default for TemperatureUnit {
    fn default() -> (r: Self)
        ensures
            r == TemperatureUnit::Celsius,
    {
        TemperatureUnit::Celsius
    }
}

/// Unit in which wind speeds are displayed.
#[derive(Debug, PartialEq, Eq, Structural, Clone, Copy)]
pub enum WindSpeedUnit {
    Ms,
    Kmh,
    Mph,
}

impl Default for WindSpeedUnit {
    fn default() -> (r: Self)
        ensures
            r == WindSpeedUnit::Kmh,
    {
        WindSpeedUnit::Kmh
    }
}

/// Unit in which distances are displayed.
#[derive(Debug, PartialEq, Eq, Structural, Clone, Copy)]
pub enum DistanceUnit {
    Meter,
    Kilometer,
    Mile,
}

impl Default for DistanceUnit {
    fn default() -> (r: Self)
        ensures
            r == DistanceUnit::Kilometer,
    {
        DistanceUnit::Kilometer
    }
}

/// Unit in which precipitation amounts are displayed.
#[derive(Debug, PartialEq, Eq, Structural, Clone, Copy)]
pub enum PrecipitationUnit {
    Millimeter,
    Inch,
}

impl Default for PrecipitationUnit {
    fn default() -> (r: Self)
        ensures
            r == PrecipitationUnit::Millimeter,
    {
        PrecipitationUnit::Millimeter
    }
}

/// The user's choice of display unit for each quantity.
#[derive(Debug, PartialEq, Eq, Structural, Clone, Copy)]
pub struct Units {
    pub temperature: TemperatureUnit,
    pub wind_speed: WindSpeedUnit,
    pub distance: DistanceUnit,
    pub precipitation: PrecipitationUnit,
}

impl Default for Units {
    fn default() -> (r: Self)
        ensures
            r == (Units {
                temperature: TemperatureUnit::Celsius,
                wind_speed: WindSpeedUnit::Kmh,
                distance: DistanceUnit::Kilometer,
                precipitation: PrecipitationUnit::Millimeter,
            }),
    {
        Units {
            temperature: TemperatureUnit::Celsius,
            wind_speed: WindSpeedUnit::Kmh,
            distance: DistanceUnit::Kilometer,
            precipitation: PrecipitationUnit::Millimeter,
        }
    }
}

/// Temperature selector of the reduced settings format.
#[derive(Debug, PartialEq, Eq, Structural, Clone, Copy)]
pub enum Temperature {
    Celsius,
    Fahrenheit,
    Kelvin,
}

impl Default for Temperature {
    fn default() -> (r: Self)
        ensures
            r == Temperature::Celsius,
    {
        Temperature::Celsius
    }
}

/// Wind-speed selector of the reduced settings format.
#[derive(Debug, PartialEq, Eq, Structural, Clone, Copy)]
pub enum WindSpeed {
    Ms,
    Kmh,
    Mph,
}

impl Default for WindSpeed {
    fn default() -> (r: Self)
        ensures
            r == WindSpeed::Kmh,
    {
        WindSpeed::Kmh
    }
}

} // verus!
