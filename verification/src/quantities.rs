//! Nominal wrapper types for physical quantities.
//!
//! Each quantity is stored in thousandths of its base unit (millikelvin,
//! millimeters per second, and so on), so that unit conversion and display
//! rounding are exact integer computations. Distinct wrapper types keep
//! quantities of different kinds from being mixed up.

use vstd::prelude::*;

use crate::num::{
    div_round_away, int_str, int_string, round_away, round_arg_ok, tenths_str, tenths_string,
    thousandths_str, thousandths_string,
};
use crate::units::{DistanceUnit, PrecipitationUnit, TemperatureUnit, WindSpeedUnit};

verus! {

/// Magnitude bound on stored quantities (a hundred million base units),
/// chosen so every conversion below stays inside `i64`.
pub open spec fn q_wf(v: int) -> bool {
    -100_000_000_000 <= v <= 100_000_000_000
}

/// Renders a quantity of a given unit as display text.
pub trait Convert: Sized {
    /// The selector for the unit the quantity is displayed in.
    type Unit;

    /// Whether the stored value is small enough to convert.
    spec fn wf(&self) -> bool;

    /// The text `convert` returns.
    spec fn spec_convert(&self, unit: &Self::Unit) -> Seq<char>;

    /// Converts the quantity into the requested unit and renders it.
    fn convert(&self, unit: &Self::Unit) -> (r: String)
        requires
            self.wf(),
        ensures
            r@ == self.spec_convert(unit),
    ;
}

/// A temperature, in thousandths of a kelvin.
#[derive(Debug, PartialEq, Eq, Structural, Clone, Copy)]
pub struct Kelvin(pub i64);

/// The whole-degree reading of a temperature of `k` millikelvin in `unit`.
pub open spec fn temperature_degrees(k: int, unit: TemperatureUnit) -> int {
    match unit {
        TemperatureUnit::Celsius => round_away(k - 273150, 1000),
        TemperatureUnit::Fahrenheit => round_away((k - 273150) * 9 + 160000, 5000),
        TemperatureUnit::Kelvin => round_away(k, 1000),
    }
}

impl Convert for Kelvin {
    type Unit = TemperatureUnit;

    open spec fn wf(&self) -> bool {
        q_wf(self.0 as int)
    }

    open spec fn spec_convert(&self, unit: &TemperatureUnit) -> Seq<char> {
        int_str(temperature_degrees(self.0 as int, *unit))
    }

    /// Celsius is `k - 273.15`, Fahrenheit `(k - 273.15) * 9/5 + 32`,
    /// Kelvin the value itself; the display rounds to the nearest degree.
    fn convert(&self, unit: &TemperatureUnit) -> (r: String) {
        let degrees: i64 = match unit {
            TemperatureUnit::Celsius => div_round_away(self.0 - 273150, 1000),
            TemperatureUnit::Fahrenheit => div_round_away((self.0 - 273150) * 9 + 160000, 5000),
            TemperatureUnit::Kelvin => div_round_away(self.0, 1000),
        };
        int_string(degrees)
    }
}

/// A precipitation amount, in thousandths of a millimeter.
#[derive(Debug, PartialEq, Eq, Structural, Clone, Copy)]
pub struct Millimeter(pub i64);

/// The thousandths-precision reading of `v` (thousandths of a millimeter)
/// in `unit`.
pub open spec fn precipitation_thousandths(v: int, unit: PrecipitationUnit) -> int {
    match unit {
        PrecipitationUnit::Millimeter => v,
        PrecipitationUnit::Inch => round_away(v * 5, 127),
    }
}

impl Convert for Millimeter {
    type Unit = PrecipitationUnit;

    open spec fn wf(&self) -> bool {
        q_wf(self.0 as int)
    }

    open spec fn spec_convert(&self, unit: &PrecipitationUnit) -> Seq<char> {
        thousandths_str(precipitation_thousandths(self.0 as int, *unit))
    }

    /// Inch is `mm / 25.4` (so five 127ths of the stored thousandths);
    /// the display keeps three decimal places.
    fn convert(&self, unit: &PrecipitationUnit) -> (r: String) {
        let thousandths: i64 = match unit {
            PrecipitationUnit::Millimeter => self.0,
            PrecipitationUnit::Inch => div_round_away(self.0 * 5, 127),
        };
        thousandths_string(thousandths)
    }
}

/// A distance, in thousandths of a meter.
#[derive(Debug, PartialEq, Eq, Structural, Clone, Copy)]
pub struct Meter(pub i64);

/// The tenths-precision reading of `v` (thousandths of a meter) in `unit`.
pub open spec fn distance_tenths(v: int, unit: DistanceUnit) -> int {
    match unit {
        DistanceUnit::Meter => round_away(v, 100),
        DistanceUnit::Kilometer => round_away(v, 100000),
        DistanceUnit::Mile => round_away(v * 6213712, 1000000000000),
    }
}

impl Convert for Meter {
    type Unit = DistanceUnit;

    open spec fn wf(&self) -> bool {
        q_wf(self.0 as int)
    }

    open spec fn spec_convert(&self, unit: &DistanceUnit) -> Seq<char> {
        tenths_str(distance_tenths(self.0 as int, *unit))
    }

    /// Kilometer is `m / 1000`, mile `m * 0.0006213712`, meter the value
    /// itself; the display keeps one decimal place.
    fn convert(&self, unit: &DistanceUnit) -> (r: String) {
        let tenths: i64 = match unit {
            DistanceUnit::Meter => div_round_away(self.0, 100),
            DistanceUnit::Kilometer => div_round_away(self.0, 100000),
            DistanceUnit::Mile => div_round_away(self.0 * 6213712, 1000000000000),
        };
        tenths_string(tenths)
    }
}

/// A wind speed, in thousandths of a meter per second.
#[derive(Debug, PartialEq, Eq, Structural, Clone, Copy)]
pub struct Ms(pub i64);

/// The tenths-precision reading of `v` (thousandths of a meter per second)
/// in `unit`.
pub open spec fn wind_speed_tenths(v: int, unit: WindSpeedUnit) -> int {
    match unit {
        WindSpeedUnit::Ms => round_away(v, 100),
        WindSpeedUnit::Kmh => round_away(v * 36, 1000),
        WindSpeedUnit::Mph => round_away(v * 1800, 80467),
    }
}

impl Convert for Ms {
    type Unit = WindSpeedUnit;

    open spec fn wf(&self) -> bool {
        q_wf(self.0 as int)
    }

    open spec fn spec_convert(&self, unit: &WindSpeedUnit) -> Seq<char> {
        tenths_str(wind_speed_tenths(self.0 as int, *unit))
    }

    /// Kmh is `ms * 3.6`, mph `ms * 3600/1609.34` (eighteen hundred
    /// 80467ths of the stored thousandths); one decimal place.
    fn convert(&self, unit: &WindSpeedUnit) -> (r: String) {
        let tenths: i64 = match unit {
            WindSpeedUnit::Ms => div_round_away(self.0, 100),
            WindSpeedUnit::Kmh => div_round_away(self.0 * 36, 1000),
            WindSpeedUnit::Mph => div_round_away(self.0 * 1800, 80467),
        };
        tenths_string(tenths)
    }
}

/// The plain rounded reading of a unitless quantity stored in thousandths.
pub open spec fn plain_rounded(v: int) -> Seq<char> {
    int_str(round_away(v, 1000))
}

/// A percentage, in thousandths of a percent.
#[derive(Debug, PartialEq, Eq, Structural, Clone, Copy)]
pub struct Percentage(pub i64);

impl Percentage {
    /// The rounded whole-percent text.
    pub fn text(&self) -> (r: String)
        requires
            q_wf(self.0 as int),
        ensures
            r@ == plain_rounded(self.0 as int),
    {
        int_string(div_round_away(self.0, 1000))
    }
}

/// An atmospheric pressure, in thousandths of a hectopascal.
#[derive(Debug, PartialEq, Eq, Structural, Clone, Copy)]
pub struct Hpa(pub i64);

impl Hpa {
    /// The rounded whole-hectopascal text.
    pub fn text(&self) -> (r: String)
        requires
            q_wf(self.0 as int),
        ensures
            r@ == plain_rounded(self.0 as int),
    {
        int_string(div_round_away(self.0, 1000))
    }
}

/// An ultraviolet index, in thousandths.
#[derive(Debug, PartialEq, Eq, Structural, Clone, Copy)]
pub struct Uvi(pub i64);

impl Uvi {
    /// The rounded whole-index text.
    pub fn text(&self) -> (r: String)
        requires
            q_wf(self.0 as int),
        ensures
            r@ == plain_rounded(self.0 as int),
    {
        int_string(div_round_away(self.0, 1000))
    }
}

/// An air-quality index, in thousandths.
#[derive(Debug, PartialEq, Eq, Structural, Clone, Copy)]
pub struct Aqi(pub i64);

impl Aqi {
    /// The rounded whole-index text.
    pub fn text(&self) -> (r: String)
        requires
            q_wf(self.0 as int),
        ensures
            r@ == plain_rounded(self.0 as int),
    {
        int_string(div_round_away(self.0, 1000))
    }
}

/// A temperature whose stored millikelvin count is a whole number of kelvin
/// displays in the Kelvin unit as exactly that number: the conversion is the
/// identity.
pub proof fn lemma_kelvin_identity(k: Kelvin, degrees: int)
    requires
        k.0 == degrees * 1000,
    ensures
        k.spec_convert(&TemperatureUnit::Kelvin) == int_str(degrees),
{
    crate::num::lemma_round_away_exact(degrees, 1000);
}

/// Displaying a temperature in Celsius rounds to the nearest whole degree:
/// the displayed degree count, scaled back to millidegrees, is within half a
/// degree of the exact Celsius value `k - 273.15`.
pub proof fn lemma_celsius_round_trip(k: Kelvin)
    ensures
        2 * (temperature_degrees(k.0 as int, TemperatureUnit::Celsius) * 1000 - (k.0 - 273150))
            <= 1000,
        2 * ((k.0 - 273150) - temperature_degrees(k.0 as int, TemperatureUnit::Celsius) * 1000)
            <= 1000,
{
    crate::num::lemma_round_away_close(k.0 - 273150, 1000);
}

} // verus!
