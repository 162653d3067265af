//! The runtime configuration: format string, polling interval, units,
//! provider selectors and icon table, with the explicit defaults and the
//! merge of command-line overrides.

use vstd::prelude::*;
use vstd::string::*;

use crate::icons::{default_icon_table, Icons};
use crate::location::{Location, LocationProvider};
use crate::units::{DistanceUnit, PrecipitationUnit, TemperatureUnit, Units, WindSpeedUnit};

verus! {

/// The user's format template.
#[derive(Debug, Clone)]
pub struct Format(pub String);

impl PartialEq for Format {
    fn eq(&self, other: &Self) -> (r: bool) {
        self.0 == other.0
    }
}

impl vstd::std_specs::cmp::PartialEqSpecImpl for Format {
    open spec fn obeys_eq_spec() -> bool {
        true
    }

    open spec fn eq_spec(&self, other: &Self) -> bool {
        self.0@ == other.0@
    }
}

impl Default for Format {
    fn default() -> (r: Self)
        ensures
            r.0@ == "<icon> <temperature>\u{b0}C"@,
    {
        Format(String::from_str("<icon> <temperature>\u{b0}C"))
    }
}

/// How often the weather is polled, in seconds. A negative interval means
/// a single report.
#[derive(Debug, PartialEq, Eq, Structural, Clone, Copy)]
pub struct Interval(pub i32);

impl Default for Interval {
    fn default() -> (r: Self)
        ensures
            r == Interval(300),
    {
        Interval(300)
    }
}

/// Selector for the weather provider.
#[derive(Debug, PartialEq, Eq, Structural, Clone, Copy)]
pub enum WeatherProvider {
    OpenWeatherMap,
    OwmMock,
}

impl Default for WeatherProvider {
    fn default() -> (r: Self)
        ensures
            r == WeatherProvider::OpenWeatherMap,
    {
        WeatherProvider::OpenWeatherMap
    }
}

/// The weather part of the configuration.
#[derive(Debug, Clone)]
pub struct WeatherConfig {
    pub provider: WeatherProvider,
    pub api_key: String,
}

impl Default for WeatherConfig {
    fn default() -> (r: Self)
        ensures
            r.provider == WeatherProvider::OpenWeatherMap,
            r.api_key@ == Seq::<char>::empty(),
    {
        WeatherConfig { provider: WeatherProvider::OpenWeatherMap, api_key: String::new() }
    }
}

/// The location part of the configuration.
#[derive(Debug, Clone)]
pub struct LocationConfig {
    pub provider: LocationProvider,
    pub location: Location,
}

impl Default for LocationConfig {
    fn default() -> (r: Self)
        ensures
            r.provider == LocationProvider::IpApi,
            r.location.city is None,
            r.location.lat == 0,
            r.location.lon == 0,
    {
        LocationConfig { provider: LocationProvider::IpApi, location: Location::default() }
    }
}

/// The whole configuration a formatting pass reads.
#[derive(Debug, Clone)]
pub struct Config {
    pub format: Format,
    pub interval: Interval,
    pub units: Units,
    pub weather: WeatherConfig,
    pub location: LocationConfig,
    pub icons: Icons,
}

impl Default for Config {
    fn default() -> (r: Self)
        ensures
            r.format.0@ == "<icon> <temperature>\u{b0}C"@,
            r.interval == Interval(300),
            r.units == (Units {
                temperature: TemperatureUnit::Celsius,
                wind_speed: WindSpeedUnit::Kmh,
                distance: DistanceUnit::Kilometer,
                precipitation: PrecipitationUnit::Millimeter,
            }),
            r.weather.provider == WeatherProvider::OpenWeatherMap,
            r.weather.api_key@ == Seq::<char>::empty(),
            r.location.provider == LocationProvider::IpApi,
            r.location.location.city is None,
            r.location.location.lat == 0,
            r.location.location.lon == 0,
            r.icons@ == default_icon_table(),
    {
        Config {
            format: Format::default(),
            interval: Interval::default(),
            units: Units::default(),
            weather: WeatherConfig::default(),
            location: LocationConfig::default(),
            icons: Icons::default(),
        }
    }
}

/// Command-line overrides, one optional value per configurable field.
/// Argument parsing itself happens outside the verified core; this type
/// carries the parsed values.
#[derive(Debug, Clone)]
pub struct CliArgs {
    pub debug: bool,
    pub default_config_path: bool,
    pub config_file: Option<String>,
    pub format: Option<Format>,
    pub interval: Option<Interval>,
    pub temperature_unit: Option<TemperatureUnit>,
    pub wind_speed_unit: Option<WindSpeedUnit>,
    pub distance_unit: Option<DistanceUnit>,
    pub precipitation_unit: Option<PrecipitationUnit>,
    pub weather_provider: Option<WeatherProvider>,
    pub weather_api_key: Option<String>,
    pub location_provider: Option<LocationProvider>,
    pub lat: Option<i64>,
    pub lon: Option<i64>,
}

/// Replaces each unit selector that the arguments carry.
fn merge_units(
    units: &mut Units,
    temperature: Option<TemperatureUnit>,
    wind_speed: Option<WindSpeedUnit>,
    distance: Option<DistanceUnit>,
    precipitation: Option<PrecipitationUnit>,
)
    ensures
        final (units).temperature == match temperature {
            Option::Some(v) => v,
            Option::None => old(units).temperature,
        },
        final (units).wind_speed == match wind_speed {
            Option::Some(v) => v,
            Option::None => old(units).wind_speed,
        },
        final (units).distance == match distance {
            Option::Some(v) => v,
            Option::None => old(units).distance,
        },
        final (units).precipitation == match precipitation {
            Option::Some(v) => v,
            Option::None => old(units).precipitation,
        },
{
    if let Option::Some(v) = temperature {
        units.temperature = v;
    }
    if let Option::Some(v) = wind_speed {
        units.wind_speed = v;
    }
    if let Option::Some(v) = distance {
        units.distance = v;
    }
    if let Option::Some(v) = precipitation {
        units.precipitation = v;
    }
}

/// Replaces the weather provider and key that the arguments carry.
fn merge_weather(
    weather: &mut WeatherConfig,
    provider: Option<WeatherProvider>,
    api_key: Option<String>,
)
    ensures
        final (weather).provider == match provider {
            Option::Some(v) => v,
            Option::None => old(weather).provider,
        },
        final (weather).api_key == match api_key {
            Option::Some(v) => v,
            Option::None => old(weather).api_key,
        },
{
    if let Option::Some(v) = provider {
        weather.provider = v;
    }
    if let Option::Some(v) = api_key {
        weather.api_key = v;
    }
}

/// Replaces the location provider and coordinates that the arguments carry.
fn merge_location(
    location: &mut LocationConfig,
    provider: Option<LocationProvider>,
    lat: Option<i64>,
    lon: Option<i64>,
)
    ensures
        final (location).provider == match provider {
            Option::Some(v) => v,
            Option::None => old(location).provider,
        },
        final (location).location.lat == match lat {
            Option::Some(v) => v,
            Option::None => old(location).location.lat,
        },
        final (location).location.lon == match lon {
            Option::Some(v) => v,
            Option::None => old(location).location.lon,
        },
        final (location).location.city == old(location).location.city,
{
    if let Option::Some(v) = provider {
        location.provider = v;
    }
    if let Option::Some(v) = lat {
        location.location.lat = v;
    }
    if let Option::Some(v) = lon {
        location.location.lon = v;
    }
}

impl Config {
    /// Lays the given command-line values over this configuration: every
    /// field that the arguments carry is replaced, every other field keeps
    /// its value.
    pub fn merge(&mut self, args: CliArgs)
        ensures
            final (self).format == match args.format {
                Option::Some(v) => v,
                Option::None => old(self).format,
            },
            final (self).interval == match args.interval {
                Option::Some(v) => v,
                Option::None => old(self).interval,
            },
            final (self).units.temperature == match args.temperature_unit {
                Option::Some(v) => v,
                Option::None => old(self).units.temperature,
            },
            final (self).units.wind_speed == match args.wind_speed_unit {
                Option::Some(v) => v,
                Option::None => old(self).units.wind_speed,
            },
            final (self).units.distance == match args.distance_unit {
                Option::Some(v) => v,
                Option::None => old(self).units.distance,
            },
            final (self).units.precipitation == match args.precipitation_unit {
                Option::Some(v) => v,
                Option::None => old(self).units.precipitation,
            },
            final (self).weather.provider == match args.weather_provider {
                Option::Some(v) => v,
                Option::None => old(self).weather.provider,
            },
            final (self).weather.api_key == match args.weather_api_key {
                Option::Some(v) => v,
                Option::None => old(self).weather.api_key,
            },
            final (self).location.provider == match args.location_provider {
                Option::Some(v) => v,
                Option::None => old(self).location.provider,
            },
            final (self).location.location.lat == match args.lat {
                Option::Some(v) => v,
                Option::None => old(self).location.location.lat,
            },
            final (self).location.location.lon == match args.lon {
                Option::Some(v) => v,
                Option::None => old(self).location.location.lon,
            },
            final (self).location.location.city == old(self).location.location.city,
            final (self).icons == old(self).icons,
    {
        if let Option::Some(v) = args.format {
            self.format = v;
        }
        if let Option::Some(v) = args.interval {
            self.interval = v;
        }
        merge_units(
            &mut self.units,
            args.temperature_unit,
            args.wind_speed_unit,
            args.distance_unit,
            args.precipitation_unit,
        );
        merge_weather(&mut self.weather, args.weather_provider, args.weather_api_key);
        merge_location(&mut self.location, args.location_provider, args.lat, args.lon);
    }
}

} // verus!
