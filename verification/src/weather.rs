//! The canonical weather observation and the provider response it is
//! assembled from.

use vstd::prelude::*;
use vstd::string::*;

use crate::condition::{
    classify_codes, classify_codes_spec, UndefinedCondition, WeatherCondition,
};
use crate::icons::{default_icon_table, resolve_icon, Icons};
use crate::num::{int_str, int_string};
use crate::quantities::{
    q_wf, temperature_degrees, Aqi, Convert, Hpa, Kelvin, Meter, Millimeter, Ms, Percentage, Uvi,
};
use crate::text::{contains, occurs, replace, replace_all};
use crate::units::TemperatureUnit;

verus! {

/// A fully assembled, immutable weather observation, ready for formatting.
/// Every field is independently optional: providers report partial data,
/// and an absent field is distinct from a zero value.
#[derive(Debug, Clone)]
pub struct WeatherSnapshot {
    pub condition: Option<WeatherCondition>,
    pub temperature: Option<Kelvin>,
    pub feels_like: Option<Kelvin>,
    pub temp_max: Option<Kelvin>,
    pub temp_min: Option<Kelvin>,
    pub dew_point: Option<Kelvin>,
    pub precipitation: Option<Millimeter>,
    pub precipitation_chance: Option<Percentage>,
    pub clouds: Option<Percentage>,
    pub humidity: Option<Percentage>,
    pub visibility: Option<Meter>,
    pub wind_speed: Option<Ms>,
    pub pressure: Option<Hpa>,
    pub uv_index: Option<Uvi>,
    pub air_quality_index: Option<Aqi>,
    pub sunrise: Option<i64>,
    pub sunset: Option<i64>,
}

/// Whether an optional quantity is absent or small enough to convert.
pub open spec fn opt_wf(v: Option<int>) -> bool {
    match v {
        Option::Some(x) => q_wf(x),
        Option::None => true,
    }
}

impl WeatherSnapshot {
    /// Every present quantity is small enough to convert.
    pub open spec fn wf(&self) -> bool {
        &&& opt_wf(match self.temperature {
            Option::Some(q) => Option::Some(q.0 as int),
            Option::None => Option::None,
        })
        &&& opt_wf(match self.feels_like {
            Option::Some(q) => Option::Some(q.0 as int),
            Option::None => Option::None,
        })
        &&& opt_wf(match self.temp_max {
            Option::Some(q) => Option::Some(q.0 as int),
            Option::None => Option::None,
        })
        &&& opt_wf(match self.temp_min {
            Option::Some(q) => Option::Some(q.0 as int),
            Option::None => Option::None,
        })
        &&& opt_wf(match self.dew_point {
            Option::Some(q) => Option::Some(q.0 as int),
            Option::None => Option::None,
        })
        &&& opt_wf(match self.precipitation {
            Option::Some(q) => Option::Some(q.0 as int),
            Option::None => Option::None,
        })
        &&& opt_wf(match self.precipitation_chance {
            Option::Some(q) => Option::Some(q.0 as int),
            Option::None => Option::None,
        })
        &&& opt_wf(match self.clouds {
            Option::Some(q) => Option::Some(q.0 as int),
            Option::None => Option::None,
        })
        &&& opt_wf(match self.humidity {
            Option::Some(q) => Option::Some(q.0 as int),
            Option::None => Option::None,
        })
        &&& opt_wf(match self.visibility {
            Option::Some(q) => Option::Some(q.0 as int),
            Option::None => Option::None,
        })
        &&& opt_wf(match self.wind_speed {
            Option::Some(q) => Option::Some(q.0 as int),
            Option::None => Option::None,
        })
        &&& opt_wf(match self.pressure {
            Option::Some(q) => Option::Some(q.0 as int),
            Option::None => Option::None,
        })
        &&& opt_wf(match self.uv_index {
            Option::Some(q) => Option::Some(q.0 as int),
            Option::None => Option::None,
        })
        &&& opt_wf(match self.air_quality_index {
            Option::Some(q) => Option::Some(q.0 as int),
            Option::None => Option::None,
        })
    }

    /// A snapshot with every field absent.
    pub fn empty() -> (r: WeatherSnapshot)
        ensures
            r.condition is None,
            r.temperature is None,
            r.feels_like is None,
            r.temp_max is None,
            r.temp_min is None,
            r.dew_point is None,
            r.precipitation is None,
            r.precipitation_chance is None,
            r.clouds is None,
            r.humidity is None,
            r.visibility is None,
            r.wind_speed is None,
            r.pressure is None,
            r.uv_index is None,
            r.air_quality_index is None,
            r.sunrise is None,
            r.sunset is None,
            r.wf(),
    {
        WeatherSnapshot {
            condition: None,
            temperature: None,
            feels_like: None,
            temp_max: None,
            temp_min: None,
            dew_point: None,
            precipitation: None,
            precipitation_chance: None,
            clouds: None,
            humidity: None,
            visibility: None,
            wind_speed: None,
            pressure: None,
            uv_index: None,
            air_quality_index: None,
            sunrise: None,
            sunset: None,
        }
    }
}

/// Rain and snow amounts combine into one precipitation value: the sum when
/// both are reported, the one reported otherwise, absent when neither is.
pub open spec fn precipitation_sum(rain: Option<Millimeter>, snow: Option<Millimeter>) -> Option<
    Millimeter,
> {
    match (rain, snow) {
        (Option::Some(r), Option::Some(s)) => Option::Some(Millimeter((r.0 + s.0) as i64)),
        (Option::Some(r), Option::None) => Option::Some(r),
        (Option::None, Option::Some(s)) => Option::Some(s),
        (Option::None, Option::None) => Option::None,
    }
}

/// A weather-provider response, reduced to plain values: the reported
/// condition codes and each optional quantity in thousandths of its base
/// unit. Decoding the provider's wire format happens outside the verified
/// core; this type carries what the logic reads.
#[derive(Debug, Clone)]
pub struct Response {
    pub weather: Vec<i32>,
    pub temp: Kelvin,
    pub feels_like: Option<Kelvin>,
    pub temp_max: Option<Kelvin>,
    pub temp_min: Option<Kelvin>,
    pub pressure: Option<Hpa>,
    pub humidity: Option<Percentage>,
    pub wind_speed: Option<Ms>,
    pub clouds: Option<Percentage>,
    pub visibility: Option<Meter>,
    pub rain_last_hour: Option<Millimeter>,
    pub snow_last_hour: Option<Millimeter>,
    pub aqi: Option<Aqi>,
    pub sunrise: Option<i64>,
    pub sunset: Option<i64>,
}

impl Response {
    /// At least one condition code, every quantity in range, and the
    /// combined precipitation still storable.
    pub open spec fn wf(&self) -> bool {
        &&& self.weather@.len() >= 1
        &&& q_wf(self.temp.0 as int)
        &&& opt_wf(match self.feels_like {
            Option::Some(q) => Option::Some(q.0 as int),
            Option::None => Option::None,
        })
        &&& opt_wf(match self.temp_max {
            Option::Some(q) => Option::Some(q.0 as int),
            Option::None => Option::None,
        })
        &&& opt_wf(match self.temp_min {
            Option::Some(q) => Option::Some(q.0 as int),
            Option::None => Option::None,
        })
        &&& opt_wf(match self.pressure {
            Option::Some(q) => Option::Some(q.0 as int),
            Option::None => Option::None,
        })
        &&& opt_wf(match self.humidity {
            Option::Some(q) => Option::Some(q.0 as int),
            Option::None => Option::None,
        })
        &&& opt_wf(match self.wind_speed {
            Option::Some(q) => Option::Some(q.0 as int),
            Option::None => Option::None,
        })
        &&& opt_wf(match self.clouds {
            Option::Some(q) => Option::Some(q.0 as int),
            Option::None => Option::None,
        })
        &&& opt_wf(match self.visibility {
            Option::Some(q) => Option::Some(q.0 as int),
            Option::None => Option::None,
        })
        &&& opt_wf(match self.aqi {
            Option::Some(q) => Option::Some(q.0 as int),
            Option::None => Option::None,
        })
        &&& match (self.rain_last_hour, self.snow_last_hour) {
            (Option::Some(r), Option::Some(s)) => q_wf(r.0 as int) && q_wf(s.0 as int) && q_wf(
                r.0 + s.0,
            ),
            (Option::Some(r), Option::None) => q_wf(r.0 as int),
            (Option::None, Option::Some(s)) => q_wf(s.0 as int),
            (Option::None, Option::None) => true,
        }
    }

    /// The canonical condition of the reported code or code pair.
    pub fn weather_condition(&self) -> (r: Result<WeatherCondition, UndefinedCondition>)
        requires
            self.weather@.len() >= 1,
        ensures
            r == classify_codes_spec(self.weather@.map_values(|c: i32| c as int)),
    {
        classify_codes(&self.weather)
    }

    /// The combined precipitation over the last hour.
    pub fn precipitation(&self) -> (r: Option<Millimeter>)
        requires
            self.wf(),
        ensures
            r == precipitation_sum(self.rain_last_hour, self.snow_last_hour),
    {
        match (self.rain_last_hour, self.snow_last_hour) {
            (Option::Some(rain), Option::Some(snow)) => Option::Some(Millimeter(rain.0 + snow.0)),
            (Option::Some(rain), Option::None) => Option::Some(rain),
            (Option::None, Option::Some(snow)) => Option::Some(snow),
            (Option::None, Option::None) => Option::None,
        }
    }

    /// Assembles the canonical snapshot: the classified condition, the
    /// quantities carried over, rain and snow combined. An unclassifiable
    /// code surfaces as an error, never as a default condition.
    pub fn to_snapshot(&self) -> (r: Result<WeatherSnapshot, UndefinedCondition>)
        requires
            self.wf(),
        ensures
            r == match classify_codes_spec(self.weather@.map_values(|c: i32| c as int)) {
                Result::Ok(c) => Result::<WeatherSnapshot, UndefinedCondition>::Ok(
                    WeatherSnapshot {
                        condition: Option::Some(c),
                        temperature: Option::Some(self.temp),
                        feels_like: self.feels_like,
                        temp_max: self.temp_max,
                        temp_min: self.temp_min,
                        dew_point: Option::None,
                        precipitation: precipitation_sum(
                            self.rain_last_hour,
                            self.snow_last_hour,
                        ),
                        precipitation_chance: Option::None,
                        clouds: self.clouds,
                        humidity: self.humidity,
                        visibility: self.visibility,
                        wind_speed: self.wind_speed,
                        pressure: self.pressure,
                        uv_index: Option::None,
                        air_quality_index: self.aqi,
                        sunrise: self.sunrise,
                        sunset: self.sunset,
                    },
                ),
                Result::Err(e) => Result::<WeatherSnapshot, UndefinedCondition>::Err(e),
            },
    {
        let condition = match self.weather_condition() {
            Result::Ok(c) => c,
            Result::Err(e) => {
                return Result::Err(e);
            },
        };
        Result::Ok(
            WeatherSnapshot {
                condition: Option::Some(condition),
                temperature: Option::Some(self.temp),
                feels_like: self.feels_like,
                temp_max: self.temp_max,
                temp_min: self.temp_min,
                dew_point: Option::None,
                precipitation: self.precipitation(),
                precipitation_chance: Option::None,
                clouds: self.clouds,
                humidity: self.humidity,
                visibility: self.visibility,
                wind_speed: self.wind_speed,
                pressure: self.pressure,
                uv_index: Option::None,
                air_quality_index: self.aqi,
                sunrise: self.sunrise,
                sunset: self.sunset,
            },
        )
    }
}

/// Whether two strings hold the same characters.
fn str_eq(a: &str, b: &str) -> (r: bool)
    ensures
        r == (a@ == b@),
{
    let x: String = a.to_owned();
    let y: String = b.to_owned();
    x == y
}

/// The condition named by a provider icon code, `None` for an unknown code.
pub open spec fn condition_from_icon_spec(icon: Seq<char>) -> Option<WeatherCondition> {
    if icon == "01d"@ || icon == "01n"@ {
        Option::Some(WeatherCondition::ClearSky)
    } else if icon == "02d"@ || icon == "02n"@ {
        Option::Some(WeatherCondition::FewClouds)
    } else if icon == "03d"@ || icon == "03n"@ {
        Option::Some(WeatherCondition::Clouds)
    } else if icon == "04d"@ || icon == "04n"@ {
        Option::Some(WeatherCondition::ManyClouds)
    } else if icon == "09d"@ || icon == "09n"@ {
        Option::Some(WeatherCondition::Rain)
    } else if icon == "10d"@ || icon == "10n"@ {
        Option::Some(WeatherCondition::HeavyRain)
    } else if icon == "11d"@ || icon == "11n"@ {
        Option::Some(WeatherCondition::Thunderstorm)
    } else if icon == "13d"@ || icon == "13n"@ {
        Option::Some(WeatherCondition::Snow)
    } else if icon == "50d"@ || icon == "50n"@ {
        Option::Some(WeatherCondition::Mist)
    } else {
        Option::None
    }
}

/// Maps a provider's two-digit-and-letter icon code to a condition.
pub fn condition_from_icon(icon: &str) -> (r: Option<WeatherCondition>)
    ensures
        r == condition_from_icon_spec(icon@),
{
    if str_eq(icon, "01d") || str_eq(icon, "01n") {
        Option::Some(WeatherCondition::ClearSky)
    } else if str_eq(icon, "02d") || str_eq(icon, "02n") {
        Option::Some(WeatherCondition::FewClouds)
    } else if str_eq(icon, "03d") || str_eq(icon, "03n") {
        Option::Some(WeatherCondition::Clouds)
    } else if str_eq(icon, "04d") || str_eq(icon, "04n") {
        Option::Some(WeatherCondition::ManyClouds)
    } else if str_eq(icon, "09d") || str_eq(icon, "09n") {
        Option::Some(WeatherCondition::Rain)
    } else if str_eq(icon, "10d") || str_eq(icon, "10n") {
        Option::Some(WeatherCondition::HeavyRain)
    } else if str_eq(icon, "11d") || str_eq(icon, "11n") {
        Option::Some(WeatherCondition::Thunderstorm)
    } else if str_eq(icon, "13d") || str_eq(icon, "13n") {
        Option::Some(WeatherCondition::Snow)
    } else if str_eq(icon, "50d") || str_eq(icon, "50n") {
        Option::Some(WeatherCondition::Mist)
    } else {
        Option::None
    }
}

/// The weather-provider selector for the full data source.
#[derive(Debug, PartialEq, Eq, Structural, Clone, Copy)]
pub struct OpenWeatherMap;

impl OpenWeatherMap {
    pub fn new() -> (r: Self)
        ensures
            r == OpenWeatherMap,
    {
        Self
    }
}

/// The provider selector for the fixed sample data source.
#[derive(Debug, PartialEq, Eq, Structural, Clone, Copy)]
pub struct OwmMock;

impl OwmMock {
    pub fn new() -> (r: Self)
        ensures
            r == OwmMock,
    {
        Self
    }
}

/// A minimal settings record: a city, a polling interval and the provider
/// key, handed in as plain values.
#[derive(Debug, Clone)]
pub struct Settings {
    pub city: String,
    pub interval: i32,
    pub weather_api_key: String,
}

impl Settings {
    pub fn new(city: String, interval: i32, weather_api_key: String) -> (r: Self)
        ensures
            r.city == city,
            r.interval == interval,
            r.weather_api_key == weather_api_key,
    {
        Settings { city, interval, weather_api_key }
    }
}

/// A one-line weather status: glyph, temperature reading and unit label.
#[derive(Debug, Clone)]
pub struct WeatherStatus {
    pub weather_condition: WeatherCondition,
    pub temperature: i64,
    pub unit: String,
}

/// The text of a status line: the condition's default glyph, the
/// temperature and the unit label, separated by single spaces.
pub open spec fn status_text(s: WeatherStatus) -> Seq<char> {
    resolve_icon(s.weather_condition, default_icon_table()) + " "@ + int_str(
        s.temperature as int,
    ) + " "@ + s.unit@
}

impl WeatherStatus {
    pub fn new(condition_icon: WeatherCondition, temperature: i64, unit: String) -> (r: Self)
        ensures
            r.weather_condition == condition_icon,
            r.temperature == temperature,
            r.unit == unit,
    {
        WeatherStatus { weather_condition: condition_icon, temperature, unit }
    }

    /// Renders the status line.
    pub fn to_string(&self) -> (r: String)
        requires
            self.temperature != i64::MIN,
        ensures
            r@ == status_text(*self),
    {
        let icons = Icons::default();
        let mut out = icons.resolve(&self.weather_condition);
        out.append(" ");
        let degrees = int_string(self.temperature);
        out.append(degrees.as_str());
        out.append(" ");
        out.append(self.unit.as_str());
        out
    }
}

/// A minimal report: one condition and one temperature, with a small
/// three-tag formatter of its own.
#[derive(Debug, Clone)]
pub struct Weather {
    pub weather_condition: WeatherCondition,
    pub kelvin: Kelvin,
}

/// What the small formatter produces: the icon tag is replaced by the
/// condition's default glyph, then exactly one temperature tag is
/// substituted; Fahrenheit wins over Kelvin, Kelvin over Celsius.
pub open spec fn weather_format_spec(
    c: WeatherCondition,
    k: int,
    template: Seq<char>,
) -> Seq<char> {
    let with_icon = replace_all(template, "<icon>"@, resolve_icon(c, default_icon_table()));
    if occurs(with_icon, "<temperature_fahrenheit>"@) {
        replace_all(
            with_icon,
            "<temperature_fahrenheit>"@,
            int_str(temperature_degrees(k, TemperatureUnit::Fahrenheit)),
        )
    } else if occurs(with_icon, "<temperature_kelvin>"@) {
        replace_all(
            with_icon,
            "<temperature_kelvin>"@,
            int_str(temperature_degrees(k, TemperatureUnit::Kelvin)),
        )
    } else {
        replace_all(
            with_icon,
            "<temperature_celsius>"@,
            int_str(temperature_degrees(k, TemperatureUnit::Celsius)),
        )
    }
}

impl Weather {
    pub fn new(weather_condition: WeatherCondition, kelvin: Kelvin) -> (r: Self)
        ensures
            r.weather_condition == weather_condition,
            r.kelvin == kelvin,
    {
        Weather { weather_condition, kelvin }
    }

    /// Substitutes the icon and one temperature tag into the template.
    pub fn format(&self, format: &String) -> (r: String)
        requires
            q_wf(self.kelvin.0 as int),
        ensures
            r@ == weather_format_spec(self.weather_condition, self.kelvin.0 as int, format@),
    {
        proof {
            reveal_strlit("<icon>");
            reveal_strlit("<temperature_fahrenheit>");
            reveal_strlit("<temperature_kelvin>");
            reveal_strlit("<temperature_celsius>");
        }
        let icons = Icons::default();
        let glyph = icons.resolve(&self.weather_condition);
        let with_icon = replace(format.as_str(), "<icon>", glyph.as_str());
        if contains(with_icon.as_str(), "<temperature_fahrenheit>") {
            let value = self.kelvin.convert(&TemperatureUnit::Fahrenheit);
            replace(with_icon.as_str(), "<temperature_fahrenheit>", value.as_str())
        } else if contains(with_icon.as_str(), "<temperature_kelvin>") {
            let value = self.kelvin.convert(&TemperatureUnit::Kelvin);
            replace(with_icon.as_str(), "<temperature_kelvin>", value.as_str())
        } else {
            let value = self.kelvin.convert(&TemperatureUnit::Celsius);
            replace(with_icon.as_str(), "<temperature_celsius>", value.as_str())
        }
    }
}

} // verus!
