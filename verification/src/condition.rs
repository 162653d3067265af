//! Canonical weather conditions and the numeric-code classifier.

use vstd::prelude::*;

verus! {

/// The closed set of canonical weather conditions. `RainSun` is synthetic:
/// it is only produced by combining a clear-sky report with a rain report.
#[derive(Debug, PartialEq, Eq, Structural, Clone, Copy)]
pub enum WeatherCondition {
    ClearSky,
    FewClouds,
    Clouds,
    ManyClouds,
    RainSun,
    Rain,
    HeavyRain,
    Thunderstorm,
    Snow,
    Mist,
}

/// Error for a provider condition code that matches no known family and
/// code combination.
#[derive(Debug, PartialEq, Eq, Structural, Clone, Copy)]
pub struct UndefinedCondition;

/// Message text for an undefined condition.
pub const UNDEFINED_CONDITION_MSG: &'static str = "Undefined weather condition";

impl UndefinedCondition {
    /// The error's message text.
    pub fn message(&self) -> (r: &'static str)
        ensures
            r@ == UNDEFINED_CONDITION_MSG@,
    {
        UNDEFINED_CONDITION_MSG
    }
}

/// The variant name of a condition.
pub open spec fn condition_name(c: WeatherCondition) -> Seq<char> {
    match c {
        WeatherCondition::ClearSky => "ClearSky"@,
        WeatherCondition::FewClouds => "FewClouds"@,
        WeatherCondition::Clouds => "Clouds"@,
        WeatherCondition::ManyClouds => "ManyClouds"@,
        WeatherCondition::RainSun => "RainSun"@,
        WeatherCondition::Rain => "Rain"@,
        WeatherCondition::HeavyRain => "HeavyRain"@,
        WeatherCondition::Thunderstorm => "Thunderstorm"@,
        WeatherCondition::Snow => "Snow"@,
        WeatherCondition::Mist => "Mist"@,
    }
}

/// The snake-case key of a condition, used to look up its icon.
pub open spec fn condition_key(c: WeatherCondition) -> Seq<char> {
    match c {
        WeatherCondition::ClearSky => "clear_sky"@,
        WeatherCondition::FewClouds => "few_clouds"@,
        WeatherCondition::Clouds => "clouds"@,
        WeatherCondition::ManyClouds => "many_clouds"@,
        WeatherCondition::RainSun => "rain_sun"@,
        WeatherCondition::Rain => "rain"@,
        WeatherCondition::HeavyRain => "heavy_rain"@,
        WeatherCondition::Thunderstorm => "thunderstorm"@,
        WeatherCondition::Snow => "snow"@,
        WeatherCondition::Mist => "mist"@,
    }
}

impl WeatherCondition {
    /// The variant name, the degenerate fallback glyph when no icon is
    /// configured.
    pub fn name(&self) -> (r: &'static str)
        ensures
            r@ == condition_name(*self),
    {
        match self {
            WeatherCondition::ClearSky => "ClearSky",
            WeatherCondition::FewClouds => "FewClouds",
            WeatherCondition::Clouds => "Clouds",
            WeatherCondition::ManyClouds => "ManyClouds",
            WeatherCondition::RainSun => "RainSun",
            WeatherCondition::Rain => "Rain",
            WeatherCondition::HeavyRain => "HeavyRain",
            WeatherCondition::Thunderstorm => "Thunderstorm",
            WeatherCondition::Snow => "Snow",
            WeatherCondition::Mist => "Mist",
        }
    }

    /// The snake-case icon-table key.
    pub fn key(&self) -> (r: &'static str)
        ensures
            r@ == condition_key(*self),
    {
        match self {
            WeatherCondition::ClearSky => "clear_sky",
            WeatherCondition::FewClouds => "few_clouds",
            WeatherCondition::Clouds => "clouds",
            WeatherCondition::ManyClouds => "many_clouds",
            WeatherCondition::RainSun => "rain_sun",
            WeatherCondition::Rain => "rain",
            WeatherCondition::HeavyRain => "heavy_rain",
            WeatherCondition::Thunderstorm => "thunderstorm",
            WeatherCondition::Snow => "snow",
            WeatherCondition::Mist => "mist",
        }
    }
}

/// The leading decimal digit of `n`, the condition family selector.
pub open spec fn leading_digit(n: nat) -> nat
    decreases n,
{
    if n < 10 {
        n
    } else {
        leading_digit(n / 10)
    }
}

/// The condition a single provider code classifies to, or `None` when the
/// code matches no known family and code combination.
pub open spec fn classify_code(code: int) -> Option<WeatherCondition> {
    if code < 0 {
        None
    } else {
        let family = leading_digit(code as nat);
        if family == 2 {
            Some(WeatherCondition::Thunderstorm)
        } else if family == 3 {
            if code == 300 || code == 301 || code == 310 {
                Some(WeatherCondition::Rain)
            } else if code == 302 || code == 311 || code == 312 || code == 313 || code == 314
                || code == 321 {
                Some(WeatherCondition::HeavyRain)
            } else {
                None
            }
        } else if family == 5 {
            if code == 500 || code == 520 {
                Some(WeatherCondition::Rain)
            } else if code == 501 || code == 502 || code == 503 || code == 504 || code == 511
                || code == 521 || code == 522 || code == 531 {
                Some(WeatherCondition::HeavyRain)
            } else {
                None
            }
        } else if family == 6 {
            Some(WeatherCondition::Snow)
        } else if family == 7 {
            Some(WeatherCondition::Mist)
        } else if family == 8 {
            if code == 800 {
                Some(WeatherCondition::ClearSky)
            } else if code == 801 {
                Some(WeatherCondition::FewClouds)
            } else if code == 802 {
                Some(WeatherCondition::Clouds)
            } else if code == 803 || code == 804 {
                Some(WeatherCondition::ManyClouds)
            } else {
                None
            }
        } else {
            None
        }
    }
}

/// The tie-break for two simultaneous reports: a clear-sky report combined
/// with a rain report becomes the synthetic `RainSun`; in every other case
/// the first report wins.
pub open spec fn combine_conditions(
    c1: WeatherCondition,
    c2: WeatherCondition,
) -> WeatherCondition {
    let sun = c1 == WeatherCondition::ClearSky || c2 == WeatherCondition::ClearSky;
    let rain = c1 == WeatherCondition::Rain || c2 == WeatherCondition::Rain || c1
        == WeatherCondition::HeavyRain || c2 == WeatherCondition::HeavyRain;
    if sun && rain {
        WeatherCondition::RainSun
    } else {
        c1
    }
}

/// What classifying a whole report comes to: the first code's condition for
/// a single report, the tie-broken combination for a double one, and an
/// error as soon as a considered code is unclassifiable.
pub open spec fn classify_codes_spec(codes: Seq<int>) -> Result<
    WeatherCondition,
    UndefinedCondition,
>
    recommends
        codes.len() >= 1,
{
    match classify_code(codes[0]) {
        None => Err(UndefinedCondition),
        Some(c1) => {
            if codes.len() > 1 {
                match classify_code(codes[1]) {
                    None => Err(UndefinedCondition),
                    Some(c2) => Ok(combine_conditions(c1, c2)),
                }
            } else {
                Ok(c1)
            }
        },
    }
}

/// Classifies one provider condition code.
pub fn classify(code: i32) -> (r: Result<WeatherCondition, UndefinedCondition>)
    ensures
        r == match classify_code(code as int) {
            Some(c) => Ok::<WeatherCondition, UndefinedCondition>(c),
            None => Err::<WeatherCondition, UndefinedCondition>(UndefinedCondition),
        },
{
    if code < 0 {
        return Err(UndefinedCondition);
    }
    let mut n: i32 = code;
    while n >= 10
        invariant
            0 <= n,
            leading_digit(code as nat) == leading_digit(n as nat),
        decreases n,
    {
        n = n / 10;
    }
    match n {
        2 => Ok(WeatherCondition::Thunderstorm),
        3 => match code {
            300 | 301 | 310 => Ok(WeatherCondition::Rain),
            302 | 311 | 312 | 313 | 314 | 321 => Ok(WeatherCondition::HeavyRain),
            _ => Err(UndefinedCondition),
        },
        5 => match code {
            500 | 520 => Ok(WeatherCondition::Rain),
            501 | 502 | 503 | 504 | 511 | 521 | 522 | 531 => Ok(WeatherCondition::HeavyRain),
            _ => Err(UndefinedCondition),
        },
        6 => Ok(WeatherCondition::Snow),
        7 => Ok(WeatherCondition::Mist),
        8 => match code {
            800 => Ok(WeatherCondition::ClearSky),
            801 => Ok(WeatherCondition::FewClouds),
            802 => Ok(WeatherCondition::Clouds),
            803 | 804 => Ok(WeatherCondition::ManyClouds),
            _ => Err(UndefinedCondition),
        },
        _ => Err(UndefinedCondition),
    }
}

/// Classifies a report of one or more simultaneous condition codes, reading
/// the first two. A clear-sky code together with a rain code gives the
/// synthetic `RainSun`; otherwise the first code's condition wins. Any
/// unclassifiable considered code surfaces as an error rather than a default.
pub fn classify_codes(codes: &Vec<i32>) -> (r: Result<WeatherCondition, UndefinedCondition>)
    requires
        codes@.len() >= 1,
    ensures
        r == classify_codes_spec(codes@.map_values(|c: i32| c as int)),
{
    let first = classify(codes[0]);
    match first {
        Err(e) => Err(e),
        Ok(c1) => {
            if codes.len() > 1 {
                match classify(codes[1]) {
                    Err(e) => Err(e),
                    Ok(c2) => {
                        let sun = c1 == WeatherCondition::ClearSky || c2
                            == WeatherCondition::ClearSky;
                        let rain = c1 == WeatherCondition::Rain || c2 == WeatherCondition::Rain
                            || c1 == WeatherCondition::HeavyRain || c2
                            == WeatherCondition::HeavyRain;
                        if sun && rain {
                            Ok(WeatherCondition::RainSun)
                        } else {
                            Ok(c1)
                        }
                    },
                }
            } else {
                Ok(c1)
            }
        },
    }
}

} // verus!
