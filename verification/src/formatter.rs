//! The template formatter: binds every snapshot field to a `<tag>` and
//! substitutes the tags into the user's format string.

use vstd::prelude::*;
use vstd::string::*;

use crate::condition::WeatherCondition;
use crate::config::Config;
use crate::icons::{resolve_icon, Icons};
use crate::location::Location;
use crate::num::{int_str, tenths_str, thousandths_str};
use crate::quantities::{
    distance_tenths, plain_rounded, precipitation_thousandths, q_wf, temperature_degrees,
    wind_speed_tenths, Aqi, Convert, Hpa, Kelvin, Meter, Millimeter, Ms, Percentage, Uvi,
};
use crate::text::{lemma_replace_absent, occurs, replace, replace_all};
use crate::units::{DistanceUnit, PrecipitationUnit, TemperatureUnit, Units, WindSpeedUnit};
use crate::weather::WeatherSnapshot;

verus! {

/// The sentinel bound to every tag whose datum is absent, so templates keep
/// a stable placeholder instead of an empty hole.
pub open spec fn na() -> Seq<char> {
    "N/A"@
}

/// The text bound to the city tag.
pub open spec fn city_binding(loc: Location) -> Seq<char> {
    match loc.city {
        Option::Some(c) => c@,
        Option::None => na(),
    }
}

/// The text bound to the icon tag: the resolved glyph, or the sentinel when
/// the snapshot has no classifiable condition.
pub open spec fn icon_binding(
    cond: Option<WeatherCondition>,
    table: Seq<(Seq<char>, Seq<char>)>,
) -> Seq<char> {
    match cond {
        Option::Some(c) => resolve_icon(c, table),
        Option::None => na(),
    }
}

/// The text bound to a temperature tag.
pub open spec fn temperature_binding(v: Option<Kelvin>, u: TemperatureUnit) -> Seq<char> {
    match v {
        Option::Some(k) => int_str(temperature_degrees(k.0 as int, u)),
        Option::None => na(),
    }
}

/// The text bound to the precipitation tag.
pub open spec fn precipitation_binding(v: Option<Millimeter>, u: PrecipitationUnit) -> Seq<
    char,
> {
    match v {
        Option::Some(m) => thousandths_str(precipitation_thousandths(m.0 as int, u)),
        Option::None => na(),
    }
}

/// The text bound to the visibility tag.
pub open spec fn distance_binding(v: Option<Meter>, u: DistanceUnit) -> Seq<char> {
    match v {
        Option::Some(m) => tenths_str(distance_tenths(m.0 as int, u)),
        Option::None => na(),
    }
}

/// The text bound to the wind-speed tag.
pub open spec fn wind_binding(v: Option<Ms>, u: WindSpeedUnit) -> Seq<char> {
    match v {
        Option::Some(m) => tenths_str(wind_speed_tenths(m.0 as int, u)),
        Option::None => na(),
    }
}

/// The text bound to a percentage tag.
pub open spec fn percentage_binding(v: Option<Percentage>) -> Seq<char> {
    match v {
        Option::Some(p) => plain_rounded(p.0 as int),
        Option::None => na(),
    }
}

/// The text bound to the pressure tag.
pub open spec fn hpa_binding(v: Option<Hpa>) -> Seq<char> {
    match v {
        Option::Some(p) => plain_rounded(p.0 as int),
        Option::None => na(),
    }
}

/// The text bound to the ultraviolet-index tag.
pub open spec fn uvi_binding(v: Option<Uvi>) -> Seq<char> {
    match v {
        Option::Some(p) => plain_rounded(p.0 as int),
        Option::None => na(),
    }
}

/// The text bound to the air-quality-index tag.
pub open spec fn aqi_binding(v: Option<Aqi>) -> Seq<char> {
    match v {
        Option::Some(p) => plain_rounded(p.0 as int),
        Option::None => na(),
    }
}

/// The text bound to a sunrise or sunset tag, given the rendered clock text.
pub open spec fn time_binding(t: Option<Seq<char>>) -> Seq<char> {
    match t {
        Option::Some(s) => s,
        Option::None => na(),
    }
}

/// What one formatting pass produces: every tag replaced in turn by its
/// binding, absent data by the sentinel, unknown tags left untouched. The
/// order is fixed but immaterial: the angle brackets keep any tag from being
/// a proper substring of another.
pub open spec fn format_spec(
    template: Seq<char>,
    s: WeatherSnapshot,
    loc: Location,
    u: Units,
    table: Seq<(Seq<char>, Seq<char>)>,
    sunrise: Option<Seq<char>>,
    sunset: Option<Seq<char>>,
) -> Seq<char> {
    let t1 = replace_all(template, "<city>"@, city_binding(loc));
    let t2 = replace_all(t1, "<icon>"@, icon_binding(s.condition, table));
    let t3 = replace_all(t2, "<temperature>"@, temperature_binding(s.temperature, u.temperature));
    let t4 = replace_all(
        t3,
        "<temperature_feels_like>"@,
        temperature_binding(s.feels_like, u.temperature),
    );
    let t5 = replace_all(
        t4,
        "<temperature_max>"@,
        temperature_binding(s.temp_max, u.temperature),
    );
    let t6 = replace_all(
        t5,
        "<temperature_min>"@,
        temperature_binding(s.temp_min, u.temperature),
    );
    let t7 = replace_all(t6, "<dew_point>"@, temperature_binding(s.dew_point, u.temperature));
    let t8 = replace_all(
        t7,
        "<precipitation>"@,
        precipitation_binding(s.precipitation, u.precipitation),
    );
    let t9 = replace_all(
        t8,
        "<precipitation_chance>"@,
        percentage_binding(s.precipitation_chance),
    );
    let t10 = replace_all(t9, "<clouds>"@, percentage_binding(s.clouds));
    let t11 = replace_all(t10, "<humidity>"@, percentage_binding(s.humidity));
    let t12 = replace_all(t11, "<visibility>"@, distance_binding(s.visibility, u.distance));
    let t13 = replace_all(t12, "<wind_speed>"@, wind_binding(s.wind_speed, u.wind_speed));
    let t14 = replace_all(t13, "<pressure>"@, hpa_binding(s.pressure));
    let t15 = replace_all(t14, "<uv_index>"@, uvi_binding(s.uv_index));
    let t16 = replace_all(t15, "<air_quality_index>"@, aqi_binding(s.air_quality_index));
    let t17 = replace_all(t16, "<sunrise>"@, time_binding(sunrise));
    let t18 = replace_all(t17, "<sunset>"@, time_binding(sunset));
    t18
}

/// The sentinel as a value.
fn na_string() -> (r: String)
    ensures
        r@ == na(),
{
    String::from_str("N/A")
}

/// Renders the city binding.
fn city_text(city: &Option<String>) -> (r: String)
    ensures
        r@ == match *city {
            Option::Some(c) => c@,
            Option::None => na(),
        },
{
    match city {
        Option::Some(c) => c.clone(),
        Option::None => na_string(),
    }
}

/// Renders the icon binding.
fn icon_text(cond: &Option<WeatherCondition>, icons: &Icons) -> (r: String)
    ensures
        r@ == icon_binding(*cond, icons@),
{
    match cond {
        Option::Some(c) => icons.resolve(c),
        Option::None => na_string(),
    }
}

/// Renders a temperature binding.
fn temperature_text(v: &Option<Kelvin>, u: &TemperatureUnit) -> (r: String)
    requires
        match *v {
            Option::Some(k) => q_wf(k.0 as int),
            Option::None => true,
        },
    ensures
        r@ == temperature_binding(*v, *u),
{
    match v {
        Option::Some(k) => k.convert(u),
        Option::None => na_string(),
    }
}

/// Renders the precipitation binding.
fn precipitation_text(v: &Option<Millimeter>, u: &PrecipitationUnit) -> (r: String)
    requires
        match *v {
            Option::Some(m) => q_wf(m.0 as int),
            Option::None => true,
        },
    ensures
        r@ == precipitation_binding(*v, *u),
{
    match v {
        Option::Some(m) => m.convert(u),
        Option::None => na_string(),
    }
}

/// Renders the visibility binding.
fn distance_text(v: &Option<Meter>, u: &DistanceUnit) -> (r: String)
    requires
        match *v {
            Option::Some(m) => q_wf(m.0 as int),
            Option::None => true,
        },
    ensures
        r@ == distance_binding(*v, *u),
{
    match v {
        Option::Some(m) => m.convert(u),
        Option::None => na_string(),
    }
}

/// Renders the wind-speed binding.
fn wind_text(v: &Option<Ms>, u: &WindSpeedUnit) -> (r: String)
    requires
        match *v {
            Option::Some(m) => q_wf(m.0 as int),
            Option::None => true,
        },
    ensures
        r@ == wind_binding(*v, *u),
{
    match v {
        Option::Some(m) => m.convert(u),
        Option::None => na_string(),
    }
}

/// Renders a percentage binding.
fn percentage_text(v: &Option<Percentage>) -> (r: String)
    requires
        match *v {
            Option::Some(p) => q_wf(p.0 as int),
            Option::None => true,
        },
    ensures
        r@ == percentage_binding(*v),
{
    match v {
        Option::Some(p) => p.text(),
        Option::None => na_string(),
    }
}

/// Renders the pressure binding.
fn hpa_text(v: &Option<Hpa>) -> (r: String)
    requires
        match *v {
            Option::Some(p) => q_wf(p.0 as int),
            Option::None => true,
        },
    ensures
        r@ == hpa_binding(*v),
{
    match v {
        Option::Some(p) => p.text(),
        Option::None => na_string(),
    }
}

/// Renders the ultraviolet-index binding.
fn uvi_text(v: &Option<Uvi>) -> (r: String)
    requires
        match *v {
            Option::Some(p) => q_wf(p.0 as int),
            Option::None => true,
        },
    ensures
        r@ == uvi_binding(*v),
{
    match v {
        Option::Some(p) => p.text(),
        Option::None => na_string(),
    }
}

/// Renders the air-quality-index binding.
fn aqi_text(v: &Option<Aqi>) -> (r: String)
    requires
        match *v {
            Option::Some(p) => q_wf(p.0 as int),
            Option::None => true,
        },
    ensures
        r@ == aqi_binding(*v),
{
    match v {
        Option::Some(p) => p.text(),
        Option::None => na_string(),
    }
}

/// The character sequences of an optional clock text.
pub open spec fn opt_view(o: Option<String>) -> Option<Seq<char>> {
    match o {
        Option::Some(s) => Option::Some(s@),
        Option::None => Option::None,
    }
}

/// Renders a sunrise or sunset binding.
fn time_text(t: &Option<String>) -> (r: String)
    ensures
        r@ == time_binding(opt_view(*t)),
{
    match t {
        Option::Some(s) => s.clone(),
        Option::None => na_string(),
    }
}

/// Substitutes every known tag in `template`: present data through the unit
/// conversions, absent data as the sentinel, unknown tags left untouched.
/// The clock texts for sunrise and sunset are handed in already rendered.
pub fn format_status(
    template: &str,
    snapshot: &WeatherSnapshot,
    location: &Location,
    units: &Units,
    icons: &Icons,
    sunrise_text: Option<String>,
    sunset_text: Option<String>,
) -> (r: String)
    requires
        snapshot.wf(),
    ensures
        r@ == format_spec(
            template@,
            *snapshot,
            *location,
            *units,
            icons@,
            opt_view(sunrise_text),
            opt_view(sunset_text),
        ),
{
    proof {
        reveal_strlit("<city>");
        reveal_strlit("<icon>");
        reveal_strlit("<temperature>");
        reveal_strlit("<temperature_feels_like>");
        reveal_strlit("<temperature_max>");
        reveal_strlit("<temperature_min>");
        reveal_strlit("<dew_point>");
        reveal_strlit("<precipitation>");
        reveal_strlit("<precipitation_chance>");
        reveal_strlit("<clouds>");
        reveal_strlit("<humidity>");
        reveal_strlit("<visibility>");
        reveal_strlit("<wind_speed>");
        reveal_strlit("<pressure>");
        reveal_strlit("<uv_index>");
        reveal_strlit("<air_quality_index>");
        reveal_strlit("<sunrise>");
        reveal_strlit("<sunset>");
    }
    let v1 = city_text(&location.city);
    let t1 = replace(template, "<city>", v1.as_str());
    let v2 = icon_text(&snapshot.condition, icons);
    let t2 = replace(t1.as_str(), "<icon>", v2.as_str());
    let v3 = temperature_text(&snapshot.temperature, &units.temperature);
    let t3 = replace(t2.as_str(), "<temperature>", v3.as_str());
    let v4 = temperature_text(&snapshot.feels_like, &units.temperature);
    let t4 = replace(t3.as_str(), "<temperature_feels_like>", v4.as_str());
    let v5 = temperature_text(&snapshot.temp_max, &units.temperature);
    let t5 = replace(t4.as_str(), "<temperature_max>", v5.as_str());
    let v6 = temperature_text(&snapshot.temp_min, &units.temperature);
    let t6 = replace(t5.as_str(), "<temperature_min>", v6.as_str());
    let v7 = temperature_text(&snapshot.dew_point, &units.temperature);
    let t7 = replace(t6.as_str(), "<dew_point>", v7.as_str());
    let v8 = precipitation_text(&snapshot.precipitation, &units.precipitation);
    let t8 = replace(t7.as_str(), "<precipitation>", v8.as_str());
    let v9 = percentage_text(&snapshot.precipitation_chance);
    let t9 = replace(t8.as_str(), "<precipitation_chance>", v9.as_str());
    let v10 = percentage_text(&snapshot.clouds);
    let t10 = replace(t9.as_str(), "<clouds>", v10.as_str());
    let v11 = percentage_text(&snapshot.humidity);
    let t11 = replace(t10.as_str(), "<humidity>", v11.as_str());
    let v12 = distance_text(&snapshot.visibility, &units.distance);
    let t12 = replace(t11.as_str(), "<visibility>", v12.as_str());
    let v13 = wind_text(&snapshot.wind_speed, &units.wind_speed);
    let t13 = replace(t12.as_str(), "<wind_speed>", v13.as_str());
    let v14 = hpa_text(&snapshot.pressure);
    let t14 = replace(t13.as_str(), "<pressure>", v14.as_str());
    let v15 = uvi_text(&snapshot.uv_index);
    let t15 = replace(t14.as_str(), "<uv_index>", v15.as_str());
    let v16 = aqi_text(&snapshot.air_quality_index);
    let t16 = replace(t15.as_str(), "<air_quality_index>", v16.as_str());
    let v17 = time_text(&sunrise_text);
    let t17 = replace(t16.as_str(), "<sunrise>", v17.as_str());
    let v18 = time_text(&sunset_text);
    let t18 = replace(t17.as_str(), "<sunset>", v18.as_str());
    t18
}

/// Whether a character is a decimal digit.
pub open spec fn spec_is_digit(c: char) -> bool {
    '0' <= c && c <= '9'
}

/// The shape of a rendered clock reading: five characters `HH:MM`.
pub open spec fn hhmm_shape(s: Seq<char>) -> bool {
    s.len() == 5 && spec_is_digit(s[0]) && spec_is_digit(s[1]) && s[2] == ':' && spec_is_digit(
        s[3],
    ) && spec_is_digit(s[4])
}

/// Relies on chrono's `DateTime::from_timestamp`, `with_timezone(&Local)`
/// and `format("%H:%M")`: `%H` and `%M` are zero-padded two-digit fields,
/// so the rendered text is five characters `HH:MM` in the machine's local
/// time; `None` when the timestamp lies outside chrono's range.
#[verifier::external_body]
fn local_time_hhmm(unix: i64) -> (r: Option<String>)
    ensures
        match r {
            Option::Some(s) => hhmm_shape(s@),
            Option::None => true,
        },
{
    match chrono::DateTime::from_timestamp(unix, 0) {
        Some(utc) => Some(utc.with_timezone(&chrono::Local).format("%H:%M").to_string()),
        None => None,
    }
}

/// How an optional clock text may relate to the timestamp it renders: no
/// text without a timestamp; with one, either a well-shaped reading or
/// nothing (when the clock library declined the timestamp).
pub open spec fn time_text_ok(ts: Option<i64>, t: Option<Seq<char>>) -> bool {
    match (ts, t) {
        (Option::None, Option::None) => true,
        (Option::Some(_), Option::None) => true,
        (Option::Some(_), Option::Some(s)) => hhmm_shape(s),
        (Option::None, Option::Some(_)) => false,
    }
}

/// A formatting pass: one configuration, one location, one snapshot.
#[derive(Debug)]
pub struct Formatter {
    pub config: Config,
    pub location: Location,
    pub weather: WeatherSnapshot,
}

impl Formatter {
    pub fn new(config: Config, location: Location, weather: WeatherSnapshot) -> (r: Self)
        ensures
            r.config == config,
            r.location == location,
            r.weather == weather,
    {
        Self { config, location, weather }
    }

    /// Renders the configured template for this snapshot. The sunrise and
    /// sunset readings come from the clock library, so the contract fixes
    /// everything except which well-shaped clock texts they are.
    pub fn format(&self) -> (r: String)
        requires
            self.weather.wf(),
        ensures
            exists|sr: Option<Seq<char>>, ss: Option<Seq<char>>|
                {
                    &&& #[trigger] time_text_ok(self.weather.sunrise, sr)
                    &&& #[trigger] time_text_ok(self.weather.sunset, ss)
                    &&& r@ == format_spec(
                        self.config.format.0@,
                        self.weather,
                        self.location,
                        self.config.units,
                        self.config.icons@,
                        sr,
                        ss,
                    )
                },
    {
        let sunrise_text: Option<String> = match self.weather.sunrise {
            Option::Some(ts) => local_time_hhmm(ts),
            Option::None => Option::None,
        };
        let sunset_text: Option<String> = match self.weather.sunset {
            Option::Some(ts) => local_time_hhmm(ts),
            Option::None => Option::None,
        };
        let ghost g_sr = opt_view(sunrise_text);
        let ghost g_ss = opt_view(sunset_text);
        let r = format_status(
            self.config.format.0.as_str(),
            &self.weather,
            &self.location,
            &self.config.units,
            &self.config.icons,
            sunrise_text,
            sunset_text,
        );
        proof {
            assert(time_text_ok(self.weather.sunrise, g_sr));
            assert(time_text_ok(self.weather.sunset, g_ss));
        }
        r
    }
}

/// Formatting twice with identical inputs yields identical output: the
/// formatter is a function of its inputs, with no hidden state.
pub proof fn lemma_format_deterministic(
    template: Seq<char>,
    s: WeatherSnapshot,
    loc: Location,
    u: Units,
    table: Seq<(Seq<char>, Seq<char>)>,
    sunrise: Option<Seq<char>>,
    sunset: Option<Seq<char>>,
    r1: Seq<char>,
    r2: Seq<char>,
)
    requires
        r1 == format_spec(template, s, loc, u, table, sunrise, sunset),
        r2 == format_spec(template, s, loc, u, table, sunrise, sunset),
    ensures
        r1 == r2,
{
}

/// A template that is exactly the feels-like tag renders as the sentinel
/// whenever the snapshot's feels-like temperature is absent, whatever the
/// other fields, units, icon table and clock texts hold.
pub proof fn lemma_feels_like_absent(
    s: WeatherSnapshot,
    loc: Location,
    u: Units,
    table: Seq<(Seq<char>, Seq<char>)>,
    sunrise: Option<Seq<char>>,
    sunset: Option<Seq<char>>,
)
    requires
        s.feels_like is None,
    ensures
        format_spec(
            "<temperature_feels_like>"@,
            s,
            loc,
            u,
            table,
            sunrise,
            sunset,
        ) == na(),
{
    reveal_strlit("<city>");
    reveal_strlit("<icon>");
    reveal_strlit("<temperature>");
    reveal_strlit("<temperature_feels_like>");
    reveal_strlit("<temperature_max>");
    reveal_strlit("<temperature_min>");
    reveal_strlit("<dew_point>");
    reveal_strlit("<precipitation>");
    reveal_strlit("<precipitation_chance>");
    reveal_strlit("<clouds>");
    reveal_strlit("<humidity>");
    reveal_strlit("<visibility>");
    reveal_strlit("<wind_speed>");
    reveal_strlit("<pressure>");
    reveal_strlit("<uv_index>");
    reveal_strlit("<air_quality_index>");
    reveal_strlit("<sunrise>");
    reveal_strlit("<sunset>");
    reveal_strlit("N/A");
    let t = "<temperature_feels_like>"@;
    assert(!occurs(t, "<city>"@)) by {
        assert forall|i: int|
            0 <= i && i + "<city>"@.len() <= t.len() implies #[trigger] t.subrange(
            i,
            i + "<city>"@.len() as int,
        ) != "<city>"@ by {
            if t.subrange(i, i + "<city>"@.len() as int) == "<city>"@ {
                assert(t.subrange(i, i + "<city>"@.len() as int)[0] == t[i]);
                assert(t.subrange(i, i + "<city>"@.len() as int)[1] == t[i + 1]);
                assert(false);
            }
        }
    };
    lemma_replace_absent(t, "<city>"@, city_binding(loc));
    assert(!occurs(t, "<icon>"@)) by {
        assert forall|i: int|
            0 <= i && i + "<icon>"@.len() <= t.len() implies #[trigger] t.subrange(
            i,
            i + "<icon>"@.len() as int,
        ) != "<icon>"@ by {
            if t.subrange(i, i + "<icon>"@.len() as int) == "<icon>"@ {
                assert(t.subrange(i, i + "<icon>"@.len() as int)[0] == t[i]);
                assert(t.subrange(i, i + "<icon>"@.len() as int)[1] == t[i + 1]);
                assert(false);
            }
        }
    };
    lemma_replace_absent(t, "<icon>"@, icon_binding(s.condition, table));
    assert(!occurs(t, "<temperature>"@)) by {
        assert forall|i: int|
            0 <= i && i + "<temperature>"@.len() <= t.len() implies #[trigger] t.subrange(
            i,
            i + "<temperature>"@.len() as int,
        ) != "<temperature>"@ by {
            if t.subrange(i, i + "<temperature>"@.len() as int) == "<temperature>"@ {
                assert(t.subrange(i, i + "<temperature>"@.len() as int)[0] == t[i]);
                assert(t.subrange(i, i + "<temperature>"@.len() as int)[12] == t[i + 12]);
                assert(false);
            }
        }
    };
    lemma_replace_absent(t, "<temperature>"@, temperature_binding(s.temperature, u.temperature));
    assert(t.subrange(0, t.len() as int) =~= t);
    assert(t.skip(t.len() as int) =~= Seq::<char>::empty());
    assert(replace_all(t, t, na()) == na() + replace_all(
        Seq::<char>::empty(),
        t,
        na(),
    ));
    assert(na() + Seq::<char>::empty() =~= na());
    assert(na().len() == 3);
    lemma_absent_in_sentinel("<temperature_max>"@);
    lemma_replace_absent(na(), "<temperature_max>"@, temperature_binding(
        s.temp_max,
        u.temperature,
    ));
    lemma_absent_in_sentinel("<temperature_min>"@);
    lemma_replace_absent(na(), "<temperature_min>"@, temperature_binding(
        s.temp_min,
        u.temperature,
    ));
    lemma_absent_in_sentinel("<dew_point>"@);
    lemma_replace_absent(na(), "<dew_point>"@, temperature_binding(s.dew_point, u.temperature));
    lemma_absent_in_sentinel("<precipitation>"@);
    lemma_replace_absent(na(), "<precipitation>"@, precipitation_binding(
        s.precipitation,
        u.precipitation,
    ));
    lemma_absent_in_sentinel("<precipitation_chance>"@);
    lemma_replace_absent(na(), "<precipitation_chance>"@, percentage_binding(
        s.precipitation_chance,
    ));
    lemma_absent_in_sentinel("<clouds>"@);
    lemma_replace_absent(na(), "<clouds>"@, percentage_binding(s.clouds));
    lemma_absent_in_sentinel("<humidity>"@);
    lemma_replace_absent(na(), "<humidity>"@, percentage_binding(s.humidity));
    lemma_absent_in_sentinel("<visibility>"@);
    lemma_replace_absent(na(), "<visibility>"@, distance_binding(s.visibility, u.distance));
    lemma_absent_in_sentinel("<wind_speed>"@);
    lemma_replace_absent(na(), "<wind_speed>"@, wind_binding(s.wind_speed, u.wind_speed));
    lemma_absent_in_sentinel("<pressure>"@);
    lemma_replace_absent(na(), "<pressure>"@, hpa_binding(s.pressure));
    lemma_absent_in_sentinel("<uv_index>"@);
    lemma_replace_absent(na(), "<uv_index>"@, uvi_binding(s.uv_index));
    lemma_absent_in_sentinel("<air_quality_index>"@);
    lemma_replace_absent(na(), "<air_quality_index>"@, aqi_binding(s.air_quality_index));
    lemma_absent_in_sentinel("<sunrise>"@);
    lemma_replace_absent(na(), "<sunrise>"@, time_binding(sunrise));
    lemma_absent_in_sentinel("<sunset>"@);
    lemma_replace_absent(na(), "<sunset>"@, time_binding(sunset));
}

/// The tag wrapping keeps a tag from being a proper substring of another:
/// for the two families that share a prefix, the shorter tag's closing
/// bracket falls where the longer tag continues, so replacing the shorter
/// tag first can never eat into the longer one.
pub proof fn lemma_prefix_tags_are_not_substrings()
    ensures
        !occurs("<temperature_feels_like>"@, "<temperature>"@),
        !occurs("<temperature_max>"@, "<temperature>"@),
        !occurs("<temperature_min>"@, "<temperature>"@),
        !occurs("<precipitation_chance>"@, "<precipitation>"@),
{
    reveal_strlit("<temperature>");
    reveal_strlit("<temperature_feels_like>");
    reveal_strlit("<temperature_max>");
    reveal_strlit("<temperature_min>");
    reveal_strlit("<precipitation>");
    reveal_strlit("<precipitation_chance>");
    lemma_no_bracketed_match("<temperature_feels_like>"@, "<temperature>"@);
    lemma_no_bracketed_match("<temperature_max>"@, "<temperature>"@);
    lemma_no_bracketed_match("<temperature_min>"@, "<temperature>"@);
    lemma_no_bracketed_match("<precipitation_chance>"@, "<precipitation>"@);
}

/// A pattern that opens with `<`, closes with `>` and shares its interior
/// with the start of `s` cannot occur in `s` when `s` opens with its only
/// `<` and continues past the shared prefix with something other than `>`.
proof fn lemma_no_bracketed_match(s: Seq<char>, pat: Seq<char>)
    requires
        2 <= pat.len() <= s.len(),
        forall|i: int| 1 <= i < s.len() ==> s[i] != '<',
        pat[0] == '<',
        s[pat.len() - 1] != pat[pat.len() - 1],
    ensures
        !occurs(s, pat),
{
    assert forall|i: int|
        0 <= i && i + pat.len() <= s.len() implies #[trigger] s.subrange(
        i,
        i + pat.len() as int,
    ) != pat by {
        if s.subrange(i, i + pat.len() as int) == pat {
            assert(s.subrange(i, i + pat.len() as int)[0] == s[i]);
            if i == 0 {
                assert(s.subrange(i, i + pat.len() as int)[pat.len() - 1] == s[pat.len() - 1]);
            }
            assert(false);
        }
    }
}

/// No tag longer than the three-character sentinel can occur in it.
proof fn lemma_absent_in_sentinel(pat: Seq<char>)
    requires
        pat.len() > 3,
    ensures
        !occurs(na(), pat),
{
    reveal_strlit("N/A");
}

} // verus!
