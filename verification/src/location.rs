//! Locations and the location-provider selectors.

use vstd::prelude::*;

verus! {

/// A place the weather is reported for. Coordinates are stored in ten
/// millionths of a degree, the precision at which two locations are
/// considered the same.
#[derive(Debug, Clone)]
pub struct Location {
    pub city: Option<String>,
    pub lat: i64,
    pub lon: i64,
}

/// What location equality means: same city name and coordinates equal at
/// the stored ten-millionth-of-a-degree precision.
pub open spec fn location_eq(a: Location, b: Location) -> bool {
    &&& match (a.city, b.city) {
        (Option::None, Option::None) => true,
        (Option::Some(x), Option::Some(y)) => x@ == y@,
        _ => false,
    }
    &&& a.lat == b.lat
    &&& a.lon == b.lon
}

impl PartialEq for Location {
    fn eq(&self, other: &Self) -> (r: bool) {
        let cities_equal = match (&self.city, &other.city) {
            (Option::None, Option::None) => true,
            (Option::Some(x), Option::Some(y)) => *x == *y,
            _ => false,
        };
        cities_equal && self.lat == other.lat && self.lon == other.lon
    }
}

impl vstd::std_specs::cmp::PartialEqSpecImpl for Location {
    open spec fn obeys_eq_spec() -> bool {
        true
    }

    open spec fn eq_spec(&self, other: &Self) -> bool {
        location_eq(*self, *other)
    }
}

impl Default for Location {
    fn default() -> (r: Self)
        ensures
            r.city is None,
            r.lat == 0,
            r.lon == 0,
    {
        Location { city: None, lat: 0, lon: 0 }
    }
}

/// Selector for the source of the current location.
#[derive(Debug, PartialEq, Eq, Structural, Clone, Copy)]
pub enum LocationProvider {
    IpApi,
    Manual,
}

impl Default for LocationProvider {
    fn default() -> (r: Self)
        ensures
            r == LocationProvider::IpApi,
    {
        LocationProvider::IpApi
    }
}

/// The IP-geolocation provider. The lookup itself is an HTTP call and lives
/// with the unverified edge of the program; the selector is plain data.
#[derive(Debug, PartialEq, Eq, Structural, Clone, Copy)]
pub struct IpApi;

impl IpApi {
    pub fn new() -> (r: Self)
        ensures
            r == IpApi,
    {
        Self
    }
}

/// A location provider that is configured but not implemented.
#[derive(Debug, PartialEq, Eq, Structural, Clone, Copy)]
pub struct Geoclue {}

/// The manually configured location provider: it always reports the one
/// location it was built with.
#[derive(Debug, Clone)]
pub struct Manual {
    pub location: Location,
}

impl Manual {
    pub fn new(location: Location) -> (r: Self)
        ensures
            r.location == location,
    {
        Self { location }
    }

    /// The configured location, the provider's constant answer.
    pub fn location(&self) -> (r: &Location)
        ensures
            *r == self.location,
    {
        &self.location
    }
}

} // verus!
