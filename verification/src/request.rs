//! A forecast request: where, and whether the current weather is wanted;
//! the query it is written out as, and the URL to fetch.

use crate::decimal::{has_point_at, is_decimal, Coordinate};
use crate::locator::{parsed, resolve, resolved, UrlConstructionError};
use vstd::prelude::*;

verus! {

/// What a request holds, as plain values.
pub struct RequestView {
    /// The latitude, written out in decimal.
    pub lat: Seq<char>,
    /// The longitude, written out in decimal.
    pub lon: Seq<char>,
    /// Whether the current weather is wanted.
    pub currentweather: bool,
}

/// A request for a forecast at a place.
#[derive(Debug)]
pub struct WeatherRequest {
    lat: Coordinate,
    lon: Coordinate,
    currentweather: bool,
}

impl View for WeatherRequest {
    type V = RequestView;

    closed spec fn view(&self) -> RequestView {
        RequestView { lat: self.lat@, lon: self.lon@, currentweather: self.currentweather }
    }
}

/// The URL of the service, against which every query is resolved.
pub open spec fn base_text() -> Seq<char> {
    "https://api.open-meteo.com/v1/"@
}

/// How a flag is written in a query.
pub open spec fn flag_text(flag: bool) -> Seq<char> {
    if flag {
        "true"@
    } else {
        "false"@
    }
}

/// The relative reference that asks for `v`: the path of the forecast, then
/// latitude, longitude and the flag as the three parameters of the query.
pub open spec fn query_text(v: RequestView) -> Seq<char> {
    "forecast?latitude="@ + v.lat + "&longitude="@ + v.lon + "&current_weather="@ + flag_text(
        v.currentweather,
    )
}

/// The request that is used where nobody was asked: Berlin, with the
/// current weather.
pub open spec fn berlin() -> RequestView {
    RequestView { lat: "52.52"@, lon: "13.41"@, currentweather: true }
}

impl Default for WeatherRequest {
    fn default() -> (r: WeatherRequest)
        ensures
            r@ == berlin(),
    {
        let lat = Coordinate::from_reading(Some("52.52")).0;
        let lon = Coordinate::from_reading(Some("13.41")).0;
        proof {
            lemma_berlin_is_decimal();
        }
        WeatherRequest { lat, lon, currentweather: true }
    }
}

/// The two coordinates of Berlin are numbers written out in decimal.
proof fn lemma_berlin_is_decimal()
    ensures
        is_decimal("52.52"@),
        is_decimal("13.41"@),
{
    reveal_strlit("52.52");
    reveal_strlit("13.41");
    let a = "52.52"@;
    let b = "13.41"@;
    assert(has_point_at(a, 2)) by {
        assert(a.take(2) =~= seq!['5', '2']);
        assert(a.skip(3) =~= seq!['5', '2']);
    }
    assert(has_point_at(b, 2)) by {
        assert(b.take(2) =~= seq!['1', '3']);
        assert(b.skip(3) =~= seq!['4', '1']);
    }
}

impl WeatherRequest {
    /// Makes a request of its three parts.
    pub fn new(lat: Coordinate, lon: Coordinate, currentweather: bool) -> (r: WeatherRequest)
        ensures
            r@ == (RequestView { lat: lat@, lon: lon@, currentweather }),
    {
        WeatherRequest { lat, lon, currentweather }
    }

    /// The latitude of the request.
    pub fn lat(&self) -> (c: &Coordinate)
        ensures
            c@ == self@.lat,
    {
        &self.lat
    }

    /// The longitude of the request.
    pub fn lon(&self) -> (c: &Coordinate)
        ensures
            c@ == self@.lon,
    {
        &self.lon
    }

    /// Whether the request asks for the current weather.
    pub fn currentweather(&self) -> (flag: bool)
        ensures
            flag == self@.currentweather,
    {
        self.currentweather
    }

    /// Writes the request out as a relative reference: path and query.
    pub fn query(&self) -> (q: String)
        ensures
            q@ == query_text(self@),
    {
        let mut q = String::from_str("forecast?latitude=");
        q.append(self.lat.as_str());
        q.append("&longitude=");
        q.append(self.lon.as_str());
        q.append("&current_weather=");
        if self.currentweather {
            q.append("true");
        } else {
            q.append("false");
        }
        q
    }

    /// Returns the URL to fetch: the query of the request, resolved
    /// against the URL of the service.
    pub fn get_url(&self) -> (r: Result<String, UrlConstructionError>)
        ensures
            match r {
                Ok(url) => resolved(base_text(), query_text(self@)) == Some(url@),
                Err(UrlConstructionError::Base(_)) => parsed(base_text()) is None,
                Err(UrlConstructionError::Reference(_)) => parsed(base_text())
                    is Some && resolved(base_text(), query_text(self@)) is None,
            },
    {
        let query = self.query();
        resolve("https://api.open-meteo.com/v1/", query.as_str())
    }
}

} // verus!
