//! The request for a location's forecast.
use vstd::prelude::*;
use crate::bridge::{url_encode, url_encoded};
use crate::text::{trim, trimmed};

verus! {

/// The service's address.
pub open spec fn base_url_text() -> Seq<char> {
    "http://api.weatherapi.com/v1"@
}

/// The service's address.
pub fn base_url() -> (r: String)
    ensures
        r@ == base_url_text(),
{
    String::from_str("http://api.weatherapi.com/v1")
}

/// A location as it stands in a query: trimmed, then percent-encoded.
pub fn format_location(location: &str) -> (r: String)
    ensures
        r@ == url_encoded(trimmed(location@)),
{
    url_encode(trim(location))
}

/// The forecast query for one day at a location already encoded for a
/// query, without air quality or alerts.
pub open spec fn forecast_query_text(base: Seq<char>, api_key: Seq<char>, encoded: Seq<char>) -> Seq<
    char,
> {
    base + "/forecast.json?key="@ + api_key + "&q="@ + encoded + "&days=1&aqi=no&alerts=no"@
}

/// The forecast query for one day at a location already encoded for a
/// query, without air quality or alerts.
pub fn forecast_query(base: &str, api_key: &str, encoded: &str) -> (r: String)
    ensures
        r@ == forecast_query_text(base@, api_key@, encoded@),
{
    let mut r = String::from_str(base);
    r.append("/forecast.json?key=");
    r.append(api_key);
    r.append("&q=");
    r.append(encoded);
    r.append("&days=1&aqi=no&alerts=no");
    assert(r@ =~= forecast_query_text(base@, api_key@, encoded@));
    r
}

/// The forecast query for one day at `location`, without air quality or alerts.
pub fn forecast_url(base: &str, api_key: &str, location: &str) -> (r: String)
    ensures
        r@ == forecast_query_text(base@, api_key@, url_encoded(trimmed(location@))),
{
    forecast_query(base, api_key, format_location(location).as_str())
}

} // verus!
