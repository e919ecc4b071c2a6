//! The weather client: holds the caller's API key, renders the provider's
//! request URLs, and interprets materialized responses.
//!
//! The client does not perform network I/O itself.  A caller (or an outer
//! transport layer) issues the HTTP GET for one of the rendered URLs with
//! the API key attached under the provider's header, and hands the resulting
//! status code and body text to `process_payload`.

use vstd::prelude::*;
use vstd::string::*;

use crate::interpret::LocalityWeatherData;
use crate::interpret::WeatherResponseError;
use crate::interpret::interpret_model;
use crate::interpret::interpret_response;
use crate::interpret::result_model;

verus! {

/// The name of the request header that carries the API key.
pub fn api_key_header() -> (r: &'static str)
    ensures
        r@ == "x-zomato-api-key"@,
{
    "x-zomato-api-key"
}

/// The URL of the coordinate-keyed weather endpoint, for latitude and
/// longitude values already rendered as decimal text.
pub fn weather_data_url(latitude: &str, longitude: &str) -> (r: String)
    ensures
        r@ == "https://www.weatherunion.com/gw/weather/external/v0/get_weather_data?latitude="@
            + latitude@ + "&longitude="@ + longitude@,
{
    let s = "https://www.weatherunion.com/gw/weather/external/v0/get_weather_data?latitude=".to_owned();
    let s = s.concat(latitude);
    let s = s.concat("&longitude=");
    s.concat(longitude)
}

/// The URL of the locality-keyed weather endpoint.
pub fn locality_weather_url(locality_id: &str) -> (r: String)
    ensures
        r@
            == "https://www.weatherunion.com/gw/weather/external/v0/get_locality_weather_data?locality_id="@
            + locality_id@,
{
    let s =
        "https://www.weatherunion.com/gw/weather/external/v0/get_locality_weather_data?locality_id=".to_owned();
    s.concat(locality_id)
}

/// A client for the provider: an API key, stored verbatim and attached to
/// every request by the surrounding transport layer.
pub struct WeatherUnion {
    api_key: String,
}

impl View for WeatherUnion {
    type V = Seq<char>;

    closed spec fn view(&self) -> Seq<char> {
        self.api_key@
    }
}

impl WeatherUnion {
    /// Builds a client from an API key.  The key is stored verbatim, not
    /// validated.
    pub fn from_key(key: String) -> (r: WeatherUnion)
        ensures
            r@ == key@,
    {
        WeatherUnion { api_key: key }
    }

    /// The stored API key, for the transport layer to attach as a header.
    pub fn api_key(&self) -> (r: &str)
        ensures
            r@ == self@,
    {
        self.api_key.as_str()
    }

    /// Interprets one materialized response for this client.
    pub fn process_payload(&self, status: u16, body: &str) -> (r: Result<
        LocalityWeatherData,
        WeatherResponseError,
    >)
        ensures
            result_model(r) == interpret_model(status, body@),
    {
        interpret_response(status, body)
    }
}

} // verus!
