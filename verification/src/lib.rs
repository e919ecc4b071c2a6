//! Client library for a hyperlocal weather data provider.
//!
//! The heart of the library is the response interpreter: the mapping from an
//! HTTP status code and a raw response body to either a validated weather
//! record or one of a closed set of error conditions.  Around it stand a
//! directory of known locality codes, a validated locality identifier type,
//! and a thin client that holds the API key and builds request URLs.  The
//! network transport itself is left to the caller.

pub mod client;
pub mod directory;
pub mod interpret;
pub mod locality;
pub mod strutil;

pub use client::WeatherUnion;
pub use interpret::BodyValues;
pub use interpret::ErrorModel;
pub use interpret::LocalityWeatherData;
pub use interpret::WeatherResponseError;
pub use interpret::interpret_body;
pub use interpret::interpret_response;
pub use interpret::measurement;
pub use locality::InvalidLocalityId;
pub use locality::lookup;
pub use locality::LocalityId;
pub use strutil::str_eq;
