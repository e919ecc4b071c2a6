//! The response interpreter: from an HTTP status code and a raw response
//! body to either a validated weather record or a typed error.
//!
//! The provider overloads HTTP 200: even on a successful request, a non-empty
//! `message` field in the body signals that the data is not valid, and that
//! advisory takes priority over building a record.  Measurements that the
//! body omits, or maps to null, default to zero rather than being absent.
//!
//! Floating-point measurements are carried as their IEEE 754 bit patterns
//! (`u64`), which keeps every value exact; the all-zero pattern is the bit
//! pattern of the `0.0` default.

use vstd::prelude::*;

use crate::strutil::str_eq;

verus! {

/// A validated weather record, returned on success.  Each measurement field
/// holds the IEEE 754 bit pattern of the reported reading; `0` (the pattern
/// of `0.0`) stands in for a measurement the body omitted or mapped to null.
#[derive(Clone, Copy, Debug, PartialEq, Eq, Structural)]
pub struct LocalityWeatherData {
    pub device: u8,
    pub temperature: u64,
    pub humidity: u64,
    pub wind_speed: u64,
    pub wind_direction: u64,
    pub rain_intensity: u64,
    pub rain_accumulation: u64,
}

/// The closed set of error conditions an interpreted response can produce.
#[derive(Clone, Debug, PartialEq, Eq)]
pub enum WeatherResponseError {
    ErrorRetrievingData,
    NotSupported,
    ApiKeyLimitExhausted,
    CouldNotAuthenticate,
    TemporarilyUnavailable(String),
    UnknownError(u16),
    InvalidResponse,
}

/// The mathematical model of a `WeatherResponseError`: the advisory message
/// is abstracted to its character sequence.
pub enum ErrorModel {
    ErrorRetrievingData,
    NotSupported,
    ApiKeyLimitExhausted,
    CouldNotAuthenticate,
    TemporarilyUnavailable(Seq<char>),
    UnknownError(u16),
    InvalidResponse,
}

impl View for WeatherResponseError {
    type V = ErrorModel;

    open spec fn view(&self) -> ErrorModel {
        match self {
            WeatherResponseError::ErrorRetrievingData => ErrorModel::ErrorRetrievingData,
            WeatherResponseError::NotSupported => ErrorModel::NotSupported,
            WeatherResponseError::ApiKeyLimitExhausted => ErrorModel::ApiKeyLimitExhausted,
            WeatherResponseError::CouldNotAuthenticate => ErrorModel::CouldNotAuthenticate,
            WeatherResponseError::TemporarilyUnavailable(m) => ErrorModel::TemporarilyUnavailable(
                m@,
            ),
            WeatherResponseError::UnknownError(c) => ErrorModel::UnknownError(*c),
            WeatherResponseError::InvalidResponse => ErrorModel::InvalidResponse,
        }
    }
}

/// The model of an interpreter result.
pub open spec fn result_model(r: Result<LocalityWeatherData, WeatherResponseError>) -> Result<
    LocalityWeatherData,
    ErrorModel,
> {
    match r {
        Ok(d) => Ok(d),
        Err(e) => Err(e@),
    }
}

/// The decoded form of a well-shaped response body: the advisory message,
/// the reported device code, and the measurement map as a list of keyed
/// optional bit patterns (in the decoder's key order, keys unique).
pub struct BodyValues {
    pub message: String,
    pub device_type: u64,
    pub data: Vec<(String, Option<u64>)>,
}

/// The model of the decoded measurement list.
pub open spec fn data_model(v: Seq<(String, Option<u64>)>) -> Seq<(Seq<char>, Option<u64>)> {
    v.map_values(|p: (String, Option<u64>)| (p.0@, p.1))
}

/// The model of a decoded body.
pub open spec fn body_model(b: BodyValues) -> (Seq<char>, u64, Seq<(Seq<char>, Option<u64>)>) {
    (b.message@, b.device_type, data_model(b.data@))
}

/// What `serde_json` decodes a response body to, when the body is valid JSON
/// of the expected shape: an object whose `message` is a string, whose
/// `device_type` is a non-negative integral number, and whose
/// `locality_weather_data` is an object mapping names to numbers or nulls.
/// Parsing is a pure function of the input text, so the outcome has a name.
pub uninterp spec fn decoded_body(s: Seq<char>) -> Option<
    (Seq<char>, u64, Seq<(Seq<char>, Option<u64>)>),
>;

/// Relies on `serde_json::from_str` to parse the body, and on
/// `serde_json::Value::{get, as_str, as_u64, as_object, is_null, as_f64}` to
/// take the parsed fields apart.  All of them are pure functions of the
/// input text (the map is ordered, so its iteration order is too), which is
/// what lets the result be pinned by `decoded_body`.
#[verifier::external_body]
pub(crate) fn decode_body(s: &str) -> (r: Option<BodyValues>)
    ensures
        r is Some <==> decoded_body(s@) is Some,
        r matches Some(b) ==> Some(body_model(b)) == decoded_body(s@),
{
    let v: serde_json::Value = serde_json::from_str(s).ok()?;
    let message = v.get("message")?.as_str()?.to_owned();
    let device_type = v.get("device_type")?.as_u64()?;
    let map = v.get("locality_weather_data")?.as_object()?;
    let mut data: Vec<(String, Option<u64>)> = Vec::new();
    for (k, x) in map {
        let m = if x.is_null() { None } else { Some(x.as_f64()?.to_bits()) };
        data.push((k.clone(), m));
    }
    Some(BodyValues { message, device_type, data })
}

/// The value a measurement key contributes to the record: the first entry
/// carrying the key if it holds a number, and the zero default when the key
/// is absent or maps to null.
pub open spec fn field_value(data: Seq<(Seq<char>, Option<u64>)>, key: Seq<char>) -> u64
    decreases data.len(),
{
    if data.len() == 0 {
        0u64
    } else if data[0].0 == key {
        match data[0].1 {
            Some(v) => v,
            None => 0u64,
        }
    } else {
        field_value(data.drop_first(), key)
    }
}

/// Looks a measurement key up in the decoded list, defaulting to zero.
pub fn measurement(data: &Vec<(String, Option<u64>)>, key: &str) -> (r: u64)
    ensures
        r == field_value(data_model(data@), key@),
{
    let n = data.len();
    let mut i: usize = 0;
    proof {
        assert(data_model(data@).skip(0) =~= data_model(data@));
    }
    while i < n
        invariant
            n == data@.len(),
            i <= n,
            field_value(data_model(data@), key@) == field_value(
                data_model(data@).skip(i as int),
                key@,
            ),
        decreases n - i,
    {
        let found = str_eq(data[i].0.as_str(), key);
        proof {
            assert(data_model(data@).skip(i as int)[0] == (data@[i as int].0@, data@[i as int].1));
        }
        if found {
            return match data[i].1 {
                Some(v) => v,
                None => 0u64,
            };
        }
        proof {
            assert(data_model(data@).skip(i as int).drop_first() =~= data_model(data@).skip(
                i as int + 1,
            ));
        }
        i += 1;
    }
    proof {
        assert(data_model(data@).skip(n as int).len() == 0);
    }
    0u64
}

/// The record a well-shaped body yields: the device code, and each of the
/// six measurements looked up by name with the zero default.
pub open spec fn record_of(b: (Seq<char>, u64, Seq<(Seq<char>, Option<u64>)>)) -> LocalityWeatherData {
    LocalityWeatherData {
        device: b.1 as u8,
        temperature: field_value(b.2, "temperature"@),
        humidity: field_value(b.2, "humidity"@),
        wind_speed: field_value(b.2, "wind_speed"@),
        wind_direction: field_value(b.2, "wind_direction"@),
        rain_intensity: field_value(b.2, "rain_intensity"@),
        rain_accumulation: field_value(b.2, "rain_accumulation"@),
    }
}

/// How a 200 response is interpreted, as a function of the decoded body:
/// a body that did not decode, or whose device code overflows the record's
/// field, is invalid; a non-empty advisory message is surfaced verbatim and
/// takes priority over success; otherwise the record is built.
pub open spec fn interpret_ok_model(
    m: Option<(Seq<char>, u64, Seq<(Seq<char>, Option<u64>)>)>,
) -> Result<LocalityWeatherData, ErrorModel> {
    match m {
        None => Err(ErrorModel::InvalidResponse),
        Some(b) => if b.1 > 255 {
            Err(ErrorModel::InvalidResponse)
        } else if b.0.len() > 0 {
            Err(ErrorModel::TemporarilyUnavailable(b.0))
        } else {
            Ok(record_of(b))
        },
    }
}

/// How any response is interpreted: the status code is the sole dispatch
/// key, and the body is only consulted on 200.
pub open spec fn interpret_model(status: u16, body: Seq<char>) -> Result<
    LocalityWeatherData,
    ErrorModel,
> {
    if status == 200 {
        interpret_ok_model(decoded_body(body))
    } else if status == 500 {
        Err(ErrorModel::ErrorRetrievingData)
    } else if status == 400 {
        Err(ErrorModel::NotSupported)
    } else if status == 429 {
        Err(ErrorModel::ApiKeyLimitExhausted)
    } else if status == 403 {
        Err(ErrorModel::CouldNotAuthenticate)
    } else {
        Err(ErrorModel::UnknownError(status))
    }
}

/// Holds when a measurement key never carries a number in the decoded list:
/// it is absent outright, or every entry for it maps to null.
pub open spec fn absent_or_null(data: Seq<(Seq<char>, Option<u64>)>, key: Seq<char>) -> bool {
    forall|i: int| 0 <= i < data.len() && data[i].0 == key ==> data[i].1 is None
}

/// A measurement key that is absent from the decoded list, or present only
/// with a null value, contributes the zero default.
pub proof fn lemma_absent_or_null_defaults(data: Seq<(Seq<char>, Option<u64>)>, key: Seq<char>)
    requires
        absent_or_null(data, key),
    ensures
        field_value(data, key) == 0,
    decreases data.len(),
{
    if data.len() == 0 {
    } else if data[0].0 == key {
    } else {
        lemma_absent_or_null_defaults(data.drop_first(), key);
    }
}

/// The defaulting policy at the record level: a body with an empty advisory
/// message and an in-range device code is interpreted as a record, never an
/// error, and each of the six measurements whose key is absent or null in
/// the body comes out as the zero default rather than a missing field.
pub proof fn lemma_default_fields(b: (Seq<char>, u64, Seq<(Seq<char>, Option<u64>)>))
    requires
        b.0.len() == 0,
        b.1 <= 255,
    ensures
        interpret_ok_model(Some(b)) == Ok::<LocalityWeatherData, ErrorModel>(record_of(b)),
        absent_or_null(b.2, "temperature"@) ==> record_of(b).temperature == 0,
        absent_or_null(b.2, "humidity"@) ==> record_of(b).humidity == 0,
        absent_or_null(b.2, "wind_speed"@) ==> record_of(b).wind_speed == 0,
        absent_or_null(b.2, "wind_direction"@) ==> record_of(b).wind_direction == 0,
        absent_or_null(b.2, "rain_intensity"@) ==> record_of(b).rain_intensity == 0,
        absent_or_null(b.2, "rain_accumulation"@) ==> record_of(b).rain_accumulation == 0,
{
    if absent_or_null(b.2, "temperature"@) {
        lemma_absent_or_null_defaults(b.2, "temperature"@);
    }
    if absent_or_null(b.2, "humidity"@) {
        lemma_absent_or_null_defaults(b.2, "humidity"@);
    }
    if absent_or_null(b.2, "wind_speed"@) {
        lemma_absent_or_null_defaults(b.2, "wind_speed"@);
    }
    if absent_or_null(b.2, "wind_direction"@) {
        lemma_absent_or_null_defaults(b.2, "wind_direction"@);
    }
    if absent_or_null(b.2, "rain_intensity"@) {
        lemma_absent_or_null_defaults(b.2, "rain_intensity"@);
    }
    if absent_or_null(b.2, "rain_accumulation"@) {
        lemma_absent_or_null_defaults(b.2, "rain_accumulation"@);
    }
}

/// A provider advisory takes priority over record construction: a decoded
/// body with an in-range device code and a non-empty message is interpreted
/// as `TemporarilyUnavailable` carrying the message verbatim, whatever the
/// measurement list holds.
pub proof fn lemma_advisory_takes_priority(b: (Seq<char>, u64, Seq<(Seq<char>, Option<u64>)>))
    requires
        b.1 <= 255,
        b.0.len() > 0,
    ensures
        interpret_ok_model(Some(b)) == Err::<LocalityWeatherData, ErrorModel>(
            ErrorModel::TemporarilyUnavailable(b.0),
        ),
{
}

/// Interpretation is idempotent: two results obtained from the same status
/// and body text are equal in the model.
pub proof fn lemma_interpret_deterministic(
    status: u16,
    body: Seq<char>,
    r1: Result<LocalityWeatherData, WeatherResponseError>,
    r2: Result<LocalityWeatherData, WeatherResponseError>,
)
    requires
        result_model(r1) == interpret_model(status, body),
        result_model(r2) == interpret_model(status, body),
    ensures
        result_model(r1) == result_model(r2),
{
}

/// Interprets a decoded 200 body: the verified half of the 200 path, taking
/// the decoder's result as its argument.
pub fn interpret_body(body: &BodyValues) -> (r: Result<LocalityWeatherData, WeatherResponseError>)
    ensures
        result_model(r) == interpret_ok_model(Some(body_model(*body))),
{
    if body.device_type > 255 {
        return Err(WeatherResponseError::InvalidResponse);
    }
    if !body.message.as_str().is_empty() {
        return Err(WeatherResponseError::TemporarilyUnavailable(body.message.clone()));
    }
    Ok(
        LocalityWeatherData {
            device: body.device_type as u8,
            temperature: measurement(&body.data, "temperature"),
            humidity: measurement(&body.data, "humidity"),
            wind_speed: measurement(&body.data, "wind_speed"),
            wind_direction: measurement(&body.data, "wind_direction"),
            rain_intensity: measurement(&body.data, "rain_intensity"),
            rain_accumulation: measurement(&body.data, "rain_accumulation"),
        },
    )
}

/// Interprets a materialized response: status code dispatch, with the body
/// decoded and inspected only on 200.
pub fn interpret_response(status: u16, body: &str) -> (r: Result<
    LocalityWeatherData,
    WeatherResponseError,
>)
    ensures
        result_model(r) == interpret_model(status, body@),
{
    if status == 200 {
        match decode_body(body) {
            None => Err(WeatherResponseError::InvalidResponse),
            Some(b) => interpret_body(&b),
        }
    } else if status == 500 {
        Err(WeatherResponseError::ErrorRetrievingData)
    } else if status == 400 {
        Err(WeatherResponseError::NotSupported)
    } else if status == 429 {
        Err(WeatherResponseError::ApiKeyLimitExhausted)
    } else if status == 403 {
        Err(WeatherResponseError::CouldNotAuthenticate)
    } else {
        Err(WeatherResponseError::UnknownError(status))
    }
}

} // verus!
