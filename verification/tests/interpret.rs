//! Tests for the response interpreter: status dispatch, the defaulting
//! policy for missing measurements, advisory priority, and shape errors.

use weather_union::LocalityWeatherData;
use weather_union::WeatherResponseError;
use weather_union::interpret_response;

#[test]
fn ok_response_echoes_all_measurements() {
    let body = "{\"message\":\"\",\"device_type\":1,\"locality_weather_data\":{\"temperature\":25.5,\"humidity\":55.25,\"wind_speed\":1.75,\"wind_direction\":270.0,\"rain_intensity\":0.25,\"rain_accumulation\":12.5}}";
    let r = interpret_response(200, body);
    let rec = r.expect("a fully populated body must interpret as a record");
    assert_eq!(rec.device, 1);
    assert_eq!(rec.temperature, 25.5f64.to_bits());
    assert_eq!(rec.humidity, 55.25f64.to_bits());
    assert_eq!(rec.wind_speed, 1.75f64.to_bits());
    assert_eq!(rec.wind_direction, 270.0f64.to_bits());
    assert_eq!(rec.rain_intensity, 0.25f64.to_bits());
    assert_eq!(rec.rain_accumulation, 12.5f64.to_bits());
}

#[test]
fn absent_measurements_default_to_zero() {
    let body = "{\"message\":\"\",\"device_type\":2,\"locality_weather_data\":{}}";
    let rec = interpret_response(200, body).expect("an empty measurement map is not an error");
    let zero = 0.0f64.to_bits();
    assert_eq!(
        rec,
        LocalityWeatherData {
            device: 2,
            temperature: zero,
            humidity: zero,
            wind_speed: zero,
            wind_direction: zero,
            rain_intensity: zero,
            rain_accumulation: zero,
        }
    );
}

#[test]
fn null_measurements_default_to_zero() {
    let body = "{\"message\":\"\",\"device_type\":7,\"locality_weather_data\":{\"temperature\":null,\"humidity\":null,\"wind_speed\":null,\"wind_direction\":null,\"rain_intensity\":null,\"rain_accumulation\":null}}";
    let rec = interpret_response(200, body).expect("null measurements are not an error");
    assert_eq!(rec.device, 7);
    assert_eq!(rec.temperature, 0);
    assert_eq!(rec.humidity, 0);
    assert_eq!(rec.wind_speed, 0);
    assert_eq!(rec.wind_direction, 0);
    assert_eq!(rec.rain_intensity, 0);
    assert_eq!(rec.rain_accumulation, 0);
}

#[test]
fn some_measurements_missing_others_present() {
    let body = "{\"message\":\"\",\"device_type\":3,\"locality_weather_data\":{\"temperature\":31.0,\"humidity\":null}}";
    let rec = interpret_response(200, body).expect("a partial map is not an error");
    assert_eq!(rec.temperature, 31.0f64.to_bits());
    assert_eq!(rec.humidity, 0);
    assert_eq!(rec.wind_speed, 0);
}

#[test]
fn integral_measurement_values_are_read_as_floats() {
    let body = "{\"message\":\"\",\"device_type\":0,\"locality_weather_data\":{\"temperature\":25}}";
    let rec = interpret_response(200, body).expect("integral measurements are numbers");
    assert_eq!(rec.temperature, 25.0f64.to_bits());
}

#[test]
fn nonempty_message_takes_priority_over_record() {
    let body = "{\"message\":\"station offline\",\"device_type\":1,\"locality_weather_data\":{\"temperature\":25.5,\"humidity\":55.25,\"wind_speed\":1.75,\"wind_direction\":270.0,\"rain_intensity\":0.25,\"rain_accumulation\":12.5}}";
    let r = interpret_response(200, body);
    assert_eq!(
        r,
        Err(WeatherResponseError::TemporarilyUnavailable("station offline".to_string()))
    );
}

#[test]
fn nonempty_message_with_empty_map() {
    let body = "{\"message\":\"maintenance\",\"device_type\":9,\"locality_weather_data\":{}}";
    let r = interpret_response(200, body);
    assert_eq!(
        r,
        Err(WeatherResponseError::TemporarilyUnavailable("maintenance".to_string()))
    );
}

#[test]
fn malformed_json_is_invalid_response() {
    let r = interpret_response(200, "not json at all");
    assert_eq!(r, Err(WeatherResponseError::InvalidResponse));
}

#[test]
fn missing_required_keys_is_invalid_response() {
    let r = interpret_response(200, "{\"message\":\"\"}");
    assert_eq!(r, Err(WeatherResponseError::InvalidResponse));
    let r = interpret_response(200, "{\"device_type\":1,\"locality_weather_data\":{}}");
    assert_eq!(r, Err(WeatherResponseError::InvalidResponse));
    let r = interpret_response(200, "{}");
    assert_eq!(r, Err(WeatherResponseError::InvalidResponse));
}

#[test]
fn wrongly_typed_fields_are_invalid_response() {
    let r = interpret_response(
        200,
        "{\"message\":5,\"device_type\":1,\"locality_weather_data\":{}}",
    );
    assert_eq!(r, Err(WeatherResponseError::InvalidResponse));
    let r = interpret_response(
        200,
        "{\"message\":\"\",\"device_type\":\"one\",\"locality_weather_data\":{}}",
    );
    assert_eq!(r, Err(WeatherResponseError::InvalidResponse));
    let r = interpret_response(
        200,
        "{\"message\":\"\",\"device_type\":1,\"locality_weather_data\":[]}",
    );
    assert_eq!(r, Err(WeatherResponseError::InvalidResponse));
    let r = interpret_response(
        200,
        "{\"message\":\"\",\"device_type\":1,\"locality_weather_data\":{\"temperature\":\"hot\"}}",
    );
    assert_eq!(r, Err(WeatherResponseError::InvalidResponse));
}

#[test]
fn device_type_must_fit_a_byte() {
    let ok = interpret_response(
        200,
        "{\"message\":\"\",\"device_type\":255,\"locality_weather_data\":{}}",
    );
    assert_eq!(ok.expect("255 is in range").device, 255);
    let r = interpret_response(
        200,
        "{\"message\":\"\",\"device_type\":256,\"locality_weather_data\":{}}",
    );
    assert_eq!(r, Err(WeatherResponseError::InvalidResponse));
    let r = interpret_response(
        200,
        "{\"message\":\"\",\"device_type\":-1,\"locality_weather_data\":{}}",
    );
    assert_eq!(r, Err(WeatherResponseError::InvalidResponse));
    let r = interpret_response(
        200,
        "{\"message\":\"\",\"device_type\":1.5,\"locality_weather_data\":{}}",
    );
    assert_eq!(r, Err(WeatherResponseError::InvalidResponse));
}

#[test]
fn error_statuses_map_to_their_variants() {
    let body = "ignored";
    assert_eq!(
        interpret_response(500, body),
        Err(WeatherResponseError::ErrorRetrievingData)
    );
    assert_eq!(interpret_response(400, body), Err(WeatherResponseError::NotSupported));
    assert_eq!(
        interpret_response(429, body),
        Err(WeatherResponseError::ApiKeyLimitExhausted)
    );
    assert_eq!(
        interpret_response(403, body),
        Err(WeatherResponseError::CouldNotAuthenticate)
    );
    assert_eq!(interpret_response(418, body), Err(WeatherResponseError::UnknownError(418)));
    assert_eq!(interpret_response(302, body), Err(WeatherResponseError::UnknownError(302)));
}

#[test]
fn interpretation_is_idempotent() {
    let bodies = [
        "{\"message\":\"\",\"device_type\":1,\"locality_weather_data\":{\"temperature\":25.5,\"humidity\":null}}",
        "{\"message\":\"station offline\",\"device_type\":1,\"locality_weather_data\":{}}",
        "garbage",
    ];
    for body in bodies {
        for status in [200u16, 500, 400, 429, 403, 418] {
            let first = interpret_response(status, body);
            let second = interpret_response(status, body);
            assert_eq!(first, second);
        }
    }
}
