//! Tests for locality identifiers, the embedded directory, the client's
//! URL rendering, and the string helper.

use weather_union::LocalityId;
use weather_union::WeatherUnion;
use weather_union::client::api_key_header;
use weather_union::client::locality_weather_url;
use weather_union::client::weather_data_url;
use weather_union::directory::lookup_entry;
use weather_union::lookup;
use weather_union::str_eq;

#[test]
fn empty_string_is_rejected() {
    assert!(LocalityId::from_str("").is_err());
}

#[test]
fn unknown_string_is_rejected_like_empty() {
    let from_unknown = LocalityId::from_str("NOT_A_CODE");
    let from_empty = LocalityId::from_str("");
    // the error is payload-free: both rejections carry the same kind
    assert!(from_unknown.is_err());
    assert!(from_empty.is_err());
    // shape-conforming but unlisted codes are rejected too
    assert!(LocalityId::from_str("ZWL000000").is_err());
    assert!(LocalityId::from_str("zwl003467").is_err());
}

#[test]
fn known_code_is_accepted_and_enriched() {
    let id = LocalityId::from_str("ZWL003467").expect("a listed code validates");
    assert_eq!(id.code(), "ZWL003467");
    assert_eq!(id.locality_name(), Some("Bengaluru Banashankari"));
    let (lat, long) = id.locality_lat_long().expect("a listed code has coordinates");
    assert_eq!(lat, 12_936_787);
    assert_eq!(long, 77_556_079);
    assert_eq!(lat as f64 / 1e6, 12.936787);
    assert_eq!(long as f64 / 1e6, 77.556079);
}

#[test]
fn another_known_code_is_accepted() {
    let id = LocalityId::from_str("ZWL005764").expect("a listed code validates");
    assert_eq!(id.code(), "ZWL005764");
    assert_eq!(id.locality_name(), Some("Delhi NCR Sarita Vihar"));
}

#[test]
fn display_renders_code_and_name() {
    let id = LocalityId::from_str("ZWL003467").expect("a listed code validates");
    assert_eq!(id.display_string(), "ZWL003467 Bengaluru Banashankari");
}

#[test]
fn directory_lookup_by_numeric_code() {
    let entry = lookup_entry(3467).expect("the directory lists 3467");
    assert_eq!(entry.0, "ZWL003467");
    assert_eq!(entry.1, "Bengaluru Banashankari");
    assert_eq!(entry.2, 12_936_787);
    assert_eq!(entry.3, 77_556_079);
    assert!(lookup_entry(0).is_none());
    assert!(lookup_entry(1_000_000).is_none());
}

#[test]
fn client_stores_key_verbatim() {
    let client = WeatherUnion::from_key("demo-api-key".to_string());
    assert_eq!(client.api_key(), "demo-api-key");
}

#[test]
fn client_interprets_payload() {
    let client = WeatherUnion::from_key("k".to_string());
    let rec = client
        .process_payload(
            200,
            "{\"message\":\"\",\"device_type\":4,\"locality_weather_data\":{\"humidity\":50.0}}",
        )
        .expect("a well-shaped 200 body interprets as a record");
    assert_eq!(rec.device, 4);
    assert_eq!(rec.humidity, 50.0f64.to_bits());
    assert_eq!(rec.temperature, 0);
}

#[test]
fn request_urls_follow_the_wire_contract() {
    assert_eq!(
        weather_data_url("12.936787", "77.556079"),
        "https://www.weatherunion.com/gw/weather/external/v0/get_weather_data?latitude=12.936787&longitude=77.556079"
    );
    assert_eq!(
        locality_weather_url("ZWL003467"),
        "https://www.weatherunion.com/gw/weather/external/v0/get_locality_weather_data?locality_id=ZWL003467"
    );
    assert_eq!(api_key_header(), "x-zomato-api-key");
}

#[test]
fn string_equality_helper() {
    assert!(str_eq("", ""));
    assert!(str_eq("abc", "abc"));
    assert!(!str_eq("abc", "abd"));
    assert!(!str_eq("abc", "abcd"));
    assert!(str_eq("añb", "añb"));
    assert!(!str_eq("añb", "anb"));
}

#[test]
fn directory_lookup_by_code_string() {
    let entry = lookup("ZWL003467").expect("the directory lists this code");
    assert_eq!(entry.1, "Bengaluru Banashankari");
    assert!(lookup("").is_none());
    assert!(lookup("NOT_A_CODE").is_none());
    assert!(lookup("ZWL999999").is_none());
}
