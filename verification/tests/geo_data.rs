use meteo_wizard::coordinate::Coordinate;
use meteo_wizard::geo_location::geo_data::{
    address_for_geolocation, locate_from_postal_code, local_from_public_ip, GeoLocationData,
    GeoLocationError, PostalResponse, ProviderResponse,
};

fn coord(text: &str) -> Coordinate {
    Coordinate::new(text.to_string()).expect("numeric text")
}

fn sample_record() -> GeoLocationData {
    GeoLocationData::new(
        coord("51.5074"),
        coord("-0.1278"),
        "198.51.100.7".to_string(),
        "".to_string(),
        "England".to_string(),
    )
}

#[test]
fn coordinate_accepts_numeric_text() {
    let c = Coordinate::new("12.3456".to_string()).unwrap();
    assert_eq!(c.as_text(), "12.3456");
}

#[test]
fn coordinate_accepts_scientific_notation() {
    let c = Coordinate::new("1e2".to_string()).unwrap();
    assert_eq!(c.as_text(), "1e2");
}

#[test]
fn coordinate_rejects_non_numeric_text() {
    match Coordinate::new("abc".to_string()) {
        Err(raw) => assert_eq!(raw, "abc"),
        Ok(c) => panic!("accepted {:?}", c),
    }
    match Coordinate::new("".to_string()) {
        Err(raw) => assert_eq!(raw, ""),
        Ok(c) => panic!("accepted {:?}", c),
    }
}

#[test]
fn coordinate_rounds_to_three_decimals() {
    let c = Coordinate::new("12.3456".to_string()).unwrap();
    assert_eq!(c.to_fixed3(), "12.346");
    let c = Coordinate::new("-7.891".to_string()).unwrap();
    assert_eq!(c.to_fixed3(), "-7.891");
    let c = Coordinate::new("5".to_string()).unwrap();
    assert_eq!(c.to_fixed3(), "5.000");
}

#[test]
fn absent_address_is_fatal_before_any_lookup() {
    match address_for_geolocation(None) {
        Err(GeoLocationError::CannotParseIP) => {}
        other => panic!("expected CannotParseIP, got {:?}", other),
    }
}

#[test]
fn present_address_is_passed_through() {
    let r = address_for_geolocation(Some("198.51.100.7".to_string()));
    assert_eq!(r.unwrap(), "198.51.100.7");
}

#[test]
fn resolve_keeps_the_parsed_coordinates() {
    let response = ProviderResponse {
        latitude: "51.5074".to_string(),
        longitude: "-0.1278".to_string(),
        region: "England".to_string(),
    };
    let record = local_from_public_ip("198.51.100.7".to_string(), Ok(response)).unwrap();
    assert_eq!(record.get_latitude().as_text(), "51.5074");
    assert_eq!(record.get_longitude().as_text(), "-0.1278");
    assert_eq!(record.get_region(), "England");
    assert_eq!(record.ip_address, "198.51.100.7");
    assert_eq!(record.postal_code, "");
}

#[test]
fn non_numeric_latitude_is_a_parse_error() {
    let response = ProviderResponse {
        latitude: "abc".to_string(),
        longitude: "-0.1278".to_string(),
        region: "England".to_string(),
    };
    match local_from_public_ip("198.51.100.7".to_string(), Ok(response)) {
        Err(GeoLocationError::ParseError(raw, target)) => {
            assert_eq!(raw, "abc");
            assert_eq!(target, "f64");
        }
        other => panic!("expected ParseError, got {:?}", other),
    }
}

#[test]
fn non_numeric_longitude_is_a_parse_error() {
    let response = ProviderResponse {
        latitude: "51.5074".to_string(),
        longitude: "east".to_string(),
        region: "England".to_string(),
    };
    match local_from_public_ip("198.51.100.7".to_string(), Ok(response)) {
        Err(GeoLocationError::ParseError(raw, target)) => {
            assert_eq!(raw, "east");
            assert_eq!(target, "f64");
        }
        other => panic!("expected ParseError, got {:?}", other),
    }
}

#[test]
fn provider_failure_is_wrapped() {
    let failure = ipgeolocate::GeoError::HttpError("connection reset".to_string());
    match local_from_public_ip("198.51.100.7".to_string(), Err(failure)) {
        Err(GeoLocationError::GeolocationError(ipgeolocate::GeoError::HttpError(m))) => {
            assert_eq!(m, "connection reset");
        }
        other => panic!("expected GeolocationError, got {:?}", other),
    }
}

#[test]
fn postal_lookup_success_keeps_code_and_address() {
    let lookup = Ok(PostalResponse {
        latitude: coord("51.495373"),
        longitude: coord("-0.147421"),
        region: "London".to_string(),
    });
    let record = locate_from_postal_code(
        "SW1W0NY".to_string(),
        lookup,
        Some("198.51.100.7".to_string()),
    )
    .unwrap();
    assert_eq!(record.get_latitude().as_text(), "51.495373");
    assert_eq!(record.get_longitude().as_text(), "-0.147421");
    assert_eq!(record.postal_code, "SW1W0NY");
    assert_eq!(record.get_region(), "London");
    assert_eq!(record.ip_address, "198.51.100.7");
}

#[test]
fn postal_lookup_tolerates_missing_address() {
    let lookup = Ok(PostalResponse {
        latitude: coord("51.495373"),
        longitude: coord("-0.147421"),
        region: "London".to_string(),
    });
    let record = locate_from_postal_code("SW1W0NY".to_string(), lookup, None).unwrap();
    assert_eq!(record.ip_address, "");
    assert_eq!(record.postal_code, "SW1W0NY");
}

#[test]
fn postal_lookup_failure_is_forwarded_verbatim() {
    let failure = postcode::Error::Http("service down".to_string());
    let r = locate_from_postal_code("SW1W0NY".to_string(), Err(failure.clone()), None);
    assert_eq!(r.unwrap_err(), failure);
}

#[test]
fn with_operations_replace_exactly_one_field() {
    let record = sample_record();
    let record = record.with_latitude(coord("48.8566"));
    assert_eq!(record.get_latitude().as_text(), "48.8566");
    assert_eq!(record.get_longitude().as_text(), "-0.1278");
    let record = record.with_longitude(coord("2.3522"));
    assert_eq!(record.get_longitude().as_text(), "2.3522");
    let record = record.with_ip_address("203.0.113.9".to_string());
    assert_eq!(record.ip_address, "203.0.113.9");
    let record = record.with_postal_code("75001".to_string());
    assert_eq!(record.postal_code, "75001");
    assert_eq!(record.get_region(), "England");
}

#[test]
fn clone_preserves_every_field() {
    let record = sample_record();
    let copy = record.clone();
    assert_eq!(copy.get_latitude().as_text(), record.get_latitude().as_text());
    assert_eq!(copy.get_longitude().as_text(), record.get_longitude().as_text());
    assert_eq!(copy.ip_address, record.ip_address);
    assert_eq!(copy.postal_code, record.postal_code);
    assert_eq!(copy.get_region(), record.get_region());
}
