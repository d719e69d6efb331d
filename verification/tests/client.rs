use cumtd_client::api::stops::{LatLonQuery, Stop};
use cumtd_client::{Error, TransportFault};

#[test]
fn it_works() {
    let result = cumtd_client::add(2, 2);
    assert_eq!(result, 4);
}

#[test]
fn transport_builder_failure_is_client_error() {
    let e = Error::from_transport(TransportFault::Builder, "tls setup".to_string());
    assert!(matches!(e, Error::ClientError(_)));
}

#[test]
fn transport_request_failure_is_request_error() {
    let e = Error::from_transport(TransportFault::Request, "timed out".to_string());
    assert!(matches!(e, Error::RequestError(_)));
}

#[test]
fn transport_other_failure_is_deserialize_error() {
    let e = Error::from_transport(TransportFault::Other, "bad body".to_string());
    assert!(matches!(e, Error::DeserializeError(_)));
}

#[test]
fn builder_without_longitude_fails() {
    let mut b = LatLonQuery::builder();
    b.lat("40.11".to_string());
    assert!(b.build().is_err());
}

#[test]
fn builder_error_names_the_missing_coordinates() {
    let mut b = LatLonQuery::builder();
    let e = b.lat("40.11".to_string()).build().unwrap_err();
    assert_eq!(e.message(), "Missing latitude or longitude");
}

#[test]
fn builder_without_latitude_fails() {
    let mut b = LatLonQuery::builder();
    b.lon("-88.2".to_string());
    assert!(b.build().is_err());
}

#[test]
fn builder_with_both_coordinates_succeeds() {
    let mut b = LatLonQuery::builder();
    b.lat("40.11".to_string()).lon("-88.2".to_string()).count(4);
    let q = b.build().expect("both coordinates were set");
    assert_eq!(q.lat, "40.11");
    assert_eq!(q.lon, "-88.2");
    assert_eq!(q.count, Some(4));
}

#[test]
fn builder_count_is_optional() {
    let mut b = LatLonQuery::builder();
    b.lat("1".to_string()).lon("2".to_string());
    let q = b.build().expect("both coordinates were set");
    assert_eq!(q.count, None);
}

#[test]
fn stop_identity_is_its_identifier() {
    let a = Stop {
        code: "MTD1".to_string(),
        stop_id: "S1".to_string(),
        stop_lat: "40.11".to_string(),
        stop_lon: "-88.2".to_string(),
        stop_name: "First Street".to_string(),
        location_id: "".to_string(),
        location_name: "".to_string(),
    };
    let mut b = a.clone();
    b.stop_name = "Renamed".to_string();
    b.stop_lat = "0".to_string();
    assert!(a == b);
    let mut c = a.clone();
    c.stop_id = "S2".to_string();
    assert!(a != c);
}
