use cumtd_client::api::calendar_dates::calendar_dates_from_body;
use cumtd_client::api::routes::routes_from_body;
use cumtd_client::api::shapes::shapes_from_body;
use cumtd_client::api::stops::{normalize_stops, stops_from_body, Stop, StopGroup};
use cumtd_client::date::Date;
use cumtd_client::Error;

fn wire_stop(code: &str, id: &str, name: &str) -> Stop {
    Stop {
        code: code.to_string(),
        stop_id: id.to_string(),
        stop_lat: "40.11".to_string(),
        stop_lon: "-88.2".to_string(),
        stop_name: name.to_string(),
        location_id: "".to_string(),
        location_name: "".to_string(),
    }
}

#[test]
fn normalization_flattens_and_attaches_parents() {
    let groups = vec![
        StopGroup {
            stop_id: "GRP1".to_string(),
            stop_name: "Group One".to_string(),
            stop_points: vec![wire_stop("A", "S1", "First"), wire_stop("B", "S2", "Second")],
        },
        StopGroup {
            stop_id: "GRP2".to_string(),
            stop_name: "Group Two".to_string(),
            stop_points: vec![],
        },
    ];
    let stops = normalize_stops(groups);
    assert_eq!(stops.len(), 2);
    assert_eq!(stops[0].id(), "S1");
    assert_eq!(stops[0].location_id(), "GRP1");
    assert_eq!(stops[0].location_name(), "Group One");
    assert_eq!(stops[1].id(), "S2");
    assert_eq!(stops[1].location_id(), "GRP1");
    assert_eq!(stops[1].location_name(), "Group One");
}

#[test]
fn empty_groups_contribute_nothing() {
    let groups = vec![
        StopGroup {
            stop_id: "GRP1".to_string(),
            stop_name: "Group One".to_string(),
            stop_points: vec![],
        },
    ];
    assert_eq!(normalize_stops(groups).len(), 0);
}

#[test]
fn stops_body_decodes_and_normalizes() {
    let body = r#"{"stops":[{"stop_id":"GRP1","stop_name":"Group One","stop_points":[
        {"stop_code":"MTD1","stop_id":"S1","stop_lat":40.11,"stop_lon":-88.2,"stop_name":"First"}
    ]}]}"#;
    let stops = stops_from_body(body.as_bytes()).expect("a well-formed body");
    assert_eq!(stops.len(), 1);
    assert_eq!(stops[0].code(), "MTD1");
    assert_eq!(stops[0].id(), "S1");
    assert_eq!(stops[0].lat(), "40.11");
    assert_eq!(stops[0].lon(), "-88.2");
    assert_eq!(stops[0].name(), "First");
    assert_eq!(stops[0].location_id(), "GRP1");
    assert_eq!(stops[0].location_name(), "Group One");
}

#[test]
fn stops_body_accepts_short_code_key() {
    let body = r#"{"stops":[{"stop_id":"GRP1","stop_name":"Group One","stop_points":[
        {"code":"MTD1","stop_id":"S1","stop_lat":40.0,"stop_lon":-88.0,"stop_name":"First"}
    ]}]}"#;
    let stops = stops_from_body(body.as_bytes()).expect("a well-formed body");
    assert_eq!(stops[0].code(), "MTD1");
}

#[test]
fn malformed_body_is_a_deserialize_error() {
    let e = stops_from_body(b"not json at all").unwrap_err();
    assert!(matches!(e, Error::DeserializeError(_)));
}

#[test]
fn missing_required_field_is_a_deserialize_error() {
    let body = r#"{"routes":[{"route_id":"1","route_short_name":"1","route_long_name":"One","route_color":"FF0000"}]}"#;
    let e = routes_from_body(body.as_bytes()).unwrap_err();
    assert!(matches!(e, Error::DeserializeError(_)));
}

#[test]
fn missing_envelope_is_a_deserialize_error() {
    let e = routes_from_body(b"{}").unwrap_err();
    assert!(matches!(e, Error::DeserializeError(_)));
}

#[test]
fn routes_body_passes_through_unchanged() {
    let body = r#"{"routes":[{"route_id":"1","route_short_name":"1","route_long_name":"One","route_color":"FF0000","route_text_color":"FFFFFF"}]}"#;
    let routes = routes_from_body(body.as_bytes()).expect("a well-formed body");
    assert_eq!(routes.len(), 1);
    assert_eq!(routes[0].id(), "1");
    assert_eq!(routes[0].short_name(), "1");
    assert_eq!(routes[0].long_name(), "One");
    assert_eq!(routes[0].color(), "FF0000");
    assert_eq!(routes[0].text_color(), "FFFFFF");
}

#[test]
fn shapes_body_decodes_points() {
    let body = r#"{"shapes":[
        {"shape_dist_traveled":0.5,"shape_pt_lat":40.0,"shape_pt_lon":-88.0,"shape_pt_sequence":3,"stop_id":"S1"},
        {"shape_dist_traveled":1.5,"shape_pt_lat":40.1,"shape_pt_lon":-88.1,"shape_pt_sequence":4,"stop_id":null},
        {"shape_dist_traveled":2.5,"shape_pt_lat":40.2,"shape_pt_lon":-88.2,"shape_pt_sequence":5}
    ]}"#;
    let shapes = shapes_from_body(body.as_bytes()).expect("a well-formed body");
    assert_eq!(shapes.len(), 3);
    assert_eq!(shapes[0].dist_traveled(), "0.5");
    assert_eq!(shapes[0].point_lat(), "40.0");
    assert_eq!(shapes[0].point_lon(), "-88.0");
    assert_eq!(shapes[0].point_sequence(), 3);
    assert_eq!(shapes[0].stop_id(), &Some("S1".to_string()));
    assert_eq!(shapes[1].stop_id(), &None);
    assert_eq!(shapes[2].stop_id(), &None);
}

#[test]
fn shape_sequence_out_of_range_is_a_deserialize_error() {
    let body = r#"{"shapes":[{"shape_dist_traveled":0.5,"shape_pt_lat":40.0,"shape_pt_lon":-88.0,"shape_pt_sequence":4294967296}]}"#;
    let e = shapes_from_body(body.as_bytes()).unwrap_err();
    assert!(matches!(e, Error::DeserializeError(_)));
}

#[test]
fn calendar_body_decodes_dates() {
    let body = r#"{"calendar_dates":[{"date":"2024-02-29","service_id":"GMF1"}]}"#;
    let dates = calendar_dates_from_body(body.as_bytes()).expect("a well-formed body");
    assert_eq!(dates.len(), 1);
    assert_eq!(dates[0].date(), Date::new(2024, 2, 29).unwrap());
    assert_eq!(dates[0].service_id(), "GMF1");
}

#[test]
fn unreal_calendar_day_fails_the_whole_decode() {
    let body = r#"{"calendar_dates":[{"date":"2023-02-29","service_id":"GMF1"}]}"#;
    let e = calendar_dates_from_body(body.as_bytes()).unwrap_err();
    assert!(matches!(e, Error::DeserializeError(_)));
}
