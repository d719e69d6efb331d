use cumtd_client::api::calendar_dates::{dates_request, DatesQueryType};
use cumtd_client::api::routes::{routes_request, RoutesQueryType};
use cumtd_client::api::shapes::{shapes_request, ShapeSpecifier, ShapesQueryType};
use cumtd_client::api::stops::{stops_request, LatLonQuery, StopsQueryType};
use cumtd_client::date::Date;
use cumtd_client::wiretext::{i32_dec, join_semi, u32_dec};

#[test]
fn stops_by_id_joins_identifiers_in_order() {
    let q = StopsQueryType::ById(vec![
        "IT".to_string(),
        "PLAZA".to_string(),
        "WLNT".to_string(),
    ]);
    let (url, params) = stops_request("k", &q);
    assert_eq!(url, "https://developer.cumtd.com/api/v2.2/json/getstop");
    assert_eq!(params.len(), 2);
    assert_eq!(params[0], ("key".to_string(), "k".to_string()));
    assert_eq!(params[1], ("stop_id".to_string(), "IT;PLAZA;WLNT".to_string()));
}

#[test]
fn stops_by_single_id_has_no_separator() {
    let q = StopsQueryType::ById(vec!["IT".to_string()]);
    let (_, params) = stops_request("k", &q);
    assert_eq!(params[1], ("stop_id".to_string(), "IT".to_string()));
}

#[test]
fn stops_all_sends_only_the_key() {
    let (url, params) = stops_request("k", &StopsQueryType::All);
    assert_eq!(url, "https://developer.cumtd.com/api/v2.2/json/getstops");
    assert_eq!(params, vec![("key".to_string(), "k".to_string())]);
}

#[test]
fn lat_lon_without_count_omits_the_count_key() {
    let q = StopsQueryType::ByLatLon(LatLonQuery::new("40.11".to_string(), "-88.2".to_string()));
    let (url, params) = stops_request("k", &q);
    assert_eq!(url, "https://developer.cumtd.com/api/v2.2/json/getstopsbylatlon");
    assert_eq!(params.len(), 3);
    assert!(params.iter().all(|p| p.0 != "count"));
    assert_eq!(params[1], ("lat".to_string(), "40.11".to_string()));
    assert_eq!(params[2], ("lon".to_string(), "-88.2".to_string()));
}

#[test]
fn lat_lon_with_count_sends_exactly_one_count() {
    let q = StopsQueryType::ByLatLon(LatLonQuery::new_with_count(
        "40.11".to_string(),
        "-88.2".to_string(),
        7,
    ));
    let (_, params) = stops_request("k", &q);
    assert_eq!(params.len(), 4);
    assert_eq!(params[3], ("count".to_string(), "7".to_string()));
    assert_eq!(params.iter().filter(|p| p.0 == "count").count(), 1);
}

#[test]
fn routes_by_stop_builds_the_documented_request() {
    let q = RoutesQueryType::ByStop("STOP1".to_string());
    let (url, params) = routes_request("k", &q);
    assert_eq!(url, "https://developer.cumtd.com/api/v2.2/json/getroutesbystop");
    assert_eq!(
        params,
        vec![
            ("key".to_string(), "k".to_string()),
            ("stop_id".to_string(), "STOP1".to_string()),
        ]
    );
}

#[test]
fn routes_by_id_joins_identifiers() {
    let q = RoutesQueryType::ById(vec!["GREEN".to_string(), "TEAL".to_string()]);
    let (url, params) = routes_request("k", &q);
    assert_eq!(url, "https://developer.cumtd.com/api/v2.2/json/getroute");
    assert_eq!(params[1], ("route_id".to_string(), "GREEN;TEAL".to_string()));
}

#[test]
fn routes_all_sends_only_the_key() {
    let (url, params) = routes_request("k", &RoutesQueryType::All);
    assert_eq!(url, "https://developer.cumtd.com/api/v2.2/json/getroutes");
    assert_eq!(params, vec![("key".to_string(), "k".to_string())]);
}

#[test]
fn full_shape_request() {
    let q = ShapesQueryType::FullShape("GREEN_SHP".to_string());
    let (url, params) = shapes_request("k", &q);
    assert_eq!(url, "https://developer.cumtd.com/api/v2.2/json/getshape");
    assert_eq!(params[1], ("shape_id".to_string(), "GREEN_SHP".to_string()));
}

#[test]
fn shape_between_stops_request() {
    let q = ShapesQueryType::BetweenStops(ShapeSpecifier::new("A", "B", "SHP"));
    let (url, params) = shapes_request("k", &q);
    assert_eq!(url, "https://developer.cumtd.com/api/v2.2/json/getshapebetweenstops");
    assert_eq!(
        params,
        vec![
            ("key".to_string(), "k".to_string()),
            ("begin_stop_id".to_string(), "A".to_string()),
            ("end_stop_id".to_string(), "B".to_string()),
            ("shape_id".to_string(), "SHP".to_string()),
        ]
    );
}

#[test]
fn dates_by_leap_day_renders_wire_date_text() {
    let d = Date::new(2024, 2, 29).expect("a real calendar day");
    let (url, params) = dates_request("k", &DatesQueryType::ByDate(d));
    assert_eq!(url, "https://developer.cumtd.com/api/v2.2/json/getcalendardatesbydate");
    assert_eq!(
        params,
        vec![
            ("key".to_string(), "k".to_string()),
            ("date".to_string(), "2024-02-29".to_string()),
        ]
    );
}

#[test]
fn dates_by_service_request() {
    let q = DatesQueryType::ByService("GMF1".to_string());
    let (url, params) = dates_request("k", &q);
    assert_eq!(url, "https://developer.cumtd.com/api/v2.2/json/getcalendardatesbydate");
    assert_eq!(params[1], ("service_id".to_string(), "GMF1".to_string()));
}

#[test]
fn join_semi_edge_cases() {
    assert_eq!(join_semi(&vec![]), "");
    assert_eq!(join_semi(&vec!["A".to_string()]), "A");
    assert_eq!(
        join_semi(&vec!["A".to_string(), "A".to_string(), "B".to_string()]),
        "A;A;B"
    );
}

#[test]
fn decimal_text_is_stable() {
    assert_eq!(u32_dec(0), "0");
    assert_eq!(u32_dec(9876543), "9876543");
    assert_eq!(i32_dec(0), "0");
    assert_eq!(i32_dec(-123), "-123");
    assert_eq!(i32_dec(2147483647), "2147483647");
    assert_eq!(i32_dec(-2147483648), "-2147483648");
}
