use cumtd_client::date::Date;
use cumtd_client::Error;

#[test]
fn unrenderable_dates_are_format_errors() {
    assert!(matches!(Date::for_wire(-1, 1, 1), Err(Error::FormatDateError(_))));
    assert!(matches!(Date::for_wire(2023, 2, 29), Err(Error::FormatDateError(_))));
    assert!(matches!(Date::for_wire(10000, 1, 1), Err(Error::FormatDateError(_))));
    let d = Date::for_wire(2024, 2, 29).unwrap();
    assert_eq!(d, Date::new(2024, 2, 29).unwrap());
}

#[test]
fn wire_text_round_trips() {
    let cases = [
        (2024u32, 2u8, 29u8),
        (2023, 12, 31),
        (2000, 2, 29),
        (1900, 2, 28),
        (1, 1, 1),
        (9999, 12, 31),
    ];
    for (y, m, d) in cases {
        let date = Date::new(y, m, d).expect("a real calendar day");
        let text = date.to_wire();
        assert_eq!(Date::from_wire(&text), Some(date));
    }
}

#[test]
fn leap_day_renders_with_padding() {
    let d = Date::new(2024, 2, 29).unwrap();
    assert_eq!(d.to_wire(), "2024-02-29");
    let e = Date::new(987, 4, 5).unwrap();
    assert_eq!(e.to_wire(), "0987-04-05");
}

#[test]
fn unreal_days_are_refused() {
    assert_eq!(Date::new(2023, 2, 29), None);
    assert_eq!(Date::new(2024, 13, 1), None);
    assert_eq!(Date::new(2024, 0, 1), None);
    assert_eq!(Date::new(2024, 4, 31), None);
    assert_eq!(Date::new(2024, 1, 0), None);
    assert_eq!(Date::new(10000, 1, 1), None);
    assert_eq!(Date::new(1900, 2, 29), None);
    assert_eq!(Date::new(2000, 2, 29), Some(Date { year: 2000, month: 2, day: 29 }));
}

#[test]
fn malformed_wire_text_is_refused() {
    assert_eq!(Date::from_wire("20240229"), None);
    assert_eq!(Date::from_wire("2024-2-29"), None);
    assert_eq!(Date::from_wire("2024/02/29"), None);
    assert_eq!(Date::from_wire("2024-02-30"), None);
    assert_eq!(Date::from_wire("2024-02-29T00:00"), None);
    assert_eq!(Date::from_wire(""), None);
    assert_eq!(Date::from_wire("yyyy-mm-dd"), None);
}

#[test]
fn accessors_expose_the_fields() {
    let d = Date::new(2024, 6, 15).unwrap();
    assert_eq!(d.year(), 2024);
    assert_eq!(d.month(), 6);
    assert_eq!(d.day(), 15);
}
