use site_pipeline::date::{format_date, parse_date, Date};

#[test]
fn parse_accepts_ordinary_date() {
    let d = parse_date("2024-03-05").unwrap();
    assert_eq!(d.year, 2024);
    assert_eq!(d.month, 3);
    assert_eq!(d.day, 5);
}

#[test]
fn parse_accepts_leap_day() {
    let d = parse_date("2024-02-29").unwrap();
    assert_eq!(d.month, 2);
    assert_eq!(d.day, 29);
}

#[test]
fn parse_rejects_leap_day_outside_leap_year() {
    assert!(parse_date("2023-02-29").is_none());
    assert!(parse_date("1900-02-29").is_none());
    assert!(parse_date("2000-02-29").is_some());
}

#[test]
fn parse_rejects_out_of_range_fields() {
    assert!(parse_date("2024-13-05").is_none());
    assert!(parse_date("2024-00-05").is_none());
    assert!(parse_date("2024-04-31").is_none());
    assert!(parse_date("2024-01-00").is_none());
}

#[test]
fn parse_rejects_wrong_shape() {
    assert!(parse_date("2024-3-5").is_none());
    assert!(parse_date("24-03-05").is_none());
    assert!(parse_date("2024/03/05").is_none());
    assert!(parse_date("2024-03-05 ").is_none());
    assert!(parse_date("").is_none());
}

#[test]
fn format_gives_long_form() {
    let d = Date { year: 2024, month: 3, day: 5 };
    assert_eq!(format_date(&d), "March 05, 2024");
}

#[test]
fn format_pads_day_and_year() {
    let d = Date { year: 987, month: 12, day: 31 };
    assert_eq!(format_date(&d), "December 31, 0987");
    let d2 = Date { year: 2001, month: 1, day: 1 };
    assert_eq!(format_date(&d2), "January 01, 2001");
}
