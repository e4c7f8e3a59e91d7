use geometrical::batch::{ingest, BatchError};
use geometrical::errors::{ParseEllipseError, ParseRectangleError, ShapeError};
use geometrical::record::{
    ellipse_fields, first_unreadable, keyword, rectangle_fields, scale_fields, triangle_fields, Keyword,
};
use geometrical::text::{cut_once, split_tokens};

fn lines(v: &[&str]) -> Vec<String> {
    v.iter().map(|a| a.to_string()).collect()
}

#[test]
fn tokens_skip_any_whitespace() {
    assert_eq!(vec!["a", "bc", "d"], split_tokens("  a \tbc\n d  "));
    assert!(split_tokens("   ").is_empty());
    assert!(split_tokens("").is_empty());
}

#[test]
fn cut_at_first_space() {
    assert_eq!(
        Some(("RECTANGLE".to_string(), "1 2  3 4".to_string())),
        cut_once("RECTANGLE 1 2  3 4")
    );
    assert_eq!(Some(("".to_string(), "x".to_string())), cut_once(" x"));
    assert_eq!(None, cut_once("SCALE"));
}

#[test]
fn keywords() {
    assert_eq!(Some(Keyword::Rectangle), keyword("RECTANGLE"));
    assert_eq!(Some(Keyword::Triangle), keyword("TRIANGLE"));
    assert_eq!(Some(Keyword::Ellipse), keyword("ELLIPSE"));
    assert_eq!(Some(Keyword::Scale), keyword("SCALE"));
    assert_eq!(None, keyword("rectangle"));
    assert_eq!(None, keyword("CIRCLE"));
}

#[test]
fn rectangle_fields_in_order() {
    let f = rectangle_fields("-5.9 -3.4 3.0 4.0").unwrap();
    assert_eq!(vec!["-5.9", "-3.4", "3.0", "4.0"], f);
    let f = rectangle_fields("1 2 3 4 5").unwrap();
    assert_eq!(vec!["1", "2", "3", "4"], f);
}

#[test]
fn rectangle_missing_fields() {
    let e = rectangle_fields("").unwrap_err();
    assert_eq!(ParseRectangleError::new("".to_string(), "No coords provided (need 4)".to_string()), e);
    let e = rectangle_fields("1 2 3").unwrap_err();
    assert_eq!("1 2 3", e.place);
    assert_eq!("Not enough coords (need 4)", e.cause);
}

#[test]
fn triangle_missing_fields() {
    assert_eq!("No coords provided (need 6)", triangle_fields("  ").unwrap_err().cause);
    assert_eq!("Not enough coords (need 6)", triangle_fields("0 0 1 1 2").unwrap_err().cause);
    assert_eq!(6, triangle_fields("0 0 0 3 3 0").unwrap().len());
}

#[test]
fn ellipse_missing_fields() {
    assert_eq!("No coords provided (need 2)", ellipse_fields("").unwrap_err().cause);
    assert_eq!("Not enough coords (need 2)", ellipse_fields("1").unwrap_err().cause);
    assert_eq!("No vertical radius after coords", ellipse_fields("1 2").unwrap_err().cause);
    assert_eq!("No horizontal radius after coords", ellipse_fields("1 2 3").unwrap_err().cause);
    assert_eq!(vec!["0", "0", "0", "5"], ellipse_fields("0 0 0 5").unwrap());
}

#[test]
fn scale_missing_fields() {
    assert_eq!("No parameters provided (need 3)", scale_fields("").unwrap_err().cause);
    assert_eq!("Not enough parameters (need 3)", scale_fields("0 0").unwrap_err().cause);
    assert_eq!(vec!["0", "0", "2"], scale_fields("0 0 2").unwrap());
}

#[test]
fn first_field_that_is_not_a_number() {
    assert_eq!(Some(1), first_unreadable(&vec![true, false, false]));
    assert_eq!(None, first_unreadable(&vec![true, true]));
    assert_eq!(None, first_unreadable(&vec![]));
}

#[test]
fn unreadable_field_error() {
    let e = ParseRectangleError::unreadable("1 x 3 4", &"x".to_string());
    assert_eq!("1 x 3 4", e.place);
    assert_eq!("Cannot parse `x', expected float32", e.cause);
}

#[test]
fn error_messages() {
    let e = ParseEllipseError::new("0 0 0 5".to_string(), "bad radius".to_string());
    assert_eq!("For ELLIPSE cannot parse `0 0 0 5': bad radius", e.message());
    assert_eq!(
        "For ELLIPSE cannot parse `0 0 0 5': bad radius",
        ShapeError::Ellipse(e).message()
    );
    let r = ParseRectangleError::new("1".to_string(), "short".to_string());
    assert_eq!("For RECTANGLE cannot parse `1': short", r.message());
}

#[test]
fn missing_scale_is_fatal() {
    let input = lines(&["RECTANGLE 0 0 1 1", "TRIANGLE 0 0 0 3 3 0", ""]);
    assert_eq!(BatchError::MissingScale, ingest(&input).unwrap_err());
    assert_eq!(BatchError::MissingScale, ingest(&vec![]).unwrap_err());
}

#[test]
fn bare_scale_word_is_ignored() {
    let input = lines(&["RECTANGLE 0 0 1 1", "SCALE"]);
    assert_eq!(BatchError::MissingScale, ingest(&input).unwrap_err());
}

#[test]
fn ingest_keeps_order_and_stops_at_scale() {
    let input = lines(&[
        "ELLIPSE 0 0 0 5",
        "",
        "CIRCLE 1 1 1",
        "RECTANGLE -5.9 -3.4 3.0 4.0",
        "SCALE 0 0 2",
        "TRIANGLE 0 0 0 3 3 0",
        "SCALE 1 1 1",
    ]);
    let b = ingest(&input).unwrap();
    assert_eq!(2, b.records.len());
    assert_eq!(Keyword::Ellipse, b.records[0].keyword);
    assert_eq!("0 0 0 5", b.records[0].body);
    assert_eq!(Keyword::Rectangle, b.records[1].keyword);
    assert_eq!("-5.9 -3.4 3.0 4.0", b.records[1].body);
    assert_eq!("0 0 2", b.scale);
}

#[test]
fn ingest_scale_only() {
    let b = ingest(&lines(&["SCALE 0 0 1"])).unwrap();
    assert!(b.records.is_empty());
    assert_eq!("0 0 1", b.scale);
}
