use geometrical::arrays::{dynamic_array, stack_array, Config, LabError};
use geometrical::number::parse_i32;

#[test]
fn stack_array_not_a_number() {
    let rows = 2;
    let cols = 2;
    let input = vec!["a", "2", "3", "f"];

    assert_eq!(Err(LabError::CannotInterpret), stack_array(rows, cols, input));
}

#[test]
fn stack_array_two_by_two() {
    assert_eq!(Ok(5), stack_array(2, 2, vec!["1", "2", "3", "4"]));
}

#[test]
fn dynamic_array_two_by_two() {
    assert_eq!(Ok(5), dynamic_array(2, 2, vec!["1", "2", "3", "4"]));
}

#[test]
fn dynamic_array_three_by_three() {
    // diagonals: 7, 4+8, 1+5+9, 2+6, 3
    let input = vec!["1", "2", "3", "4", "5", "6", "7", "8", "9"];
    assert_eq!(Ok(15), dynamic_array(3, 3, input));
}

#[test]
fn dynamic_array_negative_values() {
    assert_eq!(Ok(-2), dynamic_array(2, 2, vec!["-5", "-2", "-3", "-5"]));
}

#[test]
fn dynamic_array_size_mismatch() {
    assert_eq!(Err(LabError::CannotInterpret), dynamic_array(2, 3, vec!["1", "2", "3", "4"]));
}

#[test]
fn dynamic_array_not_a_number() {
    assert_eq!(Err(LabError::CannotInterpret), dynamic_array(1, 2, vec!["1", "x"]));
}

#[test]
fn stack_array_sum_out_of_range() {
    let input = vec!["2147483647", "0", "0", "2147483647"];
    assert_eq!(Err(LabError::SumOutOfRange), stack_array(2, 2, input));
}

#[test]
fn empty_matrix_has_no_diagonal() {
    assert_eq!(Ok(i32::MIN), dynamic_array(0, 0, vec![]));
}

#[test]
fn parse_i32_accepts_signs() {
    assert_eq!(Some(42), parse_i32("42"));
    assert_eq!(Some(7), parse_i32("+7"));
    assert_eq!(Some(-13), parse_i32("-13"));
    assert_eq!(Some(i32::MIN), parse_i32("-2147483648"));
    assert_eq!(Some(i32::MAX), parse_i32("2147483647"));
}

#[test]
fn parse_i32_rejects_bad_text() {
    assert_eq!(None, parse_i32(""));
    assert_eq!(None, parse_i32("-"));
    assert_eq!(None, parse_i32("+"));
    assert_eq!(None, parse_i32("12a"));
    assert_eq!(None, parse_i32(" 1"));
    assert_eq!(None, parse_i32("2147483648"));
    assert_eq!(None, parse_i32("-2147483649"));
    assert_eq!(None, parse_i32("99999999999999999999"));
}

fn args(v: &[&str]) -> Vec<String> {
    v.iter().map(|a| a.to_string()).collect()
}

#[test]
fn config_build_ok() {
    let c = Config::build(args(&["prog", "2", "in.txt", "out.txt"])).unwrap();
    assert_eq!(2, c.mode);
    assert_eq!("in.txt", c.input);
    assert_eq!("out.txt", c.output);
}

#[test]
fn config_build_errors() {
    assert_eq!(LabError::NotEnough, Config::build(args(&["prog"])).unwrap_err());
    assert_eq!(LabError::FirstIsNan, Config::build(args(&["prog", "x", "a", "b"])).unwrap_err());
    assert_eq!(LabError::FirstOutOfRange, Config::build(args(&["prog", "3", "a", "b"])).unwrap_err());
    assert_eq!(LabError::NotEnough, Config::build(args(&["prog", "1", "a"])).unwrap_err());
    assert_eq!(LabError::TooMany, Config::build(args(&["prog", "1", "a", "b", "c"])).unwrap_err());
}

#[test]
fn lab_error_messages() {
    assert_eq!("Not enough arguments", LabError::NotEnough.message());
    assert_eq!("Cannot interpret file contents as array", LabError::CannotInterpret.message());
}
