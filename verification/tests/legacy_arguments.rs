use dyncord::commands::arguments::{
    bool_argument as legacy_bool, greedy_string_argument as legacy_greedy,
    i32_argument as legacy_i32, string_argument as legacy_string, u8_argument as legacy_u8,
    ParsingError,
};

#[test]
fn legacy_string_splits_at_first_space() {
    let (arg, rest) = legacy_string("  hello world again").unwrap();
    assert_eq!(arg, "hello");
    assert_eq!(rest, "world again");
}

#[test]
fn legacy_string_without_space_keeps_whole_text() {
    let (arg, rest) = legacy_string("  hello").unwrap();
    assert_eq!(arg, "  hello");
    assert_eq!(rest, "");
}

#[test]
fn legacy_string_missing() {
    assert_eq!(legacy_string("").unwrap_err(), ParsingError::MissingArgument);
}

#[test]
fn legacy_numbers_and_bools() {
    assert_eq!(legacy_i32("12 x").unwrap(), (12, "x".to_string()));
    assert_eq!(legacy_u8("300").unwrap_err(), ParsingError::InvalidArgument);
    assert_eq!(legacy_bool("TRUE").unwrap().0, true);
    assert_eq!(legacy_bool("nope").unwrap_err(), ParsingError::InvalidArgument);
}

#[test]
fn legacy_greedy_takes_the_rest() {
    let (g, rest) = legacy_greedy("   all of it ");
    assert_eq!(g.0, "all of it ");
    assert_eq!(rest, "");
}
