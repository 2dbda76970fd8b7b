use snippets::data_processing::{check_number, process_data, DataProcessingError, MAX_VALUE};
use snippets::decimal::{decimal_string, push_decimal};

#[test]
fn a_number_in_range_is_doubled() {
    assert!(matches!(process_data("50"), Ok(100)));
    assert!(matches!(process_data("0"), Ok(0)));
    assert!(matches!(process_data("1000"), Ok(2000)));
    assert!(matches!(process_data("+7"), Ok(14)));
    assert!(matches!(process_data("-0"), Ok(0)));
    assert!(matches!(process_data("007"), Ok(14)));
}

#[test]
fn text_that_is_no_number_is_a_parse_error() {
    for text in ["not_a_number", "", "+", "-", " 5", "5 ", "1.5", "99999999999", "-99999999999"] {
        assert!(matches!(process_data(text), Err(DataProcessingError::Parse { .. })));
    }
}

#[test]
fn a_negative_number_is_invalid_data() {
    match process_data("-5") {
        Err(DataProcessingError::InvalidData(text)) => {
            assert_eq!(text, "Negative numbers (-5) are not allowed");
        }
        other => panic!("unexpected outcome: {:?}", other),
    }
}

#[test]
fn the_smallest_number_is_invalid_data() {
    match process_data("-2147483648") {
        Err(DataProcessingError::InvalidData(text)) => {
            assert_eq!(text, "Negative numbers (-2147483648) are not allowed");
        }
        other => panic!("unexpected outcome: {:?}", other),
    }
}

#[test]
fn a_number_above_the_maximum_is_a_configuration_error() {
    match process_data("1001") {
        Err(DataProcessingError::ConfigError { details }) => {
            assert_eq!(details, "Value exceeds configured maximum threshold");
        }
        other => panic!("unexpected outcome: {:?}", other),
    }
    assert!(matches!(process_data("2147483647"), Err(DataProcessingError::ConfigError { .. })));
}

#[test]
fn check_number_at_its_bounds() {
    assert_eq!(MAX_VALUE, 1000);
    assert!(matches!(check_number(0), Ok(0)));
    assert!(matches!(check_number(MAX_VALUE), Ok(2000)));
    assert!(matches!(check_number(-1), Err(DataProcessingError::InvalidData(_))));
    assert!(matches!(check_number(MAX_VALUE + 1), Err(DataProcessingError::ConfigError { .. })));
}

#[test]
fn messages_of_the_errors() {
    let io = DataProcessingError::from(std::io::Error::new(std::io::ErrorKind::NotFound, "gone"));
    assert!(matches!(io, DataProcessingError::Io(_)));
    assert_eq!(io.message(), "An I/O error occurred while processing data");

    let invalid = DataProcessingError::InvalidData("bad".to_string());
    assert_eq!(invalid.message(), "Invalid data found: bad");

    let config = DataProcessingError::ConfigError { details: "too big".to_string() };
    assert_eq!(config.message(), "Configuration error: too big");
}

#[test]
fn message_of_a_parse_error_carries_the_cause() {
    let cause = "x".parse::<i32>().unwrap_err();
    let expected = format!("Failed to parse number: {}", cause);
    let error = DataProcessingError::from(cause);
    assert!(matches!(error, DataProcessingError::Parse { .. }));
    assert_eq!(error.message(), expected);
    assert_eq!(error.message(), "Failed to parse number: invalid digit found in string");

    match process_data("") {
        Err(error) => assert_eq!(
            error.message(),
            "Failed to parse number: cannot parse integer from empty string"
        ),
        Ok(_) => panic!("the empty text is no number"),
    }
}

#[test]
fn decimal_notation_of_integers() {
    assert_eq!(decimal_string(0), "0");
    assert_eq!(decimal_string(7), "7");
    assert_eq!(decimal_string(10), "10");
    assert_eq!(decimal_string(-10), "-10");
    assert_eq!(decimal_string(1000), "1000");
    assert_eq!(decimal_string(i32::MAX), "2147483647");
    assert_eq!(decimal_string(i32::MIN), "-2147483648");
}

#[test]
fn decimal_notation_agrees_with_the_standard_library() {
    for n in [-100_000, -12_345, -1, 0, 1, 9, 10, 99, 100, 101, 65_535, 1_000_000] {
        assert_eq!(decimal_string(n), n.to_string());
    }
}

#[test]
fn push_decimal_appends() {
    let mut text = String::from("n = ");
    push_decimal(&mut text, 4_294_967_295);
    assert_eq!(text, "n = 4294967295");
    push_decimal(&mut text, 0);
    assert_eq!(text, "n = 42949672950");
}
