use hotserver::net::{api_server_url, bind_address, parse_port, server_url, PortError};
use hotserver::text::{i64_to_text, u64_to_text};

#[test]
fn decimal_text_of_unsigned_values() {
    assert_eq!(u64_to_text(0), "0");
    assert_eq!(u64_to_text(7), "7");
    assert_eq!(u64_to_text(10), "10");
    assert_eq!(u64_to_text(1234567890), "1234567890");
    assert_eq!(u64_to_text(u64::MAX), "18446744073709551615");
}

#[test]
fn decimal_text_of_signed_values() {
    assert_eq!(i64_to_text(0), "0");
    assert_eq!(i64_to_text(-42), "-42");
    assert_eq!(i64_to_text(1700000000), "1700000000");
    assert_eq!(i64_to_text(i64::MIN), "-9223372036854775808");
    assert_eq!(i64_to_text(i64::MAX), "9223372036854775807");
}

#[test]
fn ports_that_parse() {
    assert_eq!(parse_port("8000"), Ok(8000));
    assert_eq!(parse_port("0"), Ok(0));
    assert_eq!(parse_port("+80"), Ok(80));
    assert_eq!(parse_port("0080"), Ok(80));
    assert_eq!(parse_port("65535"), Ok(65535));
}

#[test]
fn ports_that_are_refused() {
    for text in ["", "+", "-", "-1", "65536", "80a", " 80", "80 ", "++80", "99999999999999999999", "８０"] {
        assert_eq!(parse_port(text), Err(PortError::NotANumber), "{text:?}");
        assert_eq!(text.parse::<u16>().is_err(), true, "{text:?}");
    }
}

#[test]
fn ports_agree_with_std_parse() {
    for text in ["1", "+0", "443", "00000000000000000001", "65534", "7000"] {
        assert_eq!(parse_port(text).ok(), text.parse::<u16>().ok(), "{text:?}");
    }
}

#[test]
fn port_error_message() {
    assert_eq!(PortError::NotANumber.message(), "PORT is not a valid number");
}

#[test]
fn addresses_and_urls() {
    assert_eq!(server_url("127.0.0.1", "8000"), "http://127.0.0.1:8000");
    assert_eq!(bind_address("0.0.0.0", "8080"), "0.0.0.0:8080");
    assert_eq!(api_server_url("http://127.0.0.1:8000"), "http://127.0.0.1:8000/api");
}
