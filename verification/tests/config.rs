use hexdec::config::{parse_max, parse_mode, ConfigError, Mode};

#[test]
fn max_empty_yields_default() {
    assert_eq!(parse_max(""), Ok(256));
}

#[test]
fn max_decimal_yields_value() {
    assert_eq!(parse_max("10"), Ok(10));
}

#[test]
fn max_garbage_is_invalid_integer() {
    assert_eq!(parse_max("abc"), Err(ConfigError::InvalidInteger));
}

#[test]
fn max_zero_and_negative_are_accepted_values() {
    assert_eq!(parse_max("0"), Ok(0));
    assert_eq!(parse_max("-5"), Ok(-5));
}

#[test]
fn max_explicit_plus_sign_is_accepted() {
    assert_eq!(parse_max("+7"), Ok(7));
}

#[test]
fn max_out_of_range_is_invalid_integer() {
    assert_eq!(
        parse_max("9223372036854775808"),
        Err(ConfigError::InvalidInteger)
    );
    assert_eq!(parse_max("9223372036854775807"), Ok(i64::MAX));
    assert_eq!(parse_max("-9223372036854775808"), Ok(i64::MIN));
}

#[test]
fn max_hex_text_is_rejected_in_decimal() {
    assert_eq!(parse_max("ff"), Err(ConfigError::InvalidInteger));
}

#[test]
fn mode_empty_defaults_to_hex_to_dec() {
    assert_eq!(parse_mode(""), Ok(Mode::HexToDec));
}

#[test]
fn mode_tokens_name_the_three_modes() {
    assert_eq!(parse_mode("d2x"), Ok(Mode::DecToHex));
    assert_eq!(parse_mode("x2d"), Ok(Mode::HexToDec));
    assert_eq!(parse_mode("both"), Ok(Mode::Mixed));
}

#[test]
fn mode_unknown_token_is_invalid_mode() {
    assert_eq!(parse_mode("xyz"), Err(ConfigError::InvalidMode));
    assert_eq!(parse_mode("D2X"), Err(ConfigError::InvalidMode));
}
