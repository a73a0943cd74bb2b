use guessing_game::config::GameConfig;
use guessing_game::input::{parse_u32, trim_ascii, validate_guess, InputError};

#[test]
fn trim_removes_surrounding_whitespace() {
    assert_eq!(trim_ascii(b"  7\n"), b"7".to_vec());
    assert_eq!(trim_ascii(b"\t 12 \r\n"), b"12".to_vec());
    assert_eq!(trim_ascii(b"a b"), b"a b".to_vec());
    assert_eq!(trim_ascii(b"   \t\n"), Vec::<u8>::new());
    assert_eq!(trim_ascii(b""), Vec::<u8>::new());
}

#[test]
fn parse_accepts_plain_decimal_numbers() {
    assert_eq!(parse_u32(b"0"), Some(0));
    assert_eq!(parse_u32(b"7"), Some(7));
    assert_eq!(parse_u32(b"007"), Some(7));
    assert_eq!(parse_u32(b"+7"), Some(7));
    assert_eq!(parse_u32(b"4294967295"), Some(u32::MAX));
}

#[test]
fn parse_rejects_everything_else() {
    assert_eq!(parse_u32(b""), None);
    assert_eq!(parse_u32(b"+"), None);
    assert_eq!(parse_u32(b"-7"), None);
    assert_eq!(parse_u32(b"7a"), None);
    assert_eq!(parse_u32(b"a7"), None);
    assert_eq!(parse_u32(b"3.5"), None);
    assert_eq!(parse_u32(b"4294967296"), None);
    assert_eq!(parse_u32(b"99999999999999999999"), None);
}

#[test]
fn validate_classifies_each_rejection() {
    let config = GameConfig::defensive();
    assert_eq!(validate_guess(&config, b" 7 "), Ok(7));
    assert_eq!(validate_guess(&config, b"1"), Ok(1));
    assert_eq!(validate_guess(&config, b"10"), Ok(10));
    assert_eq!(
        validate_guess(&config, b"12345678901"),
        Err(InputError::TooLong)
    );
    assert_eq!(validate_guess(&config, b"abc"), Err(InputError::NonNumeric));
    assert_eq!(validate_guess(&config, b""), Err(InputError::NonNumeric));
    assert_eq!(validate_guess(&config, b"0"), Err(InputError::OutOfRange));
    assert_eq!(validate_guess(&config, b"11"), Err(InputError::OutOfRange));
}

#[test]
fn validate_applies_the_cap_to_the_trimmed_line() {
    let config = GameConfig::defensive();
    // Ten bytes after trimming: exactly at the cap, still parsed.
    assert_eq!(validate_guess(&config, b"0000000007"), Ok(7));
    assert_eq!(validate_guess(&config, b"   0000000007   "), Ok(7));
    // Eleven bytes after trimming: over the cap.
    assert_eq!(
        validate_guess(&config, b"00000000007"),
        Err(InputError::TooLong)
    );
}

#[test]
fn validate_honours_a_wide_range() {
    let config = GameConfig::new(1, u32::MAX, None, 10);
    assert_eq!(validate_guess(&config, b"4294967295"), Ok(u32::MAX));
    assert_eq!(validate_guess(&config, b"0"), Err(InputError::OutOfRange));
}
