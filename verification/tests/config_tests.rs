use shortlink::config::{
    default_domain, parse_seconds, Config, DEFAULT_CODE_LENGTH, DEFAULT_TTL_SECONDS,
};

#[test]
fn defaults() {
    assert_eq!(DEFAULT_TTL_SECONDS, 15552000);
    assert_eq!(DEFAULT_TTL_SECONDS, 180 * 24 * 60 * 60);
    assert_eq!(DEFAULT_CODE_LENGTH, 8);
    assert_eq!(default_domain(), "http://localhost:8080");
}

#[test]
fn new_keeps_positive_settings() {
    let c = Config::new("https://sho.rt".to_string(), 60, 6).unwrap();
    assert_eq!(c.domain_prefix, "https://sho.rt");
    assert_eq!(c.default_ttl_seconds, 60);
    assert_eq!(c.code_length, 6);
}

#[test]
fn new_rejects_zero_ttl() {
    assert_eq!(Config::new("https://sho.rt".to_string(), 0, 6), None);
}

#[test]
fn new_rejects_zero_code_length() {
    assert_eq!(Config::new("https://sho.rt".to_string(), 60, 0), None);
}

#[test]
fn from_settings_falls_back_to_defaults() {
    let c = Config::from_settings(None, None);
    assert_eq!(c.domain_prefix, "http://localhost:8080");
    assert_eq!(c.default_ttl_seconds, 15552000);
    assert_eq!(c.code_length, 8);
}

#[test]
fn from_settings_takes_what_is_given() {
    let c = Config::from_settings(Some("https://sho.rt".to_string()), Some("3600".to_string()));
    assert_eq!(c.domain_prefix, "https://sho.rt");
    assert_eq!(c.default_ttl_seconds, 3600);
    assert_eq!(c.code_length, 8);
}

#[test]
fn from_settings_replaces_zero_ttl() {
    let c = Config::from_settings(None, Some("0".to_string()));
    assert_eq!(c.default_ttl_seconds, 15552000);
}

#[test]
fn from_settings_replaces_ttl_that_is_no_number() {
    for text in ["", "soon", "-5", "1.5", "18446744073709551616"] {
        let c = Config::from_settings(None, Some(text.to_string()));
        assert_eq!(c.default_ttl_seconds, 15552000, "{:?}", text);
    }
}

#[test]
fn parse_seconds_reads_decimal_numbers() {
    assert_eq!(parse_seconds("0"), Some(0));
    assert_eq!(parse_seconds("7"), Some(7));
    assert_eq!(parse_seconds("15552000"), Some(15552000));
    assert_eq!(parse_seconds("007"), Some(7));
    assert_eq!(parse_seconds("+5"), Some(5));
    assert_eq!(parse_seconds("18446744073709551615"), Some(u64::MAX));
}

#[test]
fn parse_seconds_rejects_everything_else() {
    assert_eq!(parse_seconds(""), None);
    assert_eq!(parse_seconds("+"), None);
    assert_eq!(parse_seconds("++5"), None);
    assert_eq!(parse_seconds("-1"), None);
    assert_eq!(parse_seconds(" 5"), None);
    assert_eq!(parse_seconds("5 "), None);
    assert_eq!(parse_seconds("1e3"), None);
    assert_eq!(parse_seconds("12a"), None);
    assert_eq!(parse_seconds("\u{ff11}\u{ff12}"), None);
    assert_eq!(parse_seconds("18446744073709551616"), None);
    assert_eq!(parse_seconds("99999999999999999999999"), None);
}

#[test]
fn parse_seconds_agrees_with_the_standard_parser() {
    let samples = [
        "", "+", "0", "+0", "-0", "1", "10", "0010", "+42", "4 2", "42\n", "18446744073709551615",
        "18446744073709551616", "18446744073709551620", "184467440737095516150", "abc", "12abc",
        "\u{0661}",
    ];
    for text in samples {
        assert_eq!(parse_seconds(text), text.parse::<u64>().ok(), "{:?}", text);
    }
}

#[test]
fn short_url_is_prefix_slash_code() {
    let c = Config::from_settings(None, None);
    assert_eq!(c.short_url("aB3dE6gH"), "http://localhost:8080/aB3dE6gH");
    let d = Config::from_settings(Some("https://sho.rt".to_string()), None);
    assert_eq!(d.short_url("x"), "https://sho.rt/x");
    assert_eq!(d.short_url(""), "https://sho.rt/");
}
