use cargo_offload::connection::{parse_host_and_port, resolve_endpoint, DEFAULT_PORT};
use cargo_offload::error::OffloadError;
use cargo_offload::numeral::parse_port_number;

#[test]
fn inline_port_is_split_off() {
    assert_eq!(resolve_endpoint("build01:2222", None), Ok(("build01".to_string(), 2222)));
}

#[test]
fn port_flag_on_plain_host() {
    assert_eq!(resolve_endpoint("build01", Some(22)), Ok(("build01".to_string(), 22)));
}

#[test]
fn user_and_host_with_inline_port() {
    assert_eq!(resolve_endpoint("me@build01:2200", None), Ok(("me@build01".to_string(), 2200)));
}

#[test]
fn port_flag_overrides_inline_port() {
    assert_eq!(resolve_endpoint("me@build01:2200", Some(99)), Ok(("me@build01".to_string(), 99)));
}

#[test]
fn plain_host_gets_default_port() {
    assert_eq!(DEFAULT_PORT, 22);
    assert_eq!(resolve_endpoint("build01", None), Ok(("build01".to_string(), 22)));
}

#[test]
fn last_colon_decides() {
    assert_eq!(resolve_endpoint("a:b:8022", None), Ok(("a:b".to_string(), 8022)));
    assert_eq!(resolve_endpoint("a:22:b", None), Ok(("a:22:b".to_string(), 22)));
}

#[test]
fn text_behind_colon_that_is_no_port_stays_in_host() {
    assert_eq!(resolve_endpoint("build01:ssh", None), Ok(("build01:ssh".to_string(), 22)));
    assert_eq!(resolve_endpoint("build01:", None), Ok(("build01:".to_string(), 22)));
    assert_eq!(resolve_endpoint("build01:70000", None), Ok(("build01:70000".to_string(), 22)));
    assert_eq!(resolve_endpoint("build01:22x", Some(5)), Ok(("build01:22x".to_string(), 5)));
}

#[test]
fn empty_host_string() {
    assert_eq!(resolve_endpoint("", None), Ok((String::new(), 22)));
}

#[test]
fn port_numerals() {
    assert_eq!(parse_port_number("22"), Some(22));
    assert_eq!(parse_port_number("+22"), Some(22));
    assert_eq!(parse_port_number("0022"), Some(22));
    assert_eq!(parse_port_number("65535"), Some(65535));
    assert_eq!(parse_port_number("65536"), None);
    assert_eq!(parse_port_number("99999999999999999999"), None);
    assert_eq!(parse_port_number("0"), Some(0));
    assert_eq!(parse_port_number("+000"), Some(0));
    assert_eq!(parse_port_number(""), None);
    assert_eq!(parse_port_number("+"), None);
    assert_eq!(parse_port_number("-22"), None);
    assert_eq!(parse_port_number("2 2"), None);
    assert_eq!(parse_port_number("h:2222"), None);
    assert_eq!(parse_port_number("٢٢"), None);
}

#[test]
fn host_flag_wins_over_environment() {
    let flag = "a:1000".to_string();
    let env = "b:2000".to_string();
    assert_eq!(parse_host_and_port(Some(&flag), Some(&env), None), Ok(("a".to_string(), 1000)));
    assert_eq!(parse_host_and_port(None, Some(&env), None), Ok(("b".to_string(), 2000)));
    assert_eq!(parse_host_and_port(None, Some(&env), Some(7)), Ok(("b".to_string(), 7)));
}

#[test]
fn no_host_is_an_error() {
    assert_eq!(parse_host_and_port(None, None, Some(22)), Err(OffloadError::MissingHost));
    assert_eq!(
        OffloadError::MissingHost.message(),
        "Host must be specified via --host or CARGO_OFFLOAD_HOST env var"
    );
}

#[test]
fn port_zero_is_refused() {
    assert_eq!(resolve_endpoint("build01:0", None), Err(OffloadError::InvalidPort));
    assert_eq!(resolve_endpoint("build01", Some(0)), Err(OffloadError::InvalidPort));
    assert_eq!(resolve_endpoint("build01:22", Some(0)), Err(OffloadError::InvalidPort));
    let host = "build01".to_string();
    assert_eq!(parse_host_and_port(Some(&host), None, Some(0)), Err(OffloadError::InvalidPort));
    assert_eq!(parse_host_and_port(None, None, Some(0)), Err(OffloadError::MissingHost));
    assert_eq!(OffloadError::InvalidPort.message(), "Port must be between 1 and 65535");
}

#[test]
fn port_flag_overrides_inline_zero() {
    assert_eq!(resolve_endpoint("build01:0", Some(2200)), Ok(("build01".to_string(), 2200)));
}
