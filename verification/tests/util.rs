use cargo_offload::error::OffloadError;
use cargo_offload::util::{
    format_duration, parse_cargo_style_args, parse_flag, separate_run_args_from_raw,
};
use std::time::Duration;

fn list(items: &[&str]) -> Vec<String> {
    items.iter().map(|s| s.to_string()).collect()
}

#[test]
fn toolchain_token_is_taken_out() {
    assert_eq!(
        parse_cargo_style_args(list(&["offload", "+nightly", "build", "--release"])),
        (Some("nightly".to_string()), list(&["offload", "build", "--release"]))
    );
}

#[test]
fn without_toolchain_token_nothing_changes() {
    let args = list(&["offload", "build", "a+b"]);
    assert_eq!(parse_cargo_style_args(args.clone()), (None, args));
    assert_eq!(parse_cargo_style_args(Vec::new()), (None, Vec::new()));
}

#[test]
fn only_the_first_toolchain_token_is_taken() {
    assert_eq!(
        parse_cargo_style_args(list(&["+stable", "x", "+nightly"])),
        (Some("stable".to_string()), list(&["x", "+nightly"]))
    );
}

#[test]
fn all_leading_plus_signs_are_stripped() {
    assert_eq!(
        parse_cargo_style_args(list(&["a", "++1.80+x"])),
        (Some("1.80+x".to_string()), list(&["a"]))
    );
    assert_eq!(parse_cargo_style_args(list(&["+"])), (Some(String::new()), Vec::new()));
}

#[test]
fn run_arguments_follow_the_separator() {
    assert_eq!(
        separate_run_args_from_raw(&list(&["--release", "--", "-x", "--", "y"])),
        (list(&["--release"]), list(&["-x", "--", "y"]))
    );
    assert_eq!(
        separate_run_args_from_raw(&list(&["--release"])),
        (list(&["--release"]), Vec::new())
    );
    assert_eq!(separate_run_args_from_raw(&list(&["--"])), (Vec::new(), Vec::new()));
    assert_eq!(separate_run_args_from_raw(&[]), (Vec::new(), Vec::new()));
}

#[test]
fn flag_with_separate_value() {
    assert_eq!(
        parse_flag(&list(&["--release", "--bin", "server"]), "bin"),
        Ok(Some("server".to_string()))
    );
}

#[test]
fn flag_with_equals_sign() {
    assert_eq!(
        parse_flag(&list(&["--bin=server", "--release"]), "bin"),
        Ok(Some("server".to_string()))
    );
    assert_eq!(parse_flag(&list(&["--bin=", "x"]), "bin"), Ok(Some(String::new())));
}

#[test]
fn last_argument_is_never_a_flag() {
    assert_eq!(parse_flag(&list(&["--bin=server"]), "bin"), Ok(None));
    assert_eq!(parse_flag(&list(&["--release", "--bin"]), "bin"), Ok(None));
    assert_eq!(parse_flag(&[], "bin"), Ok(None));
}

#[test]
fn absent_flag() {
    assert_eq!(parse_flag(&list(&["--release", "-v", "x"]), "bin"), Ok(None));
    assert_eq!(parse_flag(&list(&["--binary", "x", "y"]), "bin"), Ok(None));
    assert_eq!(parse_flag(&list(&["-bin", "x", "y"]), "bin"), Ok(None));
    assert_eq!(parse_flag(&list(&["bin", "x", "y"]), "bin"), Ok(None));
}

#[test]
fn flag_followed_by_a_flag_is_refused() {
    let r = parse_flag(&list(&["--bin", "--release", "x"]), "bin");
    assert_eq!(
        r,
        Err(OffloadError::InvalidArgument {
            flag: "bin".to_string(),
            value: "--release".to_string()
        })
    );
    assert_eq!(r.unwrap_err().message(), "Invalid argument `--bin --release`");
    assert!(parse_flag(&list(&["--bin", "-", "x"]), "bin").is_err());
}

#[test]
fn first_mention_of_the_flag_decides() {
    assert_eq!(
        parse_flag(&list(&["--bin", "a", "--bin=b", "x"]), "bin"),
        Ok(Some("a".to_string()))
    );
    assert_eq!(
        parse_flag(&list(&["--example=e", "--bin", "b"]), "bin"),
        Ok(Some("b".to_string()))
    );
}

#[test]
fn two_equals_signs_are_no_assignment() {
    assert_eq!(parse_flag(&list(&["--bin=a=b", "x"]), "bin"), Ok(None));
    assert_eq!(parse_flag(&list(&["--bin=a=b", "x"]), "bin=a=b"), Ok(Some("x".to_string())));
    assert_eq!(parse_flag(&list(&["--a=b", "x"]), "a=b"), Ok(None));
}

#[test]
fn durations_below_a_minute() {
    assert_eq!(format_duration(0, 0), "0.000s");
    assert_eq!(format_duration(5, 30), "5.030s");
    assert_eq!(format_duration(59, 999), "59.999s");
    assert_eq!(format_duration(0, 7), "0.007s");
}

#[test]
fn durations_with_minutes() {
    assert_eq!(format_duration(60, 0), "1m 0.000s");
    assert_eq!(format_duration(125, 250), "2m 5.250s");
    assert_eq!(format_duration(3600, 1), "60m 0.001s");
    assert_eq!(format_duration(u64::MAX, 999), "307445734561825860m 15.999s");
}

#[test]
fn milliseconds_beyond_three_places_are_kept() {
    assert_eq!(format_duration(1, 1234), "1.1234s");
}

fn text_of(duration: Duration) -> String {
    format_duration(duration.as_secs(), duration.subsec_millis())
}

#[test]
fn duration_of_the_standard_library() {
    assert_eq!(text_of(Duration::from_millis(125_250)), "2m 5.250s");
    assert_eq!(text_of(Duration::from_millis(1_005)), "1.005s");
    assert_eq!(text_of(Duration::new(61, 999_999_999)), "1m 1.999s");
    assert_eq!(text_of(Duration::ZERO), "0.000s");
}
