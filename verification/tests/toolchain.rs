use cargo_offload::text::{chars_of, prefixed, trim};
use cargo_offload::toolchain::{
    channel_of_document, detect_toolchain_from_cargo, detect_toolchain_from_files,
    resolve_toolchain,
};

#[test]
fn version_output_names_the_toolchain() {
    assert_eq!(
        detect_toolchain_from_cargo("cargo 1.87.0 (99624be96 2025-05-06)\n"),
        Some("1.87.0".to_string())
    );
    assert_eq!(
        detect_toolchain_from_cargo("cargo 1.90.0-nightly"),
        Some("1.90.0-nightly".to_string())
    );
}

#[test]
fn version_output_with_odd_spacing() {
    assert_eq!(detect_toolchain_from_cargo("  cargo \t 1.87.0"), Some("1.87.0".to_string()));
    assert_eq!(detect_toolchain_from_cargo("cargo\n1.87.0\n"), Some("1.87.0".to_string()));
}

#[test]
fn version_output_of_something_else() {
    assert_eq!(detect_toolchain_from_cargo("rustc 1.87.0"), None);
    assert_eq!(detect_toolchain_from_cargo("cargo"), None);
    assert_eq!(detect_toolchain_from_cargo("cargo   \n"), None);
    assert_eq!(detect_toolchain_from_cargo("cargo-1.87.0 x"), None);
    assert_eq!(detect_toolchain_from_cargo(""), None);
}

#[test]
fn structured_file_declares_the_channel() {
    let text = "[toolchain]\nchannel = \"nightly-2024-05-01\"\ncomponents = [\"rustfmt\"]\n";
    assert_eq!(
        detect_toolchain_from_files(Some(text), None),
        Some("nightly-2024-05-01".to_string())
    );
}

#[test]
fn structured_file_wins_over_plain_file() {
    let text = "[toolchain]\nchannel = \"1.80.0\"\n";
    assert_eq!(detect_toolchain_from_files(Some(text), Some("stable\n")), Some("1.80.0".to_string()));
}

#[test]
fn structured_file_in_inline_form() {
    assert_eq!(
        detect_toolchain_from_files(Some("toolchain = { channel = 'beta' }"), None),
        Some("beta".to_string())
    );
    assert_eq!(
        detect_toolchain_from_files(Some("toolchain.channel = \"beta\""), None),
        Some("beta".to_string())
    );
}

#[test]
fn structured_file_without_channel_passes_on() {
    assert_eq!(
        detect_toolchain_from_files(Some("[toolchain]\nprofile = \"minimal\"\n"), Some(" stable ")),
        Some("stable".to_string())
    );
    assert_eq!(detect_toolchain_from_files(Some(""), Some("stable")), Some("stable".to_string()));
    assert_eq!(
        detect_toolchain_from_files(Some("channel = \"x\""), Some("stable")),
        Some("stable".to_string())
    );
    assert_eq!(detect_toolchain_from_files(Some("[toolchain]\n"), None), None);
}

#[test]
fn structured_file_with_wrong_types_passes_on() {
    assert_eq!(
        detect_toolchain_from_files(Some("[toolchain]\nchannel = 5\n"), Some("stable")),
        Some("stable".to_string())
    );
    assert_eq!(
        detect_toolchain_from_files(Some("toolchain = \"nightly\"\n"), Some("stable")),
        Some("stable".to_string())
    );
}

#[test]
fn structured_file_that_does_not_parse_passes_on() {
    assert_eq!(
        detect_toolchain_from_files(Some("[toolchain\nchannel = "), Some("stable")),
        Some("stable".to_string())
    );
    assert_eq!(detect_toolchain_from_files(Some("this is not toml"), None), None);
}

#[test]
fn plain_file_is_trimmed() {
    assert_eq!(detect_toolchain_from_files(None, Some("\n  nightly \t\n")), Some("nightly".to_string()));
    assert_eq!(detect_toolchain_from_files(None, Some("1.80 beta")), Some("1.80 beta".to_string()));
}

#[test]
fn empty_plain_file_declares_nothing() {
    assert_eq!(detect_toolchain_from_files(None, Some("")), None);
    assert_eq!(detect_toolchain_from_files(None, Some(" \n\t ")), None);
    assert_eq!(detect_toolchain_from_files(None, None), None);
}

#[test]
fn channel_of_a_parsed_document() {
    let document: toml::Value = toml::from_str("[toolchain]\nchannel = \"stable\"\n").unwrap();
    assert_eq!(channel_of_document(&document), Some("stable".to_string()));
    let other: toml::Value = toml::from_str("[package]\nname = \"x\"\n").unwrap();
    assert_eq!(channel_of_document(&other), None);
    assert_eq!(channel_of_document(&toml::Value::String("stable".to_string())), None);
}

#[test]
fn explicit_toolchain_wins() {
    assert_eq!(
        resolve_toolchain(
            Some("nightly".to_string()),
            Some("cargo 1.87.0"),
            Some("[toolchain]\nchannel = \"beta\""),
            Some("stable"),
        ),
        Some("nightly".to_string())
    );
}

#[test]
fn probed_toolchain_wins_over_files() {
    assert_eq!(
        resolve_toolchain(None, Some("cargo 1.87.0"), Some("[toolchain]\nchannel = \"beta\""), None),
        Some("1.87.0".to_string())
    );
}

#[test]
fn files_are_the_last_resort() {
    assert_eq!(
        resolve_toolchain(None, Some("garbage"), Some("[toolchain]\nchannel = \"beta\""), None),
        Some("beta".to_string())
    );
    assert_eq!(resolve_toolchain(None, None, None, Some("stable")), Some("stable".to_string()));
    assert_eq!(resolve_toolchain(None, None, None, None), None);
    assert_eq!(resolve_toolchain(None, Some("x"), Some("y"), Some(" ")), None);
}

#[test]
fn trimming() {
    assert_eq!(trim("  a b  "), "a b");
    assert_eq!(trim("\u{a0}x\u{3000}"), "x");
    assert_eq!(trim(""), "");
    assert_eq!(trim("   "), "");
    assert_eq!(trim("x"), "x");
}

#[test]
fn characters_of_a_string() {
    assert_eq!(chars_of("héllo"), vec!['h', 'é', 'l', 'l', 'o']);
    assert_eq!(chars_of(""), Vec::<char>::new());
    assert_eq!(prefixed("a", "ßc"), "aßc");
}
