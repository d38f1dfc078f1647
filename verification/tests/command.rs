use cargo_offload::command::{build_cargo_arguments, build_cargo_command, inject_target};

fn list(items: &[&str]) -> Vec<String> {
    items.iter().map(|s| s.to_string()).collect()
}

#[test]
fn target_is_appended_when_absent() {
    assert_eq!(
        inject_target(&list(&["--release", "-v"]), "x86_64-unknown-linux-gnu"),
        list(&["--release", "-v", "--target", "x86_64-unknown-linux-gnu"])
    );
    assert_eq!(inject_target(&[], "t"), list(&["--target", "t"]));
}

#[test]
fn target_is_not_appended_twice() {
    let args = list(&["--target", "aarch64-apple-darwin", "--release"]);
    assert_eq!(inject_target(&args, "x86_64-unknown-linux-gnu"), args);
    let last = list(&["--release", "--target"]);
    assert_eq!(inject_target(&last, "t"), last);
    let doubled = list(&["--target", "--target"]);
    assert_eq!(inject_target(&doubled, "t"), doubled);
}

#[test]
fn target_with_equals_sign_is_not_the_flag() {
    assert_eq!(
        inject_target(&list(&["--target=a"]), "t"),
        list(&["--target=a", "--target", "t"])
    );
}

#[test]
fn cargo_arguments_with_toolchain() {
    let toolchain = "nightly".to_string();
    assert_eq!(
        build_cargo_arguments(Some(&toolchain), "build", &list(&["--release"]), "t"),
        list(&["+nightly", "build", "--release", "--target", "t"])
    );
    assert_eq!(
        build_cargo_arguments(None, "test", &list(&["--target", "u"]), "t"),
        list(&["test", "--target", "u"])
    );
}

#[test]
fn whole_command_line() {
    assert_eq!(
        build_cargo_command(
            "/tmp/cargo-offload/demo",
            &list(&["RUSTFLAGS=-C opt-level=3"]),
            &list(&["+stable", "build", "--release", "--target", "t"]),
        ),
        "cd /tmp/cargo-offload/demo && RUSTFLAGS='-C opt-level=3' cargo +stable build --release --target t"
    );
    assert_eq!(
        build_cargo_command("/d", &[], &list(&["build"])),
        "cd /d && cargo build"
    );
    assert_eq!(build_cargo_command("/d", &[], &[]), "cd /d && cargo ");
}
