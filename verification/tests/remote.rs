use cargo_offload::error::OffloadError;
use cargo_offload::remote::{
    build_shell_arguments, judge_remote, parse_forward, plain_call, remote_call, silent_call,
    Finished, PortForwardSpec, Verdict,
};

fn list(items: &[&str]) -> Vec<String> {
    items.iter().map(|s| s.to_string()).collect()
}

#[test]
fn forward_with_one_port() {
    assert_eq!(
        parse_forward("8080"),
        Ok(PortForwardSpec { local: "8080".to_string(), remote: "8080".to_string() })
    );
}

#[test]
fn forward_with_two_ports() {
    assert_eq!(
        parse_forward("8080:80"),
        Ok(PortForwardSpec { local: "8080".to_string(), remote: "80".to_string() })
    );
    assert_eq!(
        parse_forward(":80"),
        Ok(PortForwardSpec { local: String::new(), remote: "80".to_string() })
    );
    assert_eq!(
        parse_forward("80:"),
        Ok(PortForwardSpec { local: "80".to_string(), remote: String::new() })
    );
}

#[test]
fn forward_with_two_colons_is_refused() {
    let r = parse_forward("1:2:3");
    assert_eq!(r, Err(OffloadError::InvalidForward("1:2:3".to_string())));
    assert_eq!(r.unwrap_err().message(), "Invalid port forwarding specification: 1:2:3");
    assert!(parse_forward("::").is_err());
}

#[test]
fn silent_arguments() {
    assert_eq!(
        build_shell_arguments("me@h", 2222, "ls -l", false, &[]),
        Ok(list(&["-p", "2222", "me@h", "ls -l"]))
    );
}

#[test]
fn interactive_arguments_with_forwards() {
    assert_eq!(
        build_shell_arguments("h", 22, "cargo run", true, &list(&["8080", "3000:80"])),
        Ok(list(&[
            "-t",
            "-L",
            "8080:localhost:8080",
            "-L",
            "3000:localhost:80",
            "-p",
            "22",
            "h",
            "cargo run"
        ]))
    );
}

#[test]
fn first_malformed_forward_is_reported() {
    assert_eq!(
        build_shell_arguments("h", 22, "c", true, &list(&["1", "a:b:c", "x:y:z"])),
        Err(OffloadError::InvalidForward("a:b:c".to_string()))
    );
    assert_eq!(
        remote_call("h", 22, "c".to_string(), true, &list(&["1:2:3"])),
        Err(OffloadError::InvalidForward("1:2:3".to_string()))
    );
}

#[test]
fn calls_name_the_remote_shell() {
    let call = silent_call("h", 65535, "true".to_string());
    assert_eq!(call.program, "ssh");
    assert_eq!(call.arguments, list(&["-p", "65535", "h", "true"]));
    assert_eq!(call.command, "true");
    assert!(!call.interactive);
    let shown = plain_call("h", 1, "top".to_string(), true);
    assert_eq!(shown.arguments, list(&["-t", "-p", "1", "h", "top"]));
    assert!(shown.interactive);
    let forwarded = remote_call("h", 22, "c".to_string(), false, &list(&["5"])).unwrap();
    assert_eq!(forwarded.arguments, list(&["-L", "5:localhost:5", "-p", "22", "h", "c"]));
}

#[test]
fn success_is_silent() {
    let call = silent_call("h", 22, "true".to_string());
    let done = Finished::Exited { success: true, errors: String::new() };
    assert_eq!(judge_remote(&call, &done), Verdict { replay_output: false, result: Ok(()) });
}

#[test]
fn failed_silent_command_replays_its_output() {
    let call = silent_call("h", 22, "false".to_string());
    let done = Finished::Exited { success: false, errors: "x".to_string() };
    let verdict = judge_remote(&call, &done);
    assert_eq!(
        verdict,
        Verdict {
            replay_output: true,
            result: Err(OffloadError::RemoteFailed("false".to_string()))
        }
    );
    assert_eq!(verdict.result.unwrap_err().message(), "SSH command failed: false");
}

#[test]
fn failed_interactive_command_has_shown_its_output() {
    let call = plain_call("h", 22, "false".to_string(), true);
    let done = Finished::Exited { success: false, errors: String::new() };
    assert_eq!(
        judge_remote(&call, &done),
        Verdict {
            replay_output: false,
            result: Err(OffloadError::RemoteFailed("false".to_string()))
        }
    );
}

#[test]
fn missing_shell_is_told_apart_from_failed_command() {
    let call = silent_call("h", 22, "true".to_string());
    let verdict = judge_remote(&call, &Finished::NotStarted);
    assert_eq!(
        verdict,
        Verdict { replay_output: false, result: Err(OffloadError::ToolMissing("ssh".to_string())) }
    );
    assert_eq!(verdict.result.unwrap_err().message(), "Cannot run local tool: ssh");
}
