use cargo_offload::error::OffloadError;
use cargo_offload::preflight::{
    check_prerequisites, probe_call, Check, Preflight, Prerequisites, Probe, ShellWarning,
};

fn list(items: &[&str]) -> Vec<String> {
    items.iter().map(|s| s.to_string()).collect()
}

#[test]
fn probes_come_in_order() {
    assert_eq!(check_prerequisites(&[]), Ok(Preflight::Probe(Check::MirrorVersion)));
    assert_eq!(check_prerequisites(&[Probe::Passed]), Ok(Preflight::Probe(Check::MirrorProgress)));
    assert_eq!(
        check_prerequisites(&[Probe::Passed, Probe::Failed]),
        Ok(Preflight::Probe(Check::ShellVersion))
    );
}

#[test]
fn missing_mirroring_tool_is_fatal() {
    let r = check_prerequisites(&[Probe::Missing]);
    assert_eq!(r, Err(OffloadError::MirrorToolMissing));
    assert_eq!(r.unwrap_err().message(), "rsync not found");
}

#[test]
fn broken_mirroring_tool_is_fatal() {
    let r = check_prerequisites(&[Probe::Failed]);
    assert_eq!(r, Err(OffloadError::MirrorToolBroken));
    assert_eq!(r.unwrap_err().message(), "rsync check failed");
    assert_eq!(
        check_prerequisites(&[Probe::Failed, Probe::Passed, Probe::Passed]),
        Err(OffloadError::MirrorToolBroken)
    );
}

#[test]
fn newer_progress_flag_when_understood() {
    assert_eq!(
        check_prerequisites(&[Probe::Passed, Probe::Passed, Probe::Passed]),
        Ok(Preflight::Ready(Prerequisites {
            progress_flag: "--info=progress2".to_string(),
            warning: None
        }))
    );
}

#[test]
fn older_progress_flag_otherwise() {
    assert_eq!(
        check_prerequisites(&[Probe::Passed, Probe::Failed, Probe::Passed]),
        Ok(Preflight::Ready(Prerequisites { progress_flag: "--progress".to_string(), warning: None }))
    );
    assert_eq!(
        check_prerequisites(&[Probe::Passed, Probe::Missing, Probe::Passed]),
        Ok(Preflight::Ready(Prerequisites { progress_flag: "--progress".to_string(), warning: None }))
    );
}

#[test]
fn remote_shell_trouble_is_a_warning() {
    assert_eq!(
        check_prerequisites(&[Probe::Passed, Probe::Passed, Probe::Failed]),
        Ok(Preflight::Ready(Prerequisites {
            progress_flag: "--info=progress2".to_string(),
            warning: Some(ShellWarning::Unreliable)
        }))
    );
    assert_eq!(
        check_prerequisites(&[Probe::Passed, Probe::Failed, Probe::Missing, Probe::Passed]),
        Ok(Preflight::Ready(Prerequisites {
            progress_flag: "--progress".to_string(),
            warning: Some(ShellWarning::Missing)
        }))
    );
    assert_eq!(
        ShellWarning::Unreliable.lines(),
        list(&["Warning: ssh is installed but may not be working properly."])
    );
    assert_eq!(
        ShellWarning::Missing.lines(),
        list(&[
            "Warning: ssh is not installed or not found in PATH.",
            "SSH is required for connecting to the remote server."
        ])
    );
}

#[test]
fn advice_for_a_missing_mirroring_tool() {
    assert_eq!(
        OffloadError::MirrorToolMissing.advice(),
        list(&[
            "Error: rsync is not installed or not found in PATH.",
            "",
            "rsync is required for cargo-offload to sync files to the remote server."
        ])
    );
    assert_eq!(
        OffloadError::MirrorToolBroken.advice(),
        list(&[
            "Error: rsync is installed but not working properly.",
            "",
            "Please ensure rsync is properly installed and accessible in your PATH."
        ])
    );
    assert_eq!(OffloadError::MissingHost.advice(), Vec::<String>::new());
}

#[test]
fn what_each_probe_runs() {
    assert_eq!(probe_call(Check::MirrorVersion), ("rsync".to_string(), list(&["--version"])));
    assert_eq!(
        probe_call(Check::MirrorProgress),
        (
            "rsync".to_string(),
            list(&["--info=progress2", "--dry-run", "--quiet", "/dev/null", "/tmp/"])
        )
    );
    assert_eq!(probe_call(Check::ShellVersion), ("ssh".to_string(), list(&["-V"])));
}
