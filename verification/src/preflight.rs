//! Before anything is offloaded: are the local tools there, and which
//! progress flag does the mirroring tool understand?
//!
//! The checks are made one after the other by the caller, which hands in
//! what it has seen so far and is told what to probe next.

use vstd::prelude::*;
use vstd::string::StringExecFns;
use crate::error::{Fault, OffloadError};
use crate::text::{push_text, texts};

verus! {

/// How a probe of a local tool ended.
#[derive(Debug, Clone, Copy, PartialEq, Eq)]
pub enum Probe {
    /// The tool could not be started.
    Missing,
    /// The tool ran and reported a failure.
    Failed,
    /// The tool ran and reported success.
    Passed,
}

/// One of the probes.
#[derive(Debug, Clone, Copy, PartialEq, Eq)]
pub enum Check {
    /// Is the mirroring tool there?
    MirrorVersion,
    /// Does it understand the newer progress flag?
    MirrorProgress,
    /// Is the remote shell there?
    ShellVersion,
}

/// What is wrong with the remote shell; the work goes on regardless.
#[derive(Debug, Clone, Copy, PartialEq, Eq)]
pub enum ShellWarning {
    /// It is installed and its probe failed.
    Unreliable,
    /// It is not installed.
    Missing,
}

/// What the checks found.
#[derive(Debug, Clone, PartialEq, Eq)]
pub struct Prerequisites {
    /// The progress flag to hand to the mirroring tool.
    pub progress_flag: String,
    /// What to warn the user of, if anything.
    pub warning: Option<ShellWarning>,
}

/// What to do next.
#[derive(Debug, Clone, PartialEq, Eq)]
pub enum Preflight {
    /// Make this probe and come back with its result.
    Probe(Check),
    /// All probes are made.
    Ready(Prerequisites),
}

/// The mathematical content of a [`Preflight`].
pub ghost enum PreflightView {
    Probe(Check),
    Ready { progress_flag: Seq<char>, warning: Option<ShellWarning> },
}

impl View for Preflight {
    type V = PreflightView;

    open spec fn view(&self) -> PreflightView {
        match self {
            Preflight::Probe(check) => PreflightView::Probe(*check),
            Preflight::Ready(found) => PreflightView::Ready {
                progress_flag: found.progress_flag@,
                warning: found.warning,
            },
        }
    }
}

/// The progress flag for a mirroring tool whose probe of the newer flag
/// ended as given: the newer flag only if the probe passed.
pub open spec fn progress_flag_for(probe: Probe) -> Seq<char> {
    if probe == Probe::Passed {
        "--info=progress2"@
    } else {
        "--progress"@
    }
}

/// The warning for a probe of the remote shell.
pub open spec fn shell_warning_for(probe: Probe) -> Option<ShellWarning> {
    match probe {
        Probe::Passed => None,
        Probe::Failed => Some(ShellWarning::Unreliable),
        Probe::Missing => Some(ShellWarning::Missing),
    }
}

/// What follows from the probes seen so far, in the order in which they are
/// made: the mirroring tool, its progress flag, the remote shell. Without a
/// working mirroring tool nothing goes on; a remote shell that does not
/// answer costs a warning only.
pub open spec fn preflight_of(seen: Seq<Probe>) -> Result<PreflightView, Fault> {
    if seen.len() == 0 {
        Ok(PreflightView::Probe(Check::MirrorVersion))
    } else if seen[0] == Probe::Missing {
        Err(Fault::MirrorToolMissing)
    } else if seen[0] == Probe::Failed {
        Err(Fault::MirrorToolBroken)
    } else if seen.len() == 1 {
        Ok(PreflightView::Probe(Check::MirrorProgress))
    } else if seen.len() == 2 {
        Ok(PreflightView::Probe(Check::ShellVersion))
    } else {
        Ok(
            PreflightView::Ready {
                progress_flag: progress_flag_for(seen[1]),
                warning: shell_warning_for(seen[2]),
            },
        )
    }
}

/// The program of a probe.
pub open spec fn probe_program(check: Check) -> Seq<char> {
    match check {
        Check::MirrorVersion | Check::MirrorProgress => "rsync"@,
        Check::ShellVersion => "ssh"@,
    }
}

/// The arguments of a probe.
pub open spec fn probe_arguments(check: Check) -> Seq<Seq<char>> {
    match check {
        Check::MirrorVersion => seq!["--version"@],
        Check::MirrorProgress => seq![
            "--info=progress2"@,
            "--dry-run"@,
            "--quiet"@,
            "/dev/null"@,
            "/tmp/"@,
        ],
        Check::ShellVersion => seq!["-V"@],
    }
}

/// The program to start for a probe, and its arguments.
pub fn probe_call(check: Check) -> (r: (String, Vec<String>))
    ensures
        r.0@ == probe_program(check),
        texts(r.1@) == probe_arguments(check),
{
    let mut arguments: Vec<String> = Vec::new();
    assert(texts(arguments@) =~= Seq::<Seq<char>>::empty());
    match check {
        Check::MirrorVersion => {
            push_text(&mut arguments, "--version");
            assert(texts(arguments@) =~= probe_arguments(check));
            (String::from_str("rsync"), arguments)
        },
        Check::MirrorProgress => {
            push_text(&mut arguments, "--info=progress2");
            push_text(&mut arguments, "--dry-run");
            push_text(&mut arguments, "--quiet");
            push_text(&mut arguments, "/dev/null");
            push_text(&mut arguments, "/tmp/");
            assert(texts(arguments@) =~= probe_arguments(check));
            (String::from_str("rsync"), arguments)
        },
        Check::ShellVersion => {
            push_text(&mut arguments, "-V");
            assert(texts(arguments@) =~= probe_arguments(check));
            (String::from_str("ssh"), arguments)
        },
    }
}

/// Decides, from the probes made so far, what to probe next, or what the
/// probes have found once all are made.
pub fn check_prerequisites(seen: &[Probe]) -> (r: Result<Preflight, OffloadError>)
    ensures
        match preflight_of(seen@) {
            Ok(next) => r matches Ok(p) && p@ == next,
            Err(fault) => r matches Err(e) && e@ == fault,
        },
{
    if seen.len() == 0 {
        return Ok(Preflight::Probe(Check::MirrorVersion));
    }
    match seen[0] {
        Probe::Missing => {
            return Err(OffloadError::MirrorToolMissing);
        },
        Probe::Failed => {
            return Err(OffloadError::MirrorToolBroken);
        },
        Probe::Passed => {},
    }
    if seen.len() == 1 {
        return Ok(Preflight::Probe(Check::MirrorProgress));
    }
    if seen.len() == 2 {
        return Ok(Preflight::Probe(Check::ShellVersion));
    }
    let progress_flag = match seen[1] {
        Probe::Passed => String::from_str("--info=progress2"),
        _ => String::from_str("--progress"),
    };
    let warning = match seen[2] {
        Probe::Passed => None,
        Probe::Failed => Some(ShellWarning::Unreliable),
        Probe::Missing => Some(ShellWarning::Missing),
    };
    Ok(Preflight::Ready(Prerequisites { progress_flag, warning }))
}

/// What the user is warned with about the remote shell, line by line.
pub open spec fn warning_lines(warning: ShellWarning) -> Seq<Seq<char>> {
    match warning {
        ShellWarning::Unreliable => seq![
            "Warning: ssh is installed but may not be working properly."@,
        ],
        ShellWarning::Missing => seq![
            "Warning: ssh is not installed or not found in PATH."@,
            "SSH is required for connecting to the remote server."@,
        ],
    }
}

impl ShellWarning {
    /// What the user is warned with, line by line.
    pub fn lines(&self) -> (r: Vec<String>)
        ensures
            texts(r@) == warning_lines(*self),
    {
        let mut out: Vec<String> = Vec::new();
        assert(texts(out@) =~= Seq::<Seq<char>>::empty());
        match self {
            ShellWarning::Unreliable => {
                push_text(&mut out, "Warning: ssh is installed but may not be working properly.");
            },
            ShellWarning::Missing => {
                push_text(&mut out, "Warning: ssh is not installed or not found in PATH.");
                push_text(&mut out, "SSH is required for connecting to the remote server.");
            },
        }
        assert(texts(out@) =~= warning_lines(*self));
        out
    }
}

} // verus!
