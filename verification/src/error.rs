//! What can go wrong, and the message each failure is reported with.

use vstd::prelude::*;
use vstd::string::StringExecFns;
use crate::text::{framed, prefixed, push_string, push_text, texts};

verus! {

/// A failure of the tool.
#[derive(Debug, Clone, PartialEq, Eq)]
pub enum OffloadError {
    /// No host was given, neither by flag nor by the environment.
    MissingHost,
    /// The current directory has no base name to derive the remote directory from.
    UnknownFolder,
    /// The current directory holds no cargo manifest.
    NotAProject,
    /// A port-forward specification with more than one colon.
    InvalidForward(String),
    /// The remote shell ran the command, which the text names, and it failed.
    RemoteFailed(String),
    /// A local tool, named by the text, could not be started at all.
    ToolMissing(String),
    /// Mirroring the sources to the remote machine failed; the text is what
    /// the mirroring tool wrote to its error stream.
    SyncFailed(String),
    /// Mirroring the build output back failed, with the tool's error text.
    CopyFailed(String),
    /// The binary asked for by name is absent after the copy.
    BinaryNotCopied(String),
    /// The example asked for by name is absent after the copy.
    ExampleNotCopied(String),
    /// No artifact at all was retrieved.
    NothingCopied,
    /// The binary asked for is not among the artifacts.
    BinaryNotFound(String),
    /// The example asked for is not among the artifacts.
    ExampleNotFound(String),
    /// Nothing that could be run was built.
    NoBinaries,
    /// More than one binary could be run and none was named.
    AmbiguousBinaries,
    /// The mirroring tool is installed but does not work.
    MirrorToolBroken,
    /// The mirroring tool is not installed.
    MirrorToolMissing,
    /// A flag was followed by something that looks like another flag.
    InvalidArgument { flag: String, value: String },
    /// The port to connect to is 0: ports lie between 1 and 65535.
    InvalidPort,
    /// A binary and an example were both asked for by name.
    BothNamed { bin: String, example: String },
    /// This machine refused to create or remove a directory; the text is
    /// what it reported.
    LocalFailed(String),
}

/// The mathematical content of an [`OffloadError`].
pub ghost enum Fault {
    MissingHost,
    UnknownFolder,
    NotAProject,
    InvalidForward(Seq<char>),
    RemoteFailed(Seq<char>),
    ToolMissing(Seq<char>),
    SyncFailed(Seq<char>),
    CopyFailed(Seq<char>),
    BinaryNotCopied(Seq<char>),
    ExampleNotCopied(Seq<char>),
    NothingCopied,
    BinaryNotFound(Seq<char>),
    ExampleNotFound(Seq<char>),
    NoBinaries,
    AmbiguousBinaries,
    MirrorToolBroken,
    MirrorToolMissing,
    InvalidArgument { flag: Seq<char>, value: Seq<char> },
    InvalidPort,
    BothNamed { bin: Seq<char>, example: Seq<char> },
    LocalFailed(Seq<char>),
}

impl View for OffloadError {
    type V = Fault;

    open spec fn view(&self) -> Fault {
        match self {
            OffloadError::MissingHost => Fault::MissingHost,
            OffloadError::UnknownFolder => Fault::UnknownFolder,
            OffloadError::NotAProject => Fault::NotAProject,
            OffloadError::InvalidForward(s) => Fault::InvalidForward(s@),
            OffloadError::RemoteFailed(s) => Fault::RemoteFailed(s@),
            OffloadError::ToolMissing(s) => Fault::ToolMissing(s@),
            OffloadError::SyncFailed(s) => Fault::SyncFailed(s@),
            OffloadError::CopyFailed(s) => Fault::CopyFailed(s@),
            OffloadError::BinaryNotCopied(s) => Fault::BinaryNotCopied(s@),
            OffloadError::ExampleNotCopied(s) => Fault::ExampleNotCopied(s@),
            OffloadError::NothingCopied => Fault::NothingCopied,
            OffloadError::BinaryNotFound(s) => Fault::BinaryNotFound(s@),
            OffloadError::ExampleNotFound(s) => Fault::ExampleNotFound(s@),
            OffloadError::NoBinaries => Fault::NoBinaries,
            OffloadError::AmbiguousBinaries => Fault::AmbiguousBinaries,
            OffloadError::MirrorToolBroken => Fault::MirrorToolBroken,
            OffloadError::MirrorToolMissing => Fault::MirrorToolMissing,
            OffloadError::InvalidArgument { flag, value } => Fault::InvalidArgument {
                flag: flag@,
                value: value@,
            },
            OffloadError::InvalidPort => Fault::InvalidPort,
            OffloadError::BothNamed { bin, example } => Fault::BothNamed {
                bin: bin@,
                example: example@,
            },
            OffloadError::LocalFailed(s) => Fault::LocalFailed(s@),
        }
    }
}

/// The kinds of failure. Every failure ends the invocation; none is retried.
#[derive(Debug, Clone, Copy, PartialEq, Eq)]
pub enum ErrorKind {
    /// The tool was not told enough, or was told something malformed.
    Configuration,
    /// The remote machine ran what it was asked to and reported a failure.
    RemoteExecution,
    /// A local tool is not there or does not work.
    ToolMissing,
    /// An artifact that was needed did not arrive.
    Artifact,
    /// Several artifacts could be meant and none was named.
    Ambiguous,
    /// This machine refused a change to its own files.
    Local,
}

/// The kind of a failure.
pub open spec fn fault_kind(fault: Fault) -> ErrorKind {
    match fault {
        Fault::MissingHost
        | Fault::UnknownFolder
        | Fault::NotAProject
        | Fault::InvalidForward(_)
        | Fault::InvalidArgument { .. }
        | Fault::InvalidPort
        | Fault::BothNamed { .. } => ErrorKind::Configuration,
        Fault::RemoteFailed(_) | Fault::SyncFailed(_) | Fault::CopyFailed(_) =>
            ErrorKind::RemoteExecution,
        Fault::ToolMissing(_) | Fault::MirrorToolBroken | Fault::MirrorToolMissing =>
            ErrorKind::ToolMissing,
        Fault::BinaryNotCopied(_)
        | Fault::ExampleNotCopied(_)
        | Fault::NothingCopied
        | Fault::BinaryNotFound(_)
        | Fault::ExampleNotFound(_)
        | Fault::NoBinaries => ErrorKind::Artifact,
        Fault::AmbiguousBinaries => ErrorKind::Ambiguous,
        Fault::LocalFailed(_) => ErrorKind::Local,
    }
}

/// The message that a failure is reported with.
pub open spec fn fault_message(fault: Fault) -> Seq<char> {
    match fault {
        Fault::MissingHost => "Host must be specified via --host or CARGO_OFFLOAD_HOST env var"@,
        Fault::UnknownFolder => "Cannot determine current folder name"@,
        Fault::NotAProject => "Not in a Rust project directory (Cargo.toml not found)"@,
        Fault::InvalidForward(s) => "Invalid port forwarding specification: "@ + s,
        Fault::RemoteFailed(s) => "SSH command failed: "@ + s,
        Fault::ToolMissing(s) => "Cannot run local tool: "@ + s,
        Fault::SyncFailed(s) => "rsync failed: "@ + s,
        Fault::CopyFailed(s) => "Failed to copy artifacts: "@ + s,
        Fault::BinaryNotCopied(s) => "Binary '"@ + s + "' not found after copy"@,
        Fault::ExampleNotCopied(s) => "Example '"@ + s + "' not found after copy"@,
        Fault::NothingCopied => "No artifacts were copied"@,
        Fault::BinaryNotFound(s) => "Binary '"@ + s + "' not found"@,
        Fault::ExampleNotFound(s) => "Example '"@ + s + "' not found"@,
        Fault::NoBinaries => "No binaries found to run"@,
        Fault::AmbiguousBinaries =>
            "Multiple binaries found. Use --bin to specify which one to run"@,
        Fault::MirrorToolBroken => "rsync check failed"@,
        Fault::MirrorToolMissing => "rsync not found"@,
        Fault::InvalidArgument { flag, value } => "Invalid argument `--"@ + flag + " "@ + value
            + "`"@,
        Fault::InvalidPort => "Port must be between 1 and 65535"@,
        Fault::BothNamed { bin, example } => "Cannot use both --bin "@ + bin + " and --example "@
            + example,
        Fault::LocalFailed(s) => "Local file operation failed: "@ + s,
    }
}

/// What the user is told before a failure is reported, line by line: only
/// a mirroring tool that is missing or broken takes more than its message.
pub open spec fn fault_advice(fault: Fault) -> Seq<Seq<char>> {
    match fault {
        Fault::MirrorToolBroken => seq![
            "Error: rsync is installed but not working properly."@,
            Seq::empty(),
            "Please ensure rsync is properly installed and accessible in your PATH."@,
        ],
        Fault::MirrorToolMissing => seq![
            "Error: rsync is not installed or not found in PATH."@,
            Seq::empty(),
            "rsync is required for cargo-offload to sync files to the remote server."@,
        ],
        _ => Seq::empty(),
    }
}

impl OffloadError {
    /// What the user is told before this failure is reported, line by line.
    pub fn advice(&self) -> (r: Vec<String>)
        ensures
            texts(r@) == fault_advice(self@),
    {
        let mut out: Vec<String> = Vec::new();
        assert(texts(out@) =~= Seq::<Seq<char>>::empty());
        match self {
            OffloadError::MirrorToolBroken => {
                push_text(&mut out, "Error: rsync is installed but not working properly.");
                push_string(&mut out, String::new());
                push_text(
                    &mut out,
                    "Please ensure rsync is properly installed and accessible in your PATH.",
                );
                assert(texts(out@) =~= fault_advice(self@));
            },
            OffloadError::MirrorToolMissing => {
                push_text(&mut out, "Error: rsync is not installed or not found in PATH.");
                push_string(&mut out, String::new());
                push_text(
                    &mut out,
                    "rsync is required for cargo-offload to sync files to the remote server.",
                );
                assert(texts(out@) =~= fault_advice(self@));
            },
            _ => {},
        }
        out
    }

    /// The kind of this failure.
    pub fn kind(&self) -> (r: ErrorKind)
        ensures
            r == fault_kind(self@),
    {
        match self {
            OffloadError::MissingHost
            | OffloadError::UnknownFolder
            | OffloadError::NotAProject
            | OffloadError::InvalidForward(_)
            | OffloadError::InvalidArgument { .. }
            | OffloadError::InvalidPort
            | OffloadError::BothNamed { .. } => ErrorKind::Configuration,
            OffloadError::RemoteFailed(_)
            | OffloadError::SyncFailed(_)
            | OffloadError::CopyFailed(_) => ErrorKind::RemoteExecution,
            OffloadError::ToolMissing(_)
            | OffloadError::MirrorToolBroken
            | OffloadError::MirrorToolMissing => ErrorKind::ToolMissing,
            OffloadError::BinaryNotCopied(_)
            | OffloadError::ExampleNotCopied(_)
            | OffloadError::NothingCopied
            | OffloadError::BinaryNotFound(_)
            | OffloadError::ExampleNotFound(_)
            | OffloadError::NoBinaries => ErrorKind::Artifact,
            OffloadError::AmbiguousBinaries => ErrorKind::Ambiguous,
            OffloadError::LocalFailed(_) => ErrorKind::Local,
        }
    }

    /// The message that this failure is reported with.
    pub fn message(&self) -> (r: String)
        ensures
            r@ == fault_message(self@),
    {
        match self {
            OffloadError::MissingHost => String::from_str(
                "Host must be specified via --host or CARGO_OFFLOAD_HOST env var",
            ),
            OffloadError::UnknownFolder => String::from_str("Cannot determine current folder name"),
            OffloadError::NotAProject => String::from_str(
                "Not in a Rust project directory (Cargo.toml not found)",
            ),
            OffloadError::InvalidForward(s) => prefixed("Invalid port forwarding specification: ", s.as_str()),
            OffloadError::RemoteFailed(s) => prefixed("SSH command failed: ", s.as_str()),
            OffloadError::ToolMissing(s) => prefixed("Cannot run local tool: ", s.as_str()),
            OffloadError::SyncFailed(s) => prefixed("rsync failed: ", s.as_str()),
            OffloadError::CopyFailed(s) => prefixed("Failed to copy artifacts: ", s.as_str()),
            OffloadError::BinaryNotCopied(s) => framed(
                "Binary '",
                s.as_str(),
                "' not found after copy",
            ),
            OffloadError::ExampleNotCopied(s) => framed(
                "Example '",
                s.as_str(),
                "' not found after copy",
            ),
            OffloadError::NothingCopied => String::from_str("No artifacts were copied"),
            OffloadError::BinaryNotFound(s) => framed("Binary '", s.as_str(), "' not found"),
            OffloadError::ExampleNotFound(s) => framed("Example '", s.as_str(), "' not found"),
            OffloadError::NoBinaries => String::from_str("No binaries found to run"),
            OffloadError::AmbiguousBinaries => String::from_str(
                "Multiple binaries found. Use --bin to specify which one to run",
            ),
            OffloadError::MirrorToolBroken => String::from_str("rsync check failed"),
            OffloadError::MirrorToolMissing => String::from_str("rsync not found"),
            OffloadError::InvalidArgument { flag, value } => {
                let mut out = framed("Invalid argument `--", flag.as_str(), " ");
                out.append(value.as_str());
                out.append("`");
                out
            },
            OffloadError::InvalidPort => String::from_str("Port must be between 1 and 65535"),
            OffloadError::BothNamed { bin, example } => {
                let mut out = framed("Cannot use both --bin ", bin.as_str(), " and --example ");
                out.append(example.as_str());
                out
            },
            OffloadError::LocalFailed(s) => prefixed("Local file operation failed: ", s.as_str()),
        }
    }
}

} // verus!
