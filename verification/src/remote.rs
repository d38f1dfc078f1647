//! Running a command on the remote machine: the arguments of the remote
//! shell, port forwarding, and what its exit means.

use vstd::prelude::*;
use vstd::string::StringExecFns;
use crate::error::{Fault, OffloadError};
use crate::numeral::{decimal, push_decimal};
use crate::text::{
    chars_of, count_char, find_char, first_index, first_where, lemma_first_where_is, push_string,
    push_text, text_between, texts,
};

verus! {

/// One forwarded port: connections to `local` on this machine reach `remote`
/// on the other.
#[derive(Debug, Clone, PartialEq, Eq)]
pub struct PortForwardSpec {
    pub local: String,
    pub remote: String,
}

/// One run of the remote shell.
#[derive(Debug, Clone, PartialEq, Eq)]
pub struct RemoteCall {
    /// The program to start.
    pub program: String,
    /// Its arguments; the last one is `command`.
    pub arguments: Vec<String>,
    /// The command line that the remote machine runs.
    pub command: String,
    /// Whether the output is shown as it comes, on a pseudo-terminal, or
    /// captured and shown only if the command fails.
    pub interactive: bool,
}

/// The mathematical content of a [`RemoteCall`].
pub ghost struct RemoteCallView {
    pub program: Seq<char>,
    pub arguments: Seq<Seq<char>>,
    pub command: Seq<char>,
    pub interactive: bool,
}

impl View for RemoteCall {
    type V = RemoteCallView;

    open spec fn view(&self) -> RemoteCallView {
        RemoteCallView {
            program: self.program@,
            arguments: texts(self.arguments@),
            command: self.command@,
            interactive: self.interactive,
        }
    }
}

/// What became of a process that was to be started.
#[derive(Debug, Clone, PartialEq, Eq)]
pub enum Finished {
    /// The program could not be started at all.
    NotStarted,
    /// The program ran and ended; `errors` is what it wrote to its error
    /// stream, as far as that was captured.
    Exited { success: bool, errors: String },
}

/// What to do after a run of the remote shell.
#[derive(Debug, PartialEq, Eq)]
pub struct Verdict {
    /// Whether the captured output is to be shown to the user.
    pub replay_output: bool,
    /// Whether to go on, or the failure to report.
    pub result: Result<(), OffloadError>,
}

/// Whether a port-forward specification is well formed: `local` or
/// `local:remote`, so at most one colon.
pub open spec fn is_forward_spec(spec: Seq<char>) -> bool {
    count_char(spec, ':') <= 1
}

/// The local port of a specification: what stands before the colon, or all
/// of it.
pub open spec fn forward_local(spec: Seq<char>) -> Seq<char> {
    spec.take(first_index(spec, ':'))
}

/// The remote port of a specification: what stands behind the colon, or the
/// local port where there is no colon.
pub open spec fn forward_remote(spec: Seq<char>) -> Seq<char> {
    if first_index(spec, ':') < spec.len() {
        spec.skip(first_index(spec, ':') + 1)
    } else {
        spec
    }
}

/// The argument that asks the remote shell for one forwarded port.
pub open spec fn forward_argument(local: Seq<char>, remote: Seq<char>) -> Seq<char> {
    local + ":localhost:"@ + remote
}

/// The arguments that ask for the forwarded ports: `-L` and the forwarding,
/// for each specification in order.
pub open spec fn forward_arguments(specs: Seq<Seq<char>>) -> Seq<Seq<char>>
    decreases specs.len(),
{
    if specs.len() == 0 {
        Seq::empty()
    } else {
        forward_arguments(specs.drop_last()) + seq![
            "-L"@,
            forward_argument(forward_local(specs.last()), forward_remote(specs.last())),
        ]
    }
}

/// The index of the first malformed specification, or `specs.len()`.
pub open spec fn first_malformed(specs: Seq<Seq<char>>) -> int {
    first_where(specs, |s: Seq<char>| !is_forward_spec(s))
}

/// The arguments of the remote shell: the pseudo-terminal flag when the call
/// is interactive, the forwarded ports, the port, the host and the command.
pub open spec fn shell_arguments(
    host: Seq<char>,
    port: u16,
    command: Seq<char>,
    interactive: bool,
    forwards: Seq<Seq<char>>,
) -> Seq<Seq<char>> {
    (if interactive {
        seq!["-t"@]
    } else {
        Seq::empty()
    }) + forward_arguments(forwards) + seq!["-p"@, decimal(port as nat), host, command]
}

/// The call of the remote shell that runs `command` on `host`.
pub open spec fn shell_call(
    host: Seq<char>,
    port: u16,
    command: Seq<char>,
    interactive: bool,
    forwards: Seq<Seq<char>>,
) -> RemoteCallView {
    RemoteCallView {
        program: "ssh"@,
        arguments: shell_arguments(host, port, command, interactive, forwards),
        command,
        interactive,
    }
}

/// Reads one port-forward specification, `local` or `local:remote`. More
/// than one colon is refused.
pub fn parse_forward(spec: &str) -> (r: Result<PortForwardSpec, OffloadError>)
    ensures
        match r {
            Ok(f) => is_forward_spec(spec@) && f.local@ == forward_local(spec@) && f.remote@
                == forward_remote(spec@),
            Err(e) => !is_forward_spec(spec@) && e@ == Fault::InvalidForward(spec@),
        },
{
    let chars = chars_of(spec);
    let mut count: usize = 0;
    let mut i: usize = 0;
    while i < chars.len()
        invariant
            i <= chars.len(),
            count == count_char(chars@.take(i as int), ':'),
            count <= i,
        decreases chars.len() - i,
    {
        assert(chars@.take(i + 1).drop_last() =~= chars@.take(i as int));
        if chars[i] == ':' {
            count += 1;
        }
        i += 1;
    }
    assert(chars@.take(chars.len() as int) =~= chars@);
    if count > 1 {
        return Err(OffloadError::InvalidForward(String::from_str(spec)));
    }
    match find_char(&chars, ':') {
        Some(colon) => {
            assert(chars@.skip(colon + 1) =~= chars@.subrange(colon + 1, chars.len() as int));
            Ok(
                PortForwardSpec {
                    local: text_between(&chars, 0, colon),
                    remote: text_between(&chars, colon + 1, chars.len()),
                },
            )
        },
        None => {
            assert(chars@.take(chars.len() as int) =~= chars@);
            Ok(PortForwardSpec { local: String::from_str(spec), remote: String::from_str(spec) })
        },
    }
}

/// The arguments of the remote shell for a command, or the failure for the
/// first malformed port-forward specification.
pub fn build_shell_arguments(
    host: &str,
    port: u16,
    command: &str,
    interactive: bool,
    forward_ports: &[String],
) -> (r: Result<Vec<String>, OffloadError>)
    ensures
        match r {
            Ok(arguments) => first_malformed(texts(forward_ports@)) == forward_ports@.len()
                && texts(arguments@) == shell_arguments(
                host@,
                port,
                command@,
                interactive,
                texts(forward_ports@),
            ),
            Err(e) => first_malformed(texts(forward_ports@)) < forward_ports@.len() && e@
                == Fault::InvalidForward(
                texts(forward_ports@)[first_malformed(texts(forward_ports@))],
            ),
        },
{
    let ghost specs = texts(forward_ports@);
    let ghost bad = |s: Seq<char>| !is_forward_spec(s);
    let mut out: Vec<String> = Vec::new();
    if interactive {
        out.push(String::from_str("-t"));
    }
    let ghost head = texts(out@);
    let mut i: usize = 0;
    while i < forward_ports.len()
        invariant
            i <= forward_ports.len(),
            specs == texts(forward_ports@),
            bad == |s: Seq<char>| !is_forward_spec(s),
            forall|j: int| 0 <= j < i ==> !bad(#[trigger] specs[j]),
            texts(out@) == head + forward_arguments(specs.take(i as int)),
        decreases forward_ports.len() - i,
    {
        let forward = match parse_forward(forward_ports[i].as_str()) {
            Ok(forward) => forward,
            Err(e) => {
                proof {
                    assert(bad(specs[i as int]));
                    lemma_first_where_is(specs, bad, i as int);
                }
                return Err(e);
            },
        };
        assert(!bad(specs[i as int]));
        let mut argument = forward.local;
        argument.append(":localhost:");
        argument.append(forward.remote.as_str());
        let ghost before = out@;
        out.push(String::from_str("-L"));
        out.push(argument);
        proof {
            assert(specs.take(i + 1).drop_last() =~= specs.take(i as int));
            assert(specs.take(i + 1).last() == specs[i as int]);
            assert(texts(out@) =~= texts(before) + seq!["-L"@, argument@]);
            assert(texts(out@) =~= head + forward_arguments(specs.take(i + 1)));
        }
        i += 1;
    }
    proof {
        assert(specs.take(forward_ports.len() as int) =~= specs);
        lemma_first_where_is(specs, bad, forward_ports.len() as int);
    }
    push_connection(&mut out, host, port, command);
    Ok(out)
}

/// Appends the port, the host and the command to the arguments of the remote
/// shell.
fn push_connection(out: &mut Vec<String>, host: &str, port: u16, command: &str)
    ensures
        texts(final(out)@) == texts(old(out)@) + seq![
            "-p"@,
            decimal(port as nat),
            host@,
            command@,
        ],
{
    push_text(out, "-p");
    let mut number = String::new();
    push_decimal(&mut number, port as u64);
    assert(number@ =~= decimal(port as nat));
    push_string(out, number);
    push_text(out, host);
    push_text(out, command);
    assert(texts(out@) =~= texts(old(out)@) + seq!["-p"@, decimal(port as nat), host@, command@]);
}

/// The call of the remote shell that runs `command` on `host` with no port
/// forwarded.
pub fn plain_call(host: &str, port: u16, command: String, interactive: bool) -> (r: RemoteCall)
    ensures
        r@ == shell_call(host@, port, command@, interactive, Seq::empty()),
{
    let mut arguments: Vec<String> = Vec::new();
    assert(texts(arguments@) =~= Seq::<Seq<char>>::empty());
    if interactive {
        push_text(&mut arguments, "-t");
    }
    push_connection(&mut arguments, host, port, command.as_str());
    assert(texts(arguments@) =~= shell_arguments(host@, port, command@, interactive, Seq::empty()));
    RemoteCall { program: String::from_str("ssh"), arguments, command, interactive }
}

/// The call of the remote shell that runs `command` on `host` without
/// showing its output and without forwarded ports.
pub fn silent_call(host: &str, port: u16, command: String) -> (r: RemoteCall)
    ensures
        r@ == shell_call(host@, port, command@, false, Seq::empty()),
{
    plain_call(host, port, command, false)
}

/// The call of the remote shell that runs `command` on `host`, or the
/// failure for the first malformed port-forward specification.
pub fn remote_call(
    host: &str,
    port: u16,
    command: String,
    interactive: bool,
    forward_ports: &[String],
) -> (r: Result<RemoteCall, OffloadError>)
    ensures
        match r {
            Ok(call) => first_malformed(texts(forward_ports@)) == forward_ports@.len() && call@
                == shell_call(host@, port, command@, interactive, texts(forward_ports@)),
            Err(e) => first_malformed(texts(forward_ports@)) < forward_ports@.len() && e@
                == Fault::InvalidForward(
                texts(forward_ports@)[first_malformed(texts(forward_ports@))],
            ),
        },
{
    match build_shell_arguments(host, port, command.as_str(), interactive, forward_ports) {
        Ok(arguments) => Ok(
            RemoteCall { program: String::from_str("ssh"), arguments, command, interactive },
        ),
        Err(e) => Err(e),
    }
}

/// What a run of the remote shell amounts to. A command that ran and failed
/// is told apart from a shell that could not be started; the output of a
/// failed command is shown afterwards if it was captured.
pub fn judge_remote(call: &RemoteCall, finished: &Finished) -> (r: Verdict)
    ensures
        match *finished {
            Finished::NotStarted => !r.replay_output && (r.result matches Err(e) && e@
                == Fault::ToolMissing(call.program@)),
            Finished::Exited { success, .. } => if success {
                !r.replay_output && r.result is Ok
            } else {
                r.replay_output == !call.interactive && (r.result matches Err(e) && e@
                    == Fault::RemoteFailed(call.command@))
            },
        },
{
    match finished {
        Finished::NotStarted => Verdict {
            replay_output: false,
            result: Err(OffloadError::ToolMissing(call.program.clone())),
        },
        Finished::Exited { success, .. } => {
            if *success {
                Verdict { replay_output: false, result: Ok(()) }
            } else {
                Verdict {
                    replay_output: !call.interactive,
                    result: Err(OffloadError::RemoteFailed(call.command.clone())),
                }
            }
        },
    }
}

} // verus!
