//! The orchestration context, and what each step of an offloaded build asks
//! of the remote shell and of the mirroring tool.

use vstd::prelude::*;
use vstd::string::StringExecFns;
use crate::artifacts::{
    artifacts, entries, executables, file_paths, kind_dir, profile, profile_of, request_for, resolve,
    resolved, ArtifactKind, ArtifactRequest, ArtifactView, Entry, Snapshot,
};
use crate::cli::Cli;
use crate::command::{
    build_cargo_arguments, build_cargo_command, cargo_arguments, cargo_command,
};
use crate::dispatch::{BuildInvocation, Plan, PlanView};
use crate::connection::{chosen_host, endpoint_of, parse_host_and_port};
use crate::error::{Fault, OffloadError};
use crate::gather::{
    copied_of, gather_copied, gathering_fault, law_retrieval_tolerates_failures, outcomes_for,
    outcomes_of, warnings_of, Gathered,
};
use crate::numeral::{decimal, push_decimal};
use crate::remote::{
    first_malformed, plain_call, remote_call, shell_call, silent_call, Finished, RemoteCall,
    RemoteCallView,
};
use crate::steps::{
    law_failure_stops, law_steps_in_order, law_two_steps, next_of, next_step, steps, succeeded,
    MirrorCall, MirrorCallView, MirrorPurpose, Step, StepView,
};
use crate::text::{
    copy_texts, framed, join, opt_str, opt_string, opt_text, prefixed, push_char, push_joined,
    push_string, push_text, str_in, string_in, texts,
};
use crate::toolchain::{cargo_toolchain, file_toolchain, first_of, resolve_toolchain};

verus! {

/// The environment variable that names the host when no flag does.
pub const HOST_VARIABLE: &'static str = "CARGO_OFFLOAD_HOST";

/// The file that marks the current directory as a project.
pub const PROJECT_FILE: &'static str = "Cargo.toml";

/// The structured toolchain file of a project.
pub const STRUCTURED_TOOLCHAIN_FILE: &'static str = "rust-toolchain.toml";

/// The plain-text toolchain file of a project.
pub const PLAIN_TOOLCHAIN_FILE: &'static str = "rust-toolchain";

/// What the tool finds around it when it starts: read once, then handed in.
#[derive(Debug, Clone, PartialEq, Eq)]
pub struct Surroundings {
    /// Whether the current directory holds the file that marks a project.
    pub in_project: bool,
    /// The host named by the environment, the fallback for the host flag.
    pub env_host: Option<String>,
    /// The base name of the current directory, where it has one.
    pub folder_name: Option<String>,
    /// What the local build tool printed as its version, where it ran.
    pub cargo_version: Option<String>,
    /// The contents of the structured toolchain file, where there is one.
    pub toolchain_toml: Option<String>,
    /// The contents of the plain-text toolchain file, where there is one.
    pub toolchain_file: Option<String>,
}

/// One run of a local program.
#[derive(Debug, Clone, PartialEq, Eq)]
pub struct LocalRun {
    pub program: String,
    pub arguments: Vec<String>,
}

/// The orchestration context: made once, read ever after.
#[derive(Debug, Clone, PartialEq, Eq)]
pub struct CargoOffload {
    host: String,
    port: u16,
    remote_dir: String,
    toolchain: Option<String>,
    target: String,
    copy_all_artifacts: bool,
    progress_flag: String,
}

/// The mathematical content of a [`CargoOffload`].
pub ghost struct Context {
    pub host: Seq<char>,
    pub port: u16,
    pub remote_dir: Seq<char>,
    pub toolchain: Option<Seq<char>>,
    pub target: Seq<char>,
    pub copy_all_artifacts: bool,
    pub progress_flag: Seq<char>,
}

impl View for CargoOffload {
    type V = Context;

    closed spec fn view(&self) -> Context {
        Context {
            host: self.host@,
            port: self.port,
            remote_dir: self.remote_dir@,
            toolchain: opt_string(self.toolchain),
            target: self.target@,
            copy_all_artifacts: self.copy_all_artifacts,
            progress_flag: self.progress_flag@,
        }
    }
}

/// The remote working directory for a local directory of the given name.
pub open spec fn remote_dir_for(folder: Seq<char>) -> Seq<char> {
    "/tmp/cargo-offload/"@ + folder
}

/// The target to build for: the one asked for, else the default.
pub open spec fn target_for(flag: Option<Seq<char>>) -> Seq<char> {
    match flag {
        Some(t) => t,
        None => "x86_64-unknown-linux-gnu"@,
    }
}

/// The options of the mirroring tool that every mirror shares: archive mode,
/// deletion, compression, the remote shell with its port, and the progress
/// flag.
pub open spec fn mirror_options(port: u16, progress_flag: Seq<char>) -> Seq<Seq<char>> {
    seq!["-a"@, "--delete"@, "--compress"@, "-e"@, "ssh -p "@ + decimal(port as nat), progress_flag]
}

/// What is left out when the sources are mirrored.
pub open spec fn source_exclusions() -> Seq<Seq<char>> {
    seq![
        "--exclude=target/"@,
        "--exclude=.git/"@,
        "--exclude=*.swp"@,
        "--exclude=*.tmp"@,
        "--exclude=.cargo/"@,
    ]
}

/// What is left out when the build output is mirrored: always the lock and
/// the dependency files, and the heavy intermediate directories unless
/// everything is asked for.
pub open spec fn artifact_exclusions(copy_all: bool) -> Seq<Seq<char>> {
    seq!["--exclude=.cargo-lock"@, "--exclude=*.d"@] + if copy_all {
        Seq::empty()
    } else {
        seq!["--exclude=build/"@, "--exclude=deps/"@, "--exclude=incremental/"@]
    }
}

/// The toolchain to ask for, from what the user named and what the
/// surroundings hold: the user's, else the one that the build tool reports,
/// else the one that the project's files declare.
pub open spec fn toolchain_of(toolchain: Option<Seq<char>>, around: Surroundings) -> Option<
    Seq<char>,
> {
    first_of(
        toolchain,
        match opt_string(around.cargo_version) {
            Some(output) => cargo_toolchain(output),
            None => None,
        },
        file_toolchain(opt_string(around.toolchain_toml), opt_string(around.toolchain_file)),
    )
}

/// The context that the command line, the toolchain that the user named,
/// the progress flag and the surroundings make, or why they make none:
/// outside a project; without a host; with a port of 0; without a name for
/// the current directory. The first of these that holds decides.
pub open spec fn context_of(
    cli: Cli,
    toolchain: Option<Seq<char>>,
    progress_flag: Seq<char>,
    around: Surroundings,
) -> Result<Context, Fault> {
    if !around.in_project {
        Err(Fault::NotAProject)
    } else {
        match chosen_host(opt_string(cli.host), opt_string(around.env_host)) {
            None => Err(Fault::MissingHost),
            Some(h) => match endpoint_of(h, cli.port) {
                Err(fault) => Err(fault),
                Ok(endpoint) => match around.folder_name {
                    None => Err(Fault::UnknownFolder),
                    Some(folder) => Ok(
                        Context {
                            host: endpoint.0,
                            port: endpoint.1,
                            remote_dir: remote_dir_for(folder@),
                            toolchain: toolchain_of(toolchain, around),
                            target: target_for(opt_string(cli.target)),
                            copy_all_artifacts: cli.copy_all_artifacts,
                            progress_flag,
                        },
                    ),
                },
            },
        }
    }
}

impl Context {
    /// Whether the context is one that can be connected with: the port lies
    /// between 1 and 65535, and the remote working directory lies where the
    /// tool keeps its working directories.
    pub open spec fn well_formed(self) -> bool {
        1 <= self.port <= 65535 && "/tmp/cargo-offload/"@.is_prefix_of(self.remote_dir)
    }

    /// The call that makes the remote working directory.
    pub open spec fn prepare_call(self) -> RemoteCallView {
        shell_call(self.host, self.port, "mkdir -p "@ + self.remote_dir, false, Seq::empty())
    }

    /// The arguments of the mirror that brings the sources over.
    pub open spec fn source_mirror(self) -> Seq<Seq<char>> {
        mirror_options(self.port, self.progress_flag) + source_exclusions() + seq![
            "."@,
            self.host + seq![':'] + self.remote_dir + seq!['/'],
        ]
    }

    /// The steps that bring the sources over: the remote working directory
    /// is made, then the current directory is mirrored into it.
    pub open spec fn source_steps(self) -> Seq<StepView> {
        seq![
            StepView::Remote(self.prepare_call()),
            StepView::Mirror(
                MirrorCallView {
                    program: "rsync"@,
                    arguments: self.source_mirror(),
                    purpose: MirrorPurpose::Source,
                },
            ),
        ]
    }

    /// The command that installs a toolchain.
    pub open spec fn install_command(self, toolchain: Seq<char>) -> Seq<char> {
        "cd "@ + self.remote_dir + " && rustup toolchain install "@ + toolchain
    }

    /// The command that installs the target, for the resolved toolchain
    /// where there is one.
    pub open spec fn target_command(self) -> Seq<char> {
        let base = "cd "@ + self.remote_dir + " && rustup target add "@ + self.target;
        match self.toolchain {
            Some(t) => base + " --toolchain "@ + t,
            None => base,
        }
    }

    /// The calls that set the toolchain up: the toolchain itself where one
    /// is resolved, then the target.
    pub open spec fn setup_calls(self) -> Seq<RemoteCallView> {
        let target = shell_call(self.host, self.port, self.target_command(), false, Seq::empty());
        match self.toolchain {
            Some(t) => seq![
                shell_call(self.host, self.port, self.install_command(t), false, Seq::empty()),
                target,
            ],
            None => seq![target],
        }
    }

    /// The steps that set the toolchain up, one for each call.
    pub open spec fn setup_steps(self) -> Seq<StepView> {
        Seq::new(self.setup_calls().len(), |i: int| StepView::Remote(self.setup_calls()[i]))
    }

    /// The call that removes the remote working directory.
    pub open spec fn clean_call(self) -> RemoteCallView {
        shell_call(self.host, self.port, "rm -rf "@ + self.remote_dir, false, Seq::empty())
    }

    /// The steps that clean up: the remote working directory is removed,
    /// then the local mirror.
    pub open spec fn clean_steps(self) -> Seq<StepView> {
        seq![StepView::Remote(self.clean_call()), StepView::RemoveLocal("target/offload"@)]
    }

    /// The command line of a build-tool invocation.
    pub open spec fn build_command(
        self,
        subcommand: Seq<char>,
        args: Seq<Seq<char>>,
        env_vars: Seq<Seq<char>>,
    ) -> Seq<char> {
        cargo_command(
            self.remote_dir,
            env_vars,
            cargo_arguments(self.toolchain, subcommand, args, self.target),
        )
    }

    /// The remote profile directory for the given build arguments.
    pub open spec fn remote_profile_dir(self, args: Seq<Seq<char>>) -> Seq<char> {
        self.remote_dir + "/target/"@ + self.target + seq!['/'] + profile_of(args)
    }

    /// The local profile directory for the given build arguments.
    pub open spec fn local_profile_dir(self, args: Seq<Seq<char>>) -> Seq<char> {
        "target/offload/"@ + self.target + seq!['/'] + profile_of(args)
    }

    /// The arguments of the mirror that brings the build output back.
    pub open spec fn artifact_mirror(self, args: Seq<Seq<char>>) -> Seq<Seq<char>> {
        mirror_options(self.port, self.progress_flag) + artifact_exclusions(
            self.copy_all_artifacts,
        ) + seq![
            self.host + seq![':'] + self.remote_profile_dir(args) + seq!['/'],
            self.local_profile_dir(args) + seq!['/'],
        ]
    }

    /// The call that hands `args` to the toolchain manager on the remote
    /// machine.
    pub open spec fn passthrough_call(self, args: Seq<Seq<char>>) -> RemoteCallView {
        shell_call(
            self.host,
            self.port,
            "rustup toolchain "@ + join(args, seq![' ']),
            true,
            Seq::empty(),
        )
    }

    /// What comes next in the stage that runs the remote command of a plan:
    /// the invocation of the build tool, or the toolchain passthrough, or
    /// nothing for a plan that has neither. A malformed port-forward
    /// specification fails the stage before anything is run.
    pub open spec fn command_step(self, plan: PlanView, seen: Seq<Finished>) -> Result<
        StepView,
        Fault,
    > {
        match plan.invocation {
            Some(invocation) => if first_malformed(invocation.forward_ports)
                < invocation.forward_ports.len() {
                Err(
                    Fault::InvalidForward(
                        invocation.forward_ports[first_malformed(invocation.forward_ports)],
                    ),
                )
            } else {
                next_of(
                    seq![
                        StepView::Remote(
                            shell_call(
                                self.host,
                                self.port,
                                self.build_command(
                                    invocation.subcommand,
                                    invocation.args,
                                    invocation.env_vars,
                                ),
                                true,
                                invocation.forward_ports,
                            ),
                        ),
                    ],
                    seen,
                )
            },
            None => match plan.passthrough {
                Some(args) => next_of(seq![StepView::Remote(self.passthrough_call(args))], seen),
                None => Ok(StepView::Done),
            },
        }
    }

    /// The steps that bring the build output back: the local profile
    /// directory is made, the remote one is mirrored into it, and what has
    /// arrived is gathered.
    pub open spec fn artifact_steps(self, args: Seq<Seq<char>>) -> Seq<StepView> {
        seq![
            StepView::CreateLocal(self.local_profile_dir(args)),
            StepView::Mirror(
                MirrorCallView {
                    program: "rsync"@,
                    arguments: self.artifact_mirror(args),
                    purpose: MirrorPurpose::Artifacts,
                },
            ),
            StepView::Collect(self.local_profile_dir(args)),
        ]
    }

    /// What is handed on once the build output is mirrored: the artifacts
    /// that arrived, and one warning for each that did not.
    ///
    /// What lies in the local mirror decides what there is to hand on: the
    /// one file asked for by name, which must be there, or every executable.
    /// An artifact whose path is among `failed` did not arrive. That is a
    /// warning and no failure, unless nothing at all is left of what there
    /// was to hand on, or the artifact asked for by name is the one that is
    /// missing.
    pub open spec fn copied(
        self,
        args: Seq<Seq<char>>,
        root: Seq<Entry>,
        examples: Seq<Entry>,
        bin: Option<Seq<char>>,
        example: Option<Seq<char>>,
        failed: Seq<Seq<char>>,
    ) -> Result<(Seq<ArtifactView>, Seq<Seq<char>>), Fault> {
        match resolved(root, examples, self.local_profile_dir(args), bin, example) {
            Err(fault) => Err(fault),
            Ok(found) => match gathering_fault(
                outcomes_for(found, failed),
                request_for(bin, example),
            ) {
                Some(fault) => Err(fault),
                None => Ok(
                    (
                        copied_of(outcomes_for(found, failed)),
                        warnings_of(outcomes_for(found, failed)),
                    ),
                ),
            },
        }
    }
}

impl CargoOffload {
    /// Builds the context from the command line, the toolchain that the user
    /// named, the progress flag of the mirroring tool, and the surroundings.
    ///
    /// Fails outside a project, without a host, with a port of 0, and
    /// without a name for the current directory, in this order.
    pub fn new(
        cli: &Cli,
        toolchain: Option<String>,
        progress_flag: String,
        surroundings: &Surroundings,
    ) -> (r: Result<Self, OffloadError>)
        ensures
            match context_of(*cli, opt_string(toolchain), progress_flag@, *surroundings) {
                Ok(context) => r matches Ok(found) && found@ == context,
                Err(fault) => r matches Err(e) && e@ == fault,
            },
            r matches Ok(context) ==> context@.well_formed(),
    {
        if !surroundings.in_project {
            return Err(OffloadError::NotAProject);
        }
        let (host, port) = match parse_host_and_port(
            string_in(&cli.host),
            string_in(&surroundings.env_host),
            cli.port,
        ) {
            Ok(endpoint) => endpoint,
            Err(e) => {
                return Err(e);
            },
        };
        let folder = match &surroundings.folder_name {
            Some(folder) => folder,
            None => {
                return Err(OffloadError::UnknownFolder);
            },
        };
        let remote_dir = prefixed("/tmp/cargo-offload/", folder.as_str());
        let target = match &cli.target {
            Some(t) => t.clone(),
            None => String::from_str("x86_64-unknown-linux-gnu"),
        };
        let toolchain = resolve_toolchain(
            toolchain,
            str_in(&surroundings.cargo_version),
            str_in(&surroundings.toolchain_toml),
            str_in(&surroundings.toolchain_file),
        );
        Ok(
            CargoOffload {
                host,
                port,
                remote_dir,
                toolchain,
                target,
                copy_all_artifacts: cli.copy_all_artifacts,
                progress_flag,
            },
        )
    }

    /// The host to connect to.
    pub fn host(&self) -> (r: &str)
        ensures
            r@ == self@.host,
    {
        self.host.as_str()
    }

    /// The port of the remote shell.
    pub fn port(&self) -> (r: u16)
        ensures
            r == self@.port,
    {
        self.port
    }

    /// The remote working directory.
    pub fn remote_dir(&self) -> (r: &str)
        ensures
            r@ == self@.remote_dir,
    {
        self.remote_dir.as_str()
    }

    /// The toolchain to ask for, if one is resolved.
    pub fn toolchain(&self) -> (r: Option<&str>)
        ensures
            opt_str(r) == self@.toolchain,
    {
        str_in(&self.toolchain)
    }

    /// The target to build for.
    pub fn target(&self) -> (r: &str)
        ensures
            r@ == self@.target,
    {
        self.target.as_str()
    }

    /// Whether the heavy intermediate directories are copied as well.
    pub fn copy_all_artifacts(&self) -> (r: bool)
        ensures
            r == self@.copy_all_artifacts,
    {
        self.copy_all_artifacts
    }

    /// The progress flag of the mirroring tool.
    pub fn progress_flag(&self) -> (r: &str)
        ensures
            r@ == self@.progress_flag,
    {
        self.progress_flag.as_str()
    }

    /// The options that every mirror shares.
    fn mirror_head(&self) -> (r: Vec<String>)
        ensures
            texts(r@) == mirror_options(self@.port, self@.progress_flag),
    {
        let mut out: Vec<String> = Vec::new();
        assert(texts(out@) =~= Seq::<Seq<char>>::empty());
        push_text(&mut out, "-a");
        push_text(&mut out, "--delete");
        push_text(&mut out, "--compress");
        push_text(&mut out, "-e");
        let mut shell = String::from_str("ssh -p ");
        push_decimal(&mut shell, self.port as u64);
        push_string(&mut out, shell);
        push_text(&mut out, self.progress_flag.as_str());
        assert(texts(out@) =~= mirror_options(self@.port, self@.progress_flag));
        out
    }

    /// The call of the remote shell that runs `command`, shown as it runs
    /// when `print_output` is set and captured otherwise, with the given
    /// ports forwarded. A malformed port-forward specification is refused
    /// before anything is run.
    pub fn run_ssh_command(&self, command: &str, print_output: bool, forward_ports: &[String])
        -> (r: Result<RemoteCall, OffloadError>)
        ensures
            match r {
                Ok(call) => first_malformed(texts(forward_ports@)) == forward_ports@.len()
                    && call@ == shell_call(
                    self@.host,
                    self@.port,
                    command@,
                    print_output,
                    texts(forward_ports@),
                ),
                Err(e) => first_malformed(texts(forward_ports@)) < forward_ports@.len() && e@
                    == Fault::InvalidForward(
                    texts(forward_ports@)[first_malformed(texts(forward_ports@))],
                ),
            },
    {
        remote_call(
            self.host.as_str(),
            self.port,
            String::from_str(command),
            print_output,
            forward_ports,
        )
    }

    /// The steps that bring the sources over.
    fn source_plan(&self) -> (r: Vec<Step>)
        ensures
            steps(r@) == self@.source_steps(),
    {
        let prepare = silent_call(
            self.host.as_str(),
            self.port,
            prefixed("mkdir -p ", self.remote_dir.as_str()),
        );
        let mut arguments = self.mirror_head();
        push_text(&mut arguments, "--exclude=target/");
        push_text(&mut arguments, "--exclude=.git/");
        push_text(&mut arguments, "--exclude=*.swp");
        push_text(&mut arguments, "--exclude=*.tmp");
        push_text(&mut arguments, "--exclude=.cargo/");
        push_text(&mut arguments, ".");
        let mut destination = self.host.clone();
        push_char(&mut destination, ':');
        destination.append(self.remote_dir.as_str());
        push_char(&mut destination, '/');
        assert(destination@ =~= self@.host + seq![':'] + self@.remote_dir + seq!['/']);
        push_string(&mut arguments, destination);
        assert(texts(arguments@) =~= self@.source_mirror());
        let mut out: Vec<Step> = Vec::new();
        out.push(Step::Remote(prepare));
        out.push(
            Step::Mirror(
                MirrorCall {
                    program: String::from_str("rsync"),
                    arguments,
                    purpose: MirrorPurpose::Source,
                },
            ),
        );
        assert(steps(out@) =~= self@.source_steps());
        out
    }

    /// Brings the sources over, step by step: the remote working directory
    /// is made, then the current directory is mirrored into it. Given how
    /// the steps run so far have ended, in order, this is the step to run
    /// next. The mirror is handed out only once the directory is made; a
    /// step that failed ends the stage with its failure.
    pub fn sync_source(&self, seen: &[Finished]) -> (r: Result<Step, OffloadError>)
        ensures
            match next_of(self@.source_steps(), seen@) {
                Ok(step) => r matches Ok(found) && found@ == step,
                Err(fault) => r matches Err(e) && e@ == fault,
            },
    {
        let planned = self.source_plan();
        next_step(planned.as_slice(), seen)
    }

    /// The steps that set the toolchain up.
    fn setup_plan(&self) -> (r: Vec<Step>)
        ensures
            steps(r@) == self@.setup_steps(),
    {
        let mut out: Vec<Step> = Vec::new();
        let mut target = framed(
            "cd ",
            self.remote_dir.as_str(),
            " && rustup target add ",
        );
        target.append(self.target.as_str());
        if let Some(toolchain) = &self.toolchain {
            let mut install = framed(
                "cd ",
                self.remote_dir.as_str(),
                " && rustup toolchain install ",
            );
            install.append(toolchain.as_str());
            out.push(Step::Remote(silent_call(self.host.as_str(), self.port, install)));
            target.append(" --toolchain ");
            target.append(toolchain.as_str());
        }
        out.push(Step::Remote(silent_call(self.host.as_str(), self.port, target)));
        assert(steps(out@) =~= self@.setup_steps());
        out
    }

    /// Sets the toolchain up on the remote machine, step by step: the
    /// resolved toolchain is installed, where there is one, then the target
    /// is added. Given how the steps run so far have ended, in order, this is
    /// the step to run next. The target is not added after an install that
    /// failed: a step that failed ends the stage with its failure.
    pub fn setup_toolchain(&self, seen: &[Finished]) -> (r: Result<Step, OffloadError>)
        ensures
            match next_of(self@.setup_steps(), seen@) {
                Ok(step) => r matches Ok(found) && found@ == step,
                Err(fault) => r matches Err(e) && e@ == fault,
            },
    {
        let planned = self.setup_plan();
        next_step(planned.as_slice(), seen)
    }

    /// The call that runs the build tool on the remote machine, shown as it
    /// runs: the subcommand with the user's arguments, the default target
    /// unless they name one, the toolchain selector, and the environment
    /// assignments in front.
    pub fn run_cargo_command(
        &self,
        subcommand: &str,
        args: &[String],
        env_vars: &[String],
        forward_ports: &[String],
    ) -> (r: Result<RemoteCall, OffloadError>)
        ensures
            match r {
                Ok(call) => first_malformed(texts(forward_ports@)) == forward_ports@.len()
                    && call@ == shell_call(
                    self@.host,
                    self@.port,
                    self@.build_command(subcommand@, texts(args@), texts(env_vars@)),
                    true,
                    texts(forward_ports@),
                ),
                Err(e) => first_malformed(texts(forward_ports@)) < forward_ports@.len() && e@
                    == Fault::InvalidForward(
                    texts(forward_ports@)[first_malformed(texts(forward_ports@))],
                ),
            },
    {
        let arguments = build_cargo_arguments(
            string_in(&self.toolchain),
            subcommand,
            args,
            self.target.as_str(),
        );
        let command = build_cargo_command(
            self.remote_dir.as_str(),
            env_vars,
            arguments.as_slice(),
        );
        remote_call(self.host.as_str(), self.port, command, true, forward_ports)
    }

    /// The call that makes one invocation of the remote build tool.
    pub fn run_invocation(&self, invocation: &BuildInvocation) -> (r: Result<
        RemoteCall,
        OffloadError,
    >)
        ensures
            match r {
                Ok(call) => first_malformed(invocation@.forward_ports)
                    == invocation@.forward_ports.len() && call@ == shell_call(
                    self@.host,
                    self@.port,
                    self@.build_command(
                        invocation@.subcommand,
                        invocation@.args,
                        invocation@.env_vars,
                    ),
                    true,
                    invocation@.forward_ports,
                ),
                Err(e) => first_malformed(invocation@.forward_ports)
                    < invocation@.forward_ports.len() && e@ == Fault::InvalidForward(
                    invocation@.forward_ports[first_malformed(invocation@.forward_ports)],
                ),
            },
    {
        self.run_cargo_command(
            invocation.subcommand.as_str(),
            invocation.args.as_slice(),
            invocation.env_vars.as_slice(),
            invocation.forward_ports.as_slice(),
        )
    }

    /// The call that hands the arguments to the toolchain manager on the
    /// remote machine, shown as it runs.
    pub fn toolchain_remote(&self, args: &[String]) -> (r: RemoteCall)
        ensures
            r@ == self@.passthrough_call(texts(args@)),
    {
        let mut command = String::from_str("rustup toolchain ");
        push_joined(&mut command, args, ' ');
        plain_call(self.host.as_str(), self.port, command, true)
    }

    /// Runs the remote command of a plan, step by step: given how the steps
    /// run so far have ended, this is the step to run next.
    pub fn run_plan(&self, plan: &Plan, seen: &[Finished]) -> (r: Result<Step, OffloadError>)
        ensures
            match self@.command_step(plan@, seen@) {
                Ok(step) => r matches Ok(found) && found@ == step,
                Err(fault) => r matches Err(e) && e@ == fault,
            },
    {
        let mut planned: Vec<Step> = Vec::new();
        match &plan.invocation {
            Some(invocation) => {
                let call = match self.run_invocation(invocation) {
                    Ok(call) => call,
                    Err(e) => {
                        return Err(e);
                    },
                };
                planned.push(Step::Remote(call));
                assert(steps(planned@) =~= seq![planned@[0]@]);
            },
            None => match &plan.passthrough {
                Some(args) => {
                    planned.push(Step::Remote(self.toolchain_remote(args.as_slice())));
                    assert(steps(planned@) =~= seq![planned@[0]@]);
                },
                None => {
                    assert(steps(planned@) =~= Seq::<StepView>::empty());
                },
            },
        }
        next_step(planned.as_slice(), seen)
    }

    /// The local profile directory for the given build arguments.
    pub fn profile_dir(&self, args: &[String]) -> (r: String)
        ensures
            r@ == self@.local_profile_dir(texts(args@)),
    {
        let profile = profile(args);
        let mut local_dir = framed("target/offload/", self.target.as_str(), "/");
        local_dir.append(profile.as_str());
        proof {
            reveal_strlit("/");
            assert(local_dir@ =~= self@.local_profile_dir(texts(args@)));
        }
        local_dir
    }

    /// The steps that bring the build output back.
    fn artifact_plan(&self, args: &[String]) -> (r: Vec<Step>)
        ensures
            steps(r@) == self@.artifact_steps(texts(args@)),
    {
        let profile = profile(args);
        let local_dir = self.profile_dir(args);
        let mut source = self.host.clone();
        push_char(&mut source, ':');
        source.append(self.remote_dir.as_str());
        source.append("/target/");
        source.append(self.target.as_str());
        push_char(&mut source, '/');
        source.append(profile.as_str());
        push_char(&mut source, '/');
        assert(source@ =~= self@.host + seq![':'] + self@.remote_profile_dir(texts(args@)) + seq![
            '/',
        ]);
        let mut destination = local_dir.clone();
        push_char(&mut destination, '/');
        assert(destination@ =~= self@.local_profile_dir(texts(args@)) + seq!['/']);
        let mut arguments = self.mirror_head();
        push_text(&mut arguments, "--exclude=.cargo-lock");
        push_text(&mut arguments, "--exclude=*.d");
        if !self.copy_all_artifacts {
            push_text(&mut arguments, "--exclude=build/");
            push_text(&mut arguments, "--exclude=deps/");
            push_text(&mut arguments, "--exclude=incremental/");
        }
        push_string(&mut arguments, source);
        push_string(&mut arguments, destination);
        assert(texts(arguments@) =~= self@.artifact_mirror(texts(args@)));
        let mut out: Vec<Step> = Vec::new();
        out.push(Step::CreateLocal(local_dir.clone()));
        out.push(
            Step::Mirror(
                MirrorCall {
                    program: String::from_str("rsync"),
                    arguments,
                    purpose: MirrorPurpose::Artifacts,
                },
            ),
        );
        out.push(Step::Collect(local_dir));
        assert(steps(out@) =~= self@.artifact_steps(texts(args@)));
        out
    }

    /// Brings the build output back, step by step: the local profile
    /// directory is made, the remote one is mirrored into it, and what has
    /// arrived is gathered with `executables` and `copy_artifacts`. Given
    /// how the steps run so far have ended, in order, this is the step to run
    /// next. Nothing is gathered after a mirror that failed: a step that
    /// failed ends the stage with its failure.
    pub fn sync_artifacts(&self, args: &[String], seen: &[Finished]) -> (r: Result<
        Step,
        OffloadError,
    >)
        ensures
            match next_of(self@.artifact_steps(texts(args@)), seen@) {
                Ok(step) => r matches Ok(found) && found@ == step,
                Err(fault) => r matches Err(e) && e@ == fault,
            },
    {
        let planned = self.artifact_plan(args);
        next_step(planned.as_slice(), seen)
    }

    /// The files to make executable once the build output is mirrored.
    pub fn executables(&self, args: &[String], snapshot: &Snapshot) -> (r: Vec<String>)
        ensures
            texts(r@) == file_paths(
                entries(snapshot.root@),
                kind_dir(self@.local_profile_dir(texts(args@)), ArtifactKind::Binary),
            ) + file_paths(
                entries(snapshot.examples@),
                kind_dir(self@.local_profile_dir(texts(args@)), ArtifactKind::Example),
            ),
    {
        let local_dir = self.profile_dir(args);
        executables(snapshot, local_dir.as_str())
    }

    /// The artifacts that are handed on once the build output is mirrored,
    /// given what lies in the local mirror and the paths of the files that
    /// did not arrive or could not be made executable.
    ///
    /// A binary or an example asked for by name must be there, the binary
    /// before the example; with no name, every executable counts. A file
    /// that did not arrive is left out with a warning. That is a failure
    /// only where nothing is left of what there was, or where the file asked
    /// for by name is the one that is missing.
    pub fn copy_artifacts(
        &self,
        args: &[String],
        specific_bin: Option<&String>,
        specific_example: Option<&String>,
        snapshot: &Snapshot,
        failed: &[String],
    ) -> (r: Result<Gathered, OffloadError>)
        ensures
            match self@.copied(
                texts(args@),
                entries(snapshot.root@),
                entries(snapshot.examples@),
                opt_text(specific_bin),
                opt_text(specific_example),
                texts(failed@),
            ) {
                Ok(handed) => r matches Ok(g) && artifacts(g.artifacts@)
                    == handed.0 && texts(g.warnings@) == handed.1,
                Err(fault) => r matches Err(e) && e@ == fault,
            },
    {
        let local_dir = self.profile_dir(args);
        let found = match resolve(snapshot, local_dir.as_str(), specific_bin, specific_example) {
            Ok(found) => found,
            Err(e) => {
                return Err(e);
            },
        };
        let results = outcomes_of(found, failed);
        let request = ArtifactRequest::preferring_binary(specific_bin, specific_example);
        gather_copied(results.as_slice(), &request)
    }

    /// The steps that clean up.
    fn clean_plan(&self) -> (r: Vec<Step>)
        ensures
            steps(r@) == self@.clean_steps(),
    {
        let mut out: Vec<Step> = Vec::new();
        out.push(
            Step::Remote(
                silent_call(
                    self.host.as_str(),
                    self.port,
                    prefixed("rm -rf ", self.remote_dir.as_str()),
                ),
            ),
        );
        out.push(Step::RemoveLocal(String::from_str("target/offload")));
        assert(steps(out@) =~= self@.clean_steps());
        out
    }

    /// Cleans up, step by step: the remote working directory is removed,
    /// then the local mirror. Given how the steps run so far have ended, in
    /// order, this is the step to run next. The local mirror is left alone
    /// when the remote removal fails: a step that failed ends the stage with
    /// its failure.
    pub fn clean(&self, seen: &[Finished]) -> (r: Result<Step, OffloadError>)
        ensures
            match next_of(self@.clean_steps(), seen@) {
                Ok(step) => r matches Ok(found) && found@ == step,
                Err(fault) => r matches Err(e) && e@ == fault,
            },
    {
        let planned = self.clean_plan();
        next_step(planned.as_slice(), seen)
    }

    /// The local run of a retrieved binary with the user's arguments.
    pub fn run_binary(&self, binary_path: &str, args: &[String]) -> (r: LocalRun)
        ensures
            r.program@ == binary_path@,
            texts(r.arguments@) == texts(args@),
    {
        LocalRun { program: String::from_str(binary_path), arguments: copy_texts(args) }
    }
}

/// The exit code that the tool ends with after a local run, if it is to end:
/// a program that failed hands its code on, or 1 where it has none.
pub open spec fn propagated_exit(success: bool, code: Option<i32>) -> Option<i32> {
    if success {
        None
    } else {
        match code {
            Some(c) => Some(c),
            None => Some(1),
        }
    }
}

/// The exit code to end with after a local run, if any.
pub fn exit_code_after(success: bool, code: Option<i32>) -> (r: Option<i32>)
    ensures
        r == propagated_exit(success, code),
{
    if success {
        None
    } else {
        match code {
            Some(c) => Some(c),
            None => Some(1),
        }
    }
}

/// Bringing the sources over begins with making the remote working
/// directory, and the mirror is run only after that has succeeded. A `mkdir`
/// that failed ends the stage with the failure of the remote command, and no
/// mirror is handed out, whatever is reported afterwards. A mirror that
/// failed ends the stage with what the mirror reported.
pub proof fn law_source_sync(context: Context, a: Finished, b: Finished, later: Seq<Finished>)
    ensures
        next_of(context.source_steps(), Seq::empty()) == Ok::<StepView, Fault>(
            StepView::Remote(context.prepare_call()),
        ),
        a is NotStarted ==> next_of(context.source_steps(), seq![a] + later) == Err::<
            StepView,
            Fault,
        >(Fault::ToolMissing("ssh"@)),
        a is Exited && !succeeded(a) ==> next_of(context.source_steps(), seq![a] + later)
            == Err::<StepView, Fault>(Fault::RemoteFailed("mkdir -p "@ + context.remote_dir)),
        succeeded(a) ==> next_of(context.source_steps(), seq![a]) == Ok::<StepView, Fault>(
            context.source_steps()[1],
        ),
        succeeded(a) && b is NotStarted ==> next_of(context.source_steps(), seq![a, b] + later)
            == Err::<StepView, Fault>(Fault::ToolMissing("rsync"@)),
        succeeded(a) && b is Exited && !succeeded(b) ==> next_of(
            context.source_steps(),
            seq![a, b] + later,
        ) == Err::<StepView, Fault>(Fault::SyncFailed(b->errors@)),
        succeeded(a) && succeeded(b) ==> next_of(context.source_steps(), seq![a, b] + later)
            == Ok::<StepView, Fault>(StepView::Done),
{
    law_two_steps(context.source_steps()[0], context.source_steps()[1], a, b, later);
    assert(context.source_steps() =~= seq![context.source_steps()[0], context.source_steps()[1]]);
}

/// Setting the toolchain up installs the resolved toolchain first, and the
/// target is added only after that has succeeded: after an install that
/// failed no further call is handed out, whatever is reported afterwards.
/// Without a resolved toolchain the target is added at once.
pub proof fn law_setup_toolchain(context: Context, a: Finished, b: Finished, later: Seq<Finished>)
    ensures
        context.toolchain is None ==> next_of(context.setup_steps(), Seq::empty()) == Ok::<
            StepView,
            Fault,
        >(
            StepView::Remote(
                shell_call(
                    context.host,
                    context.port,
                    context.target_command(),
                    false,
                    Seq::empty(),
                ),
            ),
        ),
        context.toolchain matches Some(t) ==> {
            let install = shell_call(
                context.host,
                context.port,
                context.install_command(t),
                false,
                Seq::empty(),
            );
            let target = shell_call(
                context.host,
                context.port,
                context.target_command(),
                false,
                Seq::empty(),
            );
            &&& next_of(context.setup_steps(), Seq::empty()) == Ok::<StepView, Fault>(
                StepView::Remote(install),
            )
            &&& a is Exited && !succeeded(a) ==> next_of(context.setup_steps(), seq![a] + later)
                == Err::<StepView, Fault>(Fault::RemoteFailed(context.install_command(t)))
            &&& a is NotStarted ==> next_of(context.setup_steps(), seq![a] + later) == Err::<
                StepView,
                Fault,
            >(Fault::ToolMissing("ssh"@))
            &&& succeeded(a) ==> next_of(context.setup_steps(), seq![a]) == Ok::<StepView, Fault>(
                StepView::Remote(target),
            )
            &&& succeeded(a) && b is Exited && !succeeded(b) ==> next_of(
                context.setup_steps(),
                seq![a, b] + later,
            ) == Err::<StepView, Fault>(Fault::RemoteFailed(context.target_command()))
            &&& succeeded(a) && succeeded(b) ==> next_of(context.setup_steps(), seq![a, b] + later)
                == Ok::<StepView, Fault>(StepView::Done)
        },
{
    let planned = context.setup_steps();
    match context.toolchain {
        Some(t) => {
            assert(planned =~= seq![planned[0], planned[1]]);
            law_two_steps(planned[0], planned[1], a, b, later);
        },
        None => {
            assert(planned.len() == 1);
        },
    }
}

/// Cleaning up removes the remote working directory first, and the local
/// mirror only after that has succeeded: when the remote removal fails the
/// local mirror is left alone, whatever is reported afterwards.
pub proof fn law_clean(context: Context, a: Finished, b: Finished, later: Seq<Finished>)
    ensures
        next_of(context.clean_steps(), Seq::empty()) == Ok::<StepView, Fault>(
            StepView::Remote(context.clean_call()),
        ),
        a is Exited && !succeeded(a) ==> next_of(context.clean_steps(), seq![a] + later) == Err::<
            StepView,
            Fault,
        >(Fault::RemoteFailed("rm -rf "@ + context.remote_dir)),
        a is NotStarted ==> next_of(context.clean_steps(), seq![a] + later) == Err::<
            StepView,
            Fault,
        >(Fault::ToolMissing("ssh"@)),
        succeeded(a) ==> next_of(context.clean_steps(), seq![a]) == Ok::<StepView, Fault>(
            StepView::RemoveLocal("target/offload"@),
        ),
        succeeded(a) && succeeded(b) ==> next_of(context.clean_steps(), seq![a, b] + later)
            == Ok::<StepView, Fault>(StepView::Done),
        succeeded(a) && b is Exited && !succeeded(b) ==> next_of(
            context.clean_steps(),
            seq![a, b] + later,
        ) == Err::<StepView, Fault>(Fault::LocalFailed(b->errors@)),
{
    law_two_steps(context.clean_steps()[0], context.clean_steps()[1], a, b, later);
    assert(context.clean_steps() =~= seq![context.clean_steps()[0], context.clean_steps()[1]]);
}

/// Bringing the build output back makes the local profile directory first,
/// runs the mirror only after that has succeeded, and gathers what has
/// arrived only after the mirror has succeeded; a mirror that failed ends
/// the stage with what it reported, and nothing is gathered.
pub proof fn law_artifact_sync(
    context: Context,
    args: Seq<Seq<char>>,
    a: Finished,
    b: Finished,
    later: Seq<Finished>,
)
    ensures
        next_of(context.artifact_steps(args), Seq::empty()) == Ok::<StepView, Fault>(
            StepView::CreateLocal(context.local_profile_dir(args)),
        ),
        !succeeded(a) ==> next_of(context.artifact_steps(args), seq![a] + later) is Err,
        succeeded(a) ==> next_of(context.artifact_steps(args), seq![a]) == Ok::<StepView, Fault>(
            context.artifact_steps(args)[1],
        ),
        succeeded(a) && b is NotStarted ==> next_of(
            context.artifact_steps(args),
            seq![a, b] + later,
        ) == Err::<StepView, Fault>(Fault::ToolMissing("rsync"@)),
        succeeded(a) && b is Exited && !succeeded(b) ==> next_of(
            context.artifact_steps(args),
            seq![a, b] + later,
        ) == Err::<StepView, Fault>(Fault::CopyFailed(b->errors@)),
        succeeded(a) && succeeded(b) ==> next_of(context.artifact_steps(args), seq![a, b])
            == Ok::<StepView, Fault>(StepView::Collect(context.local_profile_dir(args))),
{
    let planned = context.artifact_steps(args);
    if !succeeded(a) {
        assert((seq![a] + later)[0] == a);
        law_failure_stops(planned, seq![a] + later, 0);
    } else {
        law_steps_in_order(planned, seq![a]);
        if !succeeded(b) {
            assert((seq![a, b] + later)[0] == a);
            assert((seq![a, b] + later)[1] == b);
            law_failure_stops(planned, seq![a, b] + later, 1);
        } else {
            law_steps_in_order(planned, seq![a, b]);
        }
    }
    law_steps_in_order(planned, Seq::empty());
}

/// Where no name was asked for and some files did not arrive, the copy
/// still succeeds as long as one artifact did arrive: that one is handed on,
/// none whose path is among the failed is, and each artifact either is
/// handed on or costs one warning.
pub proof fn law_copy_tolerates_failures(
    context: Context,
    args: Seq<Seq<char>>,
    root: Seq<Entry>,
    examples: Seq<Entry>,
    failed: Seq<Seq<char>>,
    arrived: int,
)
    requires
        resolved(root, examples, context.local_profile_dir(args), None, None) matches Ok(found)
            && 0 <= arrived < found.len() && !failed.contains(found[arrived].path),
    ensures
        context.copied(args, root, examples, None, None, failed) matches Ok(handed) && resolved(
            root,
            examples,
            context.local_profile_dir(args),
            None,
            None,
        ) matches Ok(found) && handed.0.contains(found[arrived]) && handed.0.len()
            + handed.1.len() == found.len() && (forall|a: ArtifactView|
            failed.contains(a.path) ==> !(#[trigger] handed.0.contains(a))),
{
    let found = resolved(root, examples, context.local_profile_dir(args), None, None)->Ok_0;
    law_retrieval_tolerates_failures(found, failed, arrived);
}

} // verus!
