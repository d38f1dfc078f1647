//! From the subcommand to the work: the stages that each subcommand runs
//! through, the build that a run asks for, and the one artifact that a run
//! executes.

use vstd::prelude::*;
use vstd::string::StringExecFns;
use crate::artifacts::{
    artifacts, copy_artifact, is_library_name, library_name, request_for, Artifact, ArtifactKind,
    ArtifactRequest, ArtifactView, Request,
};
use crate::cli::{Cli, Commands};
use crate::error::{Fault, OffloadError};
use crate::offload::{context_of, CargoOffload, Surroundings};
use crate::text::{
    copy_texts, first_where, lemma_first_where_is, opt_string, push_char, push_text, string_in,
    text_eq, texts,
};
use crate::util::{
    build_part, elapsed_text, flag_value, format_duration, parse_flag, run_part,
    separate_run_args_from_raw,
};

verus! {

// The stages of an invocation

/// One stage of an invocation. Each stage starts only when the one before
/// it has succeeded.
#[derive(Debug, Clone, Copy, PartialEq, Eq)]
pub enum Stage {
    /// The connection and the toolchain are resolved.
    Resolve,
    /// The sources are mirrored to the remote machine.
    SyncSource,
    /// The toolchain and the target are installed there.
    SetupToolchain,
    /// The remote command runs.
    RemoteCommand,
    /// The build output is mirrored back.
    SyncArtifacts,
    /// The one artifact to run is picked.
    ResolveTarget,
    /// That artifact runs on this machine.
    RunLocally,
    /// The remote working directory and the local mirror are removed.
    Clean,
}

/// The stages of a subcommand, in order. Cleaning and the toolchain
/// passthrough neither mirror nor build.
pub open spec fn stages_of(command: Commands) -> Seq<Stage> {
    match command {
        Commands::Build { .. } => seq![
            Stage::Resolve,
            Stage::SyncSource,
            Stage::SetupToolchain,
            Stage::RemoteCommand,
            Stage::SyncArtifacts,
        ],
        Commands::Run { .. } | Commands::RunLocal { .. } => seq![
            Stage::Resolve,
            Stage::SyncSource,
            Stage::SetupToolchain,
            Stage::RemoteCommand,
            Stage::SyncArtifacts,
            Stage::ResolveTarget,
            Stage::RunLocally,
        ],
        Commands::RunRemote { .. } | Commands::Test { .. } | Commands::Clippy { .. } => seq![
            Stage::Resolve,
            Stage::SyncSource,
            Stage::SetupToolchain,
            Stage::RemoteCommand,
        ],
        Commands::Toolchain { .. } => seq![Stage::Resolve, Stage::RemoteCommand],
        Commands::Clean => seq![Stage::Resolve, Stage::Clean],
    }
}

/// The stage that follows once `done` stages have ended, the last of them
/// with success or not: none after a failure, and none after the last.
pub open spec fn stage_after(command: Commands, done: nat, succeeded: bool) -> Option<Stage> {
    if succeeded && done < stages_of(command).len() {
        Some(stages_of(command)[done as int])
    } else {
        None
    }
}

/// The stages of a subcommand, in order.
pub fn stages(command: &Commands) -> (r: Vec<Stage>)
    ensures
        r@ == stages_of(*command),
{
    let mut out: Vec<Stage> = Vec::new();
    out.push(Stage::Resolve);
    match command {
        Commands::Toolchain { .. } => {
            out.push(Stage::RemoteCommand);
        },
        Commands::Clean => {
            out.push(Stage::Clean);
        },
        _ => {
            out.push(Stage::SyncSource);
            out.push(Stage::SetupToolchain);
            out.push(Stage::RemoteCommand);
            match command {
                Commands::Build { .. } => {
                    out.push(Stage::SyncArtifacts);
                },
                Commands::Run { .. } | Commands::RunLocal { .. } => {
                    out.push(Stage::SyncArtifacts);
                    out.push(Stage::ResolveTarget);
                    out.push(Stage::RunLocally);
                },
                _ => {},
            }
        },
    }
    assert(out@ =~= stages_of(*command));
    out
}

/// The stage to start next, once `done` stages have ended and the last of
/// them succeeded or not. A failure ends the invocation.
pub fn next_stage(command: &Commands, done: usize, succeeded: bool) -> (r: Option<Stage>)
    ensures
        r == stage_after(*command, done as nat, succeeded),
{
    if !succeeded {
        return None;
    }
    let all = stages(command);
    if done < all.len() {
        Some(all[done])
    } else {
        None
    }
}

/// Cleaning and the toolchain passthrough bypass the mirroring and the
/// build: none of their stages touches the sources, the toolchain setup or
/// the artifacts.
pub proof fn law_bypass(command: Commands, i: int)
    requires
        command is Clean || command is Toolchain,
        0 <= i < stages_of(command).len(),
    ensures
        stages_of(command)[i] != Stage::SyncSource,
        stages_of(command)[i] != Stage::SetupToolchain,
        stages_of(command)[i] != Stage::SyncArtifacts,
        stages_of(command)[i] != Stage::ResolveTarget,
        stages_of(command)[i] != Stage::RunLocally,
{
}

/// A failure at any stage ends the invocation: no stage follows it.
pub proof fn law_failure_aborts(command: Commands, done: nat)
    ensures
        stage_after(command, done, false) is None,
{
}

// What a run asks for

/// What a run asks for: the build to make, the artifact to pick, and the
/// arguments of the program that is run.
#[derive(Debug, Clone, PartialEq, Eq)]
pub struct RunRequest {
    /// The arguments of the remote build.
    pub build_args: Vec<String>,
    /// The binary asked for by name, if any.
    pub bin: Option<String>,
    /// The example asked for by name, if any.
    pub example: Option<String>,
    /// The arguments of the program that is run locally.
    pub run_args: Vec<String>,
}

/// The mathematical content of a [`RunRequest`].
pub ghost struct RunView {
    pub build_args: Seq<Seq<char>>,
    pub bin: Option<Seq<char>>,
    pub example: Option<Seq<char>>,
    pub run_args: Seq<Seq<char>>,
}

impl View for RunRequest {
    type V = RunView;

    open spec fn view(&self) -> RunView {
        RunView {
            build_args: texts(self.build_args@),
            bin: opt_string(self.bin),
            example: opt_string(self.example),
            run_args: texts(self.run_args@),
        }
    }
}

/// The arguments of the build for a run: what stands before `--`, and once
/// more the name flag that picks the artifact, a binary before an example.
pub open spec fn run_build_args(
    build: Seq<Seq<char>>,
    bin: Option<Seq<char>>,
    example: Option<Seq<char>>,
) -> Seq<Seq<char>> {
    match bin {
        Some(name) => build + seq!["--bin"@, name],
        None => match example {
            Some(name) => build + seq!["--example"@, name],
            None => build,
        },
    }
}

/// What the arguments of a run ask for. What stands behind the first `--`
/// is for the program that is run; what stands before it is for the build,
/// and may name a binary or an example, not both. A name flag whose value
/// looks like a flag is refused, the binary's before the example's.
pub open spec fn run_of(args: Seq<Seq<char>>) -> Result<RunView, Fault> {
    match flag_value(build_part(args), "bin"@) {
        Err(fault) => Err(fault),
        Ok(bin) => match flag_value(build_part(args), "example"@) {
            Err(fault) => Err(fault),
            Ok(example) => if bin is Some && example is Some {
                Err(Fault::BothNamed { bin: bin->0, example: example->0 })
            } else {
                Ok(
                    RunView {
                        build_args: run_build_args(build_part(args), bin, example),
                        bin,
                        example,
                        run_args: run_part(args),
                    },
                )
            },
        },
    }
}

/// Reads the arguments of a run.
pub fn plan_run(args: &[String]) -> (r: Result<RunRequest, OffloadError>)
    ensures
        match run_of(texts(args@)) {
            Ok(run) => r matches Ok(found) && found@ == run,
            Err(fault) => r matches Err(e) && e@ == fault,
        },
{
    let (mut build_args, run_args) = separate_run_args_from_raw(args);
    let bin = match parse_flag(build_args.as_slice(), "bin") {
        Ok(bin) => bin,
        Err(e) => {
            return Err(e);
        },
    };
    let example = match parse_flag(build_args.as_slice(), "example") {
        Ok(example) => example,
        Err(e) => {
            return Err(e);
        },
    };
    if let Some(name) = &bin {
        if let Some(other) = &example {
            return Err(OffloadError::BothNamed { bin: name.clone(), example: other.clone() });
        }
    }
    let ghost build = texts(build_args@);
    if let Some(name) = &bin {
        push_text(&mut build_args, "--bin");
        push_text(&mut build_args, name.as_str());
        assert(texts(build_args@) =~= build + seq!["--bin"@, name@]);
    } else if let Some(name) = &example {
        push_text(&mut build_args, "--example");
        push_text(&mut build_args, name.as_str());
        assert(texts(build_args@) =~= build + seq!["--example"@, name@]);
    }
    Ok(RunRequest { build_args, bin, example, run_args })
}

// What a subcommand asks for

/// One invocation of the build tool on the remote machine.
#[derive(Debug, Clone, PartialEq, Eq)]
pub struct BuildInvocation {
    /// The subcommand of the build tool.
    pub subcommand: String,
    /// The user's arguments, in order.
    pub args: Vec<String>,
    /// `NAME=value` assignments for the remote environment.
    pub env_vars: Vec<String>,
    /// `local[:remote]` port-forward specifications.
    pub forward_ports: Vec<String>,
}

/// The mathematical content of a [`BuildInvocation`].
pub ghost struct Invocation {
    pub subcommand: Seq<char>,
    pub args: Seq<Seq<char>>,
    pub env_vars: Seq<Seq<char>>,
    pub forward_ports: Seq<Seq<char>>,
}

impl View for BuildInvocation {
    type V = Invocation;

    open spec fn view(&self) -> Invocation {
        Invocation {
            subcommand: self.subcommand@,
            args: texts(self.args@),
            env_vars: texts(self.env_vars@),
            forward_ports: texts(self.forward_ports@),
        }
    }
}

/// What a subcommand asks for, beyond the order of its stages.
#[derive(Debug, Clone, PartialEq, Eq)]
pub struct Plan {
    /// The invocation of the remote build tool, for the subcommands that
    /// make one.
    pub invocation: Option<BuildInvocation>,
    /// The arguments for the remote toolchain manager, for the passthrough.
    pub passthrough: Option<Vec<String>>,
    /// The artifacts that are asked for.
    pub request: ArtifactRequest,
    /// The arguments of the program that is run locally.
    pub run_args: Vec<String>,
}

/// The mathematical content of a [`Plan`].
pub ghost struct PlanView {
    pub invocation: Option<Invocation>,
    pub passthrough: Option<Seq<Seq<char>>>,
    pub request: Request,
    pub run_args: Seq<Seq<char>>,
}

impl View for Plan {
    type V = PlanView;

    open spec fn view(&self) -> PlanView {
        PlanView {
            invocation: match self.invocation {
                Some(i) => Some(i@),
                None => None,
            },
            passthrough: match self.passthrough {
                Some(args) => Some(texts(args@)),
                None => None,
            },
            request: self.request@,
            run_args: texts(self.run_args@),
        }
    }
}

/// The plan of a subcommand that only invokes the remote build tool.
pub open spec fn remote_only(
    subcommand: Seq<char>,
    args: Seq<Seq<char>>,
    env_vars: Seq<Seq<char>>,
    forward_ports: Seq<Seq<char>>,
) -> PlanView {
    PlanView {
        invocation: Some(Invocation { subcommand, args, env_vars, forward_ports }),
        passthrough: None,
        request: Request::All,
        run_args: Seq::empty(),
    }
}

/// What a subcommand asks for. Only the remote run forwards ports; a run
/// builds what its arguments before `--` say and what its one name flag picks;
/// the toolchain passthrough and cleaning invoke no build at all.
pub open spec fn plan_of(
    command: Commands,
    env_vars: Seq<Seq<char>>,
    forward_ports: Seq<Seq<char>>,
) -> Result<PlanView, Fault> {
    match command {
        Commands::Build { args } => Ok(
            remote_only("build"@, texts(args@), env_vars, Seq::empty()),
        ),
        Commands::Run { args } | Commands::RunLocal { args } => match run_of(texts(args@)) {
            Err(fault) => Err(fault),
            Ok(run) => Ok(
                PlanView {
                    invocation: Some(
                        Invocation {
                            subcommand: "build"@,
                            args: run.build_args,
                            env_vars,
                            forward_ports: Seq::empty(),
                        },
                    ),
                    passthrough: None,
                    request: request_for(run.bin, run.example),
                    run_args: run.run_args,
                },
            ),
        },
        Commands::RunRemote { args } => Ok(
            remote_only("run"@, texts(args@), env_vars, forward_ports),
        ),
        Commands::Test { args } => Ok(remote_only("test"@, texts(args@), env_vars, Seq::empty())),
        Commands::Clippy { args } => Ok(
            remote_only("clippy"@, texts(args@), env_vars, Seq::empty()),
        ),
        Commands::Toolchain { args } => Ok(
            PlanView {
                invocation: None,
                passthrough: Some(texts(args@)),
                request: Request::All,
                run_args: Seq::empty(),
            },
        ),
        Commands::Clean => Ok(
            PlanView {
                invocation: None,
                passthrough: None,
                request: Request::All,
                run_args: Seq::empty(),
            },
        ),
    }
}

/// The plan of a subcommand that only invokes the remote build tool.
fn remote_plan(subcommand: &str, args: &[String], env_vars: &[String], forward_ports: &[String])
    -> (r: Plan)
    ensures
        r@ == remote_only(subcommand@, texts(args@), texts(env_vars@), texts(forward_ports@)),
{
    let run_args: Vec<String> = Vec::new();
    assert(texts(run_args@) =~= Seq::<Seq<char>>::empty());
    Plan {
        invocation: Some(
            BuildInvocation {
                subcommand: String::from_str(subcommand),
                args: copy_texts(args),
                env_vars: copy_texts(env_vars),
                forward_ports: copy_texts(forward_ports),
            },
        ),
        passthrough: None,
        request: ArtifactRequest::All,
        run_args,
    }
}

/// Decides what a subcommand asks for, given the environment assignments
/// and the port-forward specifications of the command line.
pub fn plan(command: &Commands, env_vars: &[String], forward_ports: &[String]) -> (r: Result<
    Plan,
    OffloadError,
>)
    ensures
        match plan_of(*command, texts(env_vars@), texts(forward_ports@)) {
            Ok(planned) => r matches Ok(found) && found@ == planned,
            Err(fault) => r matches Err(e) && e@ == fault,
        },
{
    let none: Vec<String> = Vec::new();
    assert(texts(none@) =~= Seq::<Seq<char>>::empty());
    match command {
        Commands::Build { args } => Ok(
            remote_plan("build", args.as_slice(), env_vars, none.as_slice()),
        ),
        Commands::Run { args } | Commands::RunLocal { args } => {
            let run = match plan_run(args.as_slice()) {
                Ok(run) => run,
                Err(e) => {
                    return Err(e);
                },
            };
            let request = match ArtifactRequest::new(
                string_in(&run.bin),
                string_in(&run.example),
            ) {
                Ok(request) => request,
                Err(e) => {
                    return Err(e);
                },
            };
            Ok(
                Plan {
                    invocation: Some(
                        BuildInvocation {
                            subcommand: String::from_str("build"),
                            args: run.build_args,
                            env_vars: copy_texts(env_vars),
                            forward_ports: none,
                        },
                    ),
                    passthrough: None,
                    request,
                    run_args: run.run_args,
                },
            )
        },
        Commands::RunRemote { args } => Ok(
            remote_plan("run", args.as_slice(), env_vars, forward_ports),
        ),
        Commands::Test { args } => Ok(
            remote_plan("test", args.as_slice(), env_vars, none.as_slice()),
        ),
        Commands::Clippy { args } => Ok(
            remote_plan("clippy", args.as_slice(), env_vars, none.as_slice()),
        ),
        Commands::Toolchain { args } => Ok(
            Plan {
                invocation: None,
                passthrough: Some(copy_texts(args.as_slice())),
                request: ArtifactRequest::All,
                run_args: none,
            },
        ),
        Commands::Clean => Ok(
            Plan {
                invocation: None,
                passthrough: None,
                request: ArtifactRequest::All,
                run_args: none,
            },
        ),
    }
}

// The first stage

/// Resolves an invocation: the context, then what the subcommand asks for.
/// Whatever keeps the context from being made is reported before what is
/// wrong with the subcommand's arguments.
pub fn resolve(
    cli: &Cli,
    toolchain: Option<String>,
    progress_flag: String,
    surroundings: &Surroundings,
) -> (r: Result<(CargoOffload, Plan), OffloadError>)
    ensures
        match context_of(*cli, opt_string(toolchain), progress_flag@, *surroundings) {
            Err(fault) => r matches Err(e) && e@ == fault,
            Ok(context) => match plan_of(
                cli.command,
                texts(cli.env_vars@),
                texts(cli.forward_ports@),
            ) {
                Err(fault) => r matches Err(e) && e@ == fault,
                Ok(planned) => r matches Ok(found) && found.0@ == context && found.1@ == planned,
            },
        },
{
    let context = match CargoOffload::new(cli, toolchain, progress_flag, surroundings) {
        Ok(context) => context,
        Err(e) => {
            return Err(e);
        },
    };
    match plan(&cli.command, cli.env_vars.as_slice(), cli.forward_ports.as_slice()) {
        Ok(planned) => Ok((context, planned)),
        Err(e) => Err(e),
    }
}

// What is said at the end

/// What a subcommand is said to have done, for those of which anything is
/// said.
pub open spec fn completion_label(command: Commands) -> Option<Seq<char>> {
    match command {
        Commands::Build { .. } => Some("Build completed and artifacts copied successfully"@),
        Commands::Run { .. } | Commands::RunLocal { .. } => Some("Run completed successfully"@),
        Commands::RunRemote { .. } => Some("Remote run completed successfully"@),
        Commands::Test { .. } => Some("Tests completed successfully"@),
        Commands::Clippy { .. } => Some("Clippy completed successfully"@),
        Commands::Toolchain { .. } => None,
        Commands::Clean => Some("Clean completed successfully"@),
    }
}

/// The note that ends a successful invocation: what was done, and how long
/// it took.
pub open spec fn completion_text(command: Commands, secs: nat, millis: nat) -> Option<Seq<char>> {
    match completion_label(command) {
        Some(label) => Some(label + " (took "@ + elapsed_text(secs, millis) + seq![')']),
        None => None,
    }
}

/// The note that ends a successful invocation which took `secs` seconds and
/// `millis` milliseconds.
pub fn completion_note(command: &Commands, secs: u64, millis: u32) -> (r: Option<String>)
    ensures
        opt_string(r) == completion_text(*command, secs as nat, millis as nat),
{
    let mut out = match command {
        Commands::Build { .. } => String::from_str(
            "Build completed and artifacts copied successfully",
        ),
        Commands::Run { .. } | Commands::RunLocal { .. } => String::from_str(
            "Run completed successfully",
        ),
        Commands::RunRemote { .. } => String::from_str("Remote run completed successfully"),
        Commands::Test { .. } => String::from_str("Tests completed successfully"),
        Commands::Clippy { .. } => String::from_str("Clippy completed successfully"),
        Commands::Toolchain { .. } => {
            return None;
        },
        Commands::Clean => String::from_str("Clean completed successfully"),
    };
    out.append(" (took ");
    let elapsed = format_duration(secs, millis);
    out.append(elapsed.as_str());
    push_char(&mut out, ')');
    Some(out)
}

// The one artifact that a run executes

/// Whether an artifact can be run without being named: a binary that is
/// no library.
pub open spec fn is_runnable(a: ArtifactView) -> bool {
    a.kind == ArtifactKind::Binary && !is_library_name(a.name)
}

/// The artifacts that can be run without being named, in order.
pub open spec fn runnable(list: Seq<ArtifactView>) -> Seq<ArtifactView>
    decreases list.len(),
{
    if list.len() == 0 {
        Seq::empty()
    } else if is_runnable(list.last()) {
        runnable(list.drop_last()).push(list.last())
    } else {
        runnable(list.drop_last())
    }
}

/// The index of the first artifact of the given name, among the examples
/// only or among all; `list.len()` where there is none.
pub open spec fn first_named_index(list: Seq<ArtifactView>, examples_only: bool, name: Seq<char>)
    -> int {
    first_where(
        list,
        |a: ArtifactView| (!examples_only || a.kind == ArtifactKind::Example) && a.name == name,
    )
}

/// The artifact that a run executes. An example or a binary asked for by
/// name is the first artifact of that name. With no name there must be
/// exactly one artifact that can be run: none and several are different
/// failures.
pub open spec fn selected(list: Seq<ArtifactView>, request: Request) -> Result<
    ArtifactView,
    Fault,
> {
    match request {
        Request::Example(name) => {
            let at = first_named_index(list, true, name);
            if at < list.len() {
                Ok(list[at])
            } else {
                Err(Fault::ExampleNotFound(name))
            }
        },
        Request::Binary(name) => {
            let at = first_named_index(list, false, name);
            if at < list.len() {
                Ok(list[at])
            } else {
                Err(Fault::BinaryNotFound(name))
            }
        },
        Request::All => {
            let candidates = runnable(list);
            if candidates.len() == 1 {
                Ok(candidates[0])
            } else if candidates.len() == 0 {
                Err(Fault::NoBinaries)
            } else {
                Err(Fault::AmbiguousBinaries)
            }
        },
    }
}

/// The first artifact with the given name, of the given kind where one is
/// given.
fn first_named(list: &[Artifact], examples_only: bool, name: &str) -> (r: Option<usize>)
    ensures
        match r {
            Some(i) => i < list.len() && i == first_named_index(
                artifacts(list@),
                examples_only,
                name@,
            ),
            None => first_named_index(artifacts(list@), examples_only, name@) == list.len(),
        },
{
    let ghost all = artifacts(list@);
    let ghost pred = |a: ArtifactView|
        (!examples_only || a.kind == ArtifactKind::Example) && a.name == name@;
    let mut i: usize = 0;
    while i < list.len()
        invariant
            i <= list.len(),
            all == artifacts(list@),
            pred == |a: ArtifactView|
                (!examples_only || a.kind == ArtifactKind::Example) && a.name == name@,
            forall|j: int| 0 <= j < i ==> !pred(#[trigger] all[j]),
        decreases list.len() - i,
    {
        let kind_fits = !examples_only || match list[i].kind {
            ArtifactKind::Example => true,
            ArtifactKind::Binary => false,
        };
        if kind_fits && text_eq(list[i].name.as_str(), name) {
            proof {
                assert(pred(all[i as int]));
                lemma_first_where_is(all, pred, i as int);
            }
            return Some(i);
        }
        assert(!pred(all[i as int]));
        i += 1;
    }
    proof {
        lemma_first_where_is(all, pred, list.len() as int);
    }
    None
}

/// Picks the one artifact that a run executes.
pub fn select_run_artifact(list: &[Artifact], request: &ArtifactRequest) -> (r: Result<
    Artifact,
    OffloadError,
>)
    ensures
        match selected(artifacts(list@), request@) {
            Ok(found) => r matches Ok(a) && a@ == found,
            Err(fault) => r matches Err(e) && e@ == fault,
        },
{
    let ghost all = artifacts(list@);
    match request {
        ArtifactRequest::Example(name) => {
            match first_named(list, true, name.as_str()) {
                Some(i) => Ok(copy_artifact(&list[i])),
                None => Err(OffloadError::ExampleNotFound(name.clone())),
            }
        },
        ArtifactRequest::Binary(name) => {
            match first_named(list, false, name.as_str()) {
                Some(i) => Ok(copy_artifact(&list[i])),
                None => Err(OffloadError::BinaryNotFound(name.clone())),
            }
        },
        ArtifactRequest::All => {
            let mut count: usize = 0;
            let mut first: usize = 0;
            let mut i: usize = 0;
            assert(runnable(all.take(0)) =~= Seq::<ArtifactView>::empty());
            while i < list.len()
                invariant
                    i <= list.len(),
                    all == artifacts(list@),
                    count == runnable(all.take(i as int)).len(),
                    count <= i,
                    count > 0 ==> first < i && runnable(all.take(i as int))[0] == all[first as int],
                decreases list.len() - i,
            {
                let ghost seen = all.take(i as int);
                assert(all.take(i + 1).drop_last() =~= seen);
                assert(all.take(i + 1).last() == list@[i as int]@);
                let runs = match list[i].kind {
                    ArtifactKind::Binary => !library_name(list[i].name.as_str()),
                    ArtifactKind::Example => false,
                };
                assert(runs == is_runnable(all[i as int]));
                if runs {
                    if count == 0 {
                        first = i;
                    }
                    count += 1;
                }
                i += 1;
            }
            assert(all.take(list.len() as int) =~= all);
            if count == 1 {
                Ok(copy_artifact(&list[first]))
            } else if count == 0 {
                Err(OffloadError::NoBinaries)
            } else {
                Err(OffloadError::AmbiguousBinaries)
            }
        },
    }
}

/// The artifacts that can be run among the first `k` are among those that
/// can be run at all.
pub proof fn lemma_runnable_grows(list: Seq<ArtifactView>, k: int)
    requires
        0 <= k <= list.len(),
    ensures
        runnable(list.take(k)).len() <= runnable(list).len(),
    decreases list.len(),
{
    if k == list.len() {
        assert(list.take(k) =~= list);
    } else {
        assert(list.drop_last().take(k) =~= list.take(k));
        lemma_runnable_grows(list.drop_last(), k);
    }
}

/// Where nothing before `k` can be run, nothing is found there.
pub proof fn lemma_runnable_none(list: Seq<ArtifactView>, k: int)
    requires
        0 <= k <= list.len(),
        forall|j: int| 0 <= j < k ==> !is_runnable(#[trigger] list[j]),
    ensures
        runnable(list.take(k)) == Seq::<ArtifactView>::empty(),
    decreases k,
{
    if k > 0 {
        lemma_runnable_none(list, k - 1);
        assert(list.take(k).drop_last() =~= list.take(k - 1));
        assert(list.take(k).last() == list[k - 1]);
    }
}

/// Where only `list[i]` can be run, it is all that is found, however far
/// one looks behind it.
pub proof fn lemma_runnable_single(list: Seq<ArtifactView>, i: int, k: int)
    requires
        0 <= i < k <= list.len(),
        is_runnable(list[i]),
        forall|j: int| 0 <= j < list.len() && j != i ==> !is_runnable(#[trigger] list[j]),
    ensures
        runnable(list.take(k)) == seq![list[i]],
    decreases k,
{
    assert(list.take(k).drop_last() =~= list.take(k - 1));
    assert(list.take(k).last() == list[k - 1]);
    if k == i + 1 {
        lemma_runnable_none(list, i);
        assert(runnable(list.take(k)) =~= seq![list[i]]);
    } else {
        lemma_runnable_single(list, i, k - 1);
    }
}

/// With no name given and two artifacts that can be run, the choice is
/// refused as ambiguous, whatever else there is.
pub proof fn law_two_candidates_are_ambiguous(list: Seq<ArtifactView>, i: int, j: int)
    requires
        0 <= i < j < list.len(),
        is_runnable(list[i]),
        is_runnable(list[j]),
    ensures
        selected(list, Request::All) == Err::<ArtifactView, Fault>(Fault::AmbiguousBinaries),
{
    let upto_i = list.take(i + 1);
    assert(upto_i.last() == list[i]);
    assert(runnable(upto_i).len() >= 1);
    let before_j = list.take(j);
    assert(before_j.take(i + 1) =~= upto_i);
    lemma_runnable_grows(before_j, i + 1);
    let upto_j = list.take(j + 1);
    assert(upto_j.drop_last() =~= before_j);
    assert(upto_j.last() == list[j]);
    assert(runnable(upto_j).len() >= 2);
    lemma_runnable_grows(list, j + 1);
}

/// With no name given and exactly one artifact that can be run, that one
/// is chosen.
pub proof fn law_single_candidate_is_chosen(list: Seq<ArtifactView>, i: int)
    requires
        0 <= i < list.len(),
        is_runnable(list[i]),
        forall|j: int| 0 <= j < list.len() && j != i ==> !is_runnable(#[trigger] list[j]),
    ensures
        selected(list, Request::All) == Ok::<ArtifactView, Fault>(list[i]),
{
    lemma_runnable_single(list, i, list.len() as int);
    assert(list.take(list.len() as int) =~= list);
}

/// With no name given and nothing that can be run, the choice fails, and
/// not as an ambiguous one.
pub proof fn law_no_candidate(list: Seq<ArtifactView>)
    requires
        forall|j: int| 0 <= j < list.len() ==> !is_runnable(#[trigger] list[j]),
    ensures
        selected(list, Request::All) == Err::<ArtifactView, Fault>(Fault::NoBinaries),
{
    lemma_runnable_none(list, list.len() as int);
    assert(list.take(list.len() as int) =~= list);
}

} // verus!
