use cargo_offload::artifacts::{Artifact, ArtifactKind, ArtifactRequest};
use cargo_offload::cli::{Cli, Commands};
use cargo_offload::dispatch::{
    completion_note, next_stage, plan, plan_run, resolve, select_run_artifact, stages,
    BuildInvocation, Plan, RunRequest, Stage,
};
use cargo_offload::error::OffloadError;
use cargo_offload::offload::Surroundings;

fn list(items: &[&str]) -> Vec<String> {
    items.iter().map(|s| s.to_string()).collect()
}

fn binary(name: &str) -> Artifact {
    Artifact { kind: ArtifactKind::Binary, name: name.to_string(), path: format!("p/{}", name) }
}

fn example(name: &str) -> Artifact {
    Artifact {
        kind: ArtifactKind::Example,
        name: name.to_string(),
        path: format!("p/examples/{}", name),
    }
}

#[test]
fn stages_of_a_build() {
    assert_eq!(
        stages(&Commands::Build { args: Vec::new() }),
        vec![
            Stage::Resolve,
            Stage::SyncSource,
            Stage::SetupToolchain,
            Stage::RemoteCommand,
            Stage::SyncArtifacts
        ]
    );
}

#[test]
fn stages_of_a_run() {
    let all = vec![
        Stage::Resolve,
        Stage::SyncSource,
        Stage::SetupToolchain,
        Stage::RemoteCommand,
        Stage::SyncArtifacts,
        Stage::ResolveTarget,
        Stage::RunLocally,
    ];
    assert_eq!(stages(&Commands::Run { args: Vec::new() }), all);
    assert_eq!(stages(&Commands::RunLocal { args: Vec::new() }), all);
}

#[test]
fn stages_of_remote_only_commands() {
    let all = vec![Stage::Resolve, Stage::SyncSource, Stage::SetupToolchain, Stage::RemoteCommand];
    assert_eq!(stages(&Commands::RunRemote { args: Vec::new() }), all);
    assert_eq!(stages(&Commands::Test { args: Vec::new() }), all);
    assert_eq!(stages(&Commands::Clippy { args: Vec::new() }), all);
}

#[test]
fn clean_and_toolchain_bypass_the_build() {
    assert_eq!(stages(&Commands::Clean), vec![Stage::Resolve, Stage::Clean]);
    assert_eq!(
        stages(&Commands::Toolchain { args: Vec::new() }),
        vec![Stage::Resolve, Stage::RemoteCommand]
    );
}

#[test]
fn stages_follow_each_other() {
    let build = Commands::Build { args: Vec::new() };
    assert_eq!(next_stage(&build, 0, true), Some(Stage::Resolve));
    assert_eq!(next_stage(&build, 1, true), Some(Stage::SyncSource));
    assert_eq!(next_stage(&build, 4, true), Some(Stage::SyncArtifacts));
    assert_eq!(next_stage(&build, 5, true), None);
    assert_eq!(next_stage(&build, usize::MAX, true), None);
}

#[test]
fn failure_aborts_later_stages() {
    let run = Commands::Run { args: Vec::new() };
    assert_eq!(next_stage(&run, 1, false), None);
    assert_eq!(next_stage(&run, 4, false), None);
}

#[test]
fn plan_of_a_build() {
    let args = list(&["--release"]);
    let env = list(&["A=1"]);
    assert_eq!(
        plan(&Commands::Build { args: args.clone() }, &env, &list(&["8080"])),
        Ok(Plan {
            invocation: Some(BuildInvocation {
                subcommand: "build".to_string(),
                args,
                env_vars: env,
                forward_ports: Vec::new(),
            }),
            passthrough: None,
            request: ArtifactRequest::All,
            run_args: Vec::new(),
        })
    );
}

#[test]
fn plan_of_a_run() {
    let expected = Ok(Plan {
        invocation: Some(BuildInvocation {
            subcommand: "build".to_string(),
            args: list(&["--example", "hi", "--example", "hi"]),
            env_vars: Vec::new(),
            forward_ports: Vec::new(),
        }),
        passthrough: None,
        request: ArtifactRequest::Example("hi".to_string()),
        run_args: list(&["-v"]),
    });
    let args = list(&["--example", "hi", "--", "-v"]);
    assert_eq!(plan(&Commands::Run { args: args.clone() }, &[], &list(&["1"])), expected);
    assert_eq!(plan(&Commands::RunLocal { args }, &[], &[]), expected);
}

#[test]
fn plan_of_a_run_with_both_names_is_refused() {
    let both = Err(OffloadError::BothNamed { bin: "b".to_string(), example: "e".to_string() });
    let args = list(&["--example", "e", "--bin", "b", "x"]);
    assert_eq!(plan(&Commands::Run { args: args.clone() }, &[], &[]), both);
    assert_eq!(plan_run(&args), Err(OffloadError::BothNamed {
        bin: "b".to_string(),
        example: "e".to_string()
    }));
    assert_eq!(
        plan(&Commands::Build { args: args.clone() }, &[], &[]).unwrap().invocation.unwrap().args,
        args
    );
}

#[test]
fn plan_of_a_run_with_a_bad_flag() {
    assert_eq!(
        plan(&Commands::Run { args: list(&["--bin", "-x", "y"]) }, &[], &[]),
        Err(OffloadError::InvalidArgument { flag: "bin".to_string(), value: "-x".to_string() })
    );
}

#[test]
fn only_the_remote_run_forwards_ports() {
    let forwards = list(&["8080:80"]);
    let remote = plan(&Commands::RunRemote { args: Vec::new() }, &[], &forwards).unwrap();
    let invocation = remote.invocation.unwrap();
    assert_eq!(invocation.subcommand, "run");
    assert_eq!(invocation.forward_ports, forwards);
    let test = plan(&Commands::Test { args: list(&["--", "x"]) }, &[], &forwards).unwrap();
    let invocation = test.invocation.unwrap();
    assert_eq!(invocation.subcommand, "test");
    assert_eq!(invocation.args, list(&["--", "x"]));
    assert_eq!(invocation.forward_ports, Vec::<String>::new());
    let lint = plan(&Commands::Clippy { args: Vec::new() }, &list(&["A=b"]), &forwards).unwrap();
    let invocation = lint.invocation.unwrap();
    assert_eq!(invocation.subcommand, "clippy");
    assert_eq!(invocation.env_vars, list(&["A=b"]));
    assert_eq!(invocation.forward_ports, Vec::<String>::new());
}

#[test]
fn plans_without_a_build() {
    assert_eq!(
        plan(&Commands::Toolchain { args: list(&["list"]) }, &list(&["A=1"]), &list(&["1"])),
        Ok(Plan {
            invocation: None,
            passthrough: Some(list(&["list"])),
            request: ArtifactRequest::All,
            run_args: Vec::new(),
        })
    );
    assert_eq!(
        plan(&Commands::Clean, &[], &[]),
        Ok(Plan {
            invocation: None,
            passthrough: None,
            request: ArtifactRequest::All,
            run_args: Vec::new(),
        })
    );
}

#[test]
fn plain_run() {
    assert_eq!(
        plan_run(&list(&["--release", "--", "--port", "80"])),
        Ok(RunRequest {
            build_args: list(&["--release"]),
            bin: None,
            example: None,
            run_args: list(&["--port", "80"]),
        })
    );
}

#[test]
fn run_of_a_named_binary() {
    assert_eq!(
        plan_run(&list(&["--bin", "server", "--release"])),
        Ok(RunRequest {
            build_args: list(&["--bin", "server", "--release", "--bin", "server"]),
            bin: Some("server".to_string()),
            example: None,
            run_args: Vec::new(),
        })
    );
}

#[test]
fn run_of_a_named_example() {
    assert_eq!(
        plan_run(&list(&["--example=hello", "-v", "--", "x"])),
        Ok(RunRequest {
            build_args: list(&["--example=hello", "-v", "--example", "hello"]),
            bin: None,
            example: Some("hello".to_string()),
            run_args: list(&["x"]),
        })
    );
}

#[test]
fn name_flags_behind_the_separator_are_for_the_program() {
    assert_eq!(
        plan_run(&list(&["--", "--bin", "x", "y"])),
        Ok(RunRequest {
            build_args: Vec::new(),
            bin: None,
            example: None,
            run_args: list(&["--bin", "x", "y"]),
        })
    );
}

#[test]
fn name_flag_without_value_is_refused() {
    assert_eq!(
        plan_run(&list(&["--bin", "--release", "x"])),
        Err(OffloadError::InvalidArgument {
            flag: "bin".to_string(),
            value: "--release".to_string()
        })
    );
    assert_eq!(
        plan_run(&list(&["--example", "-v", "x"])),
        Err(OffloadError::InvalidArgument { flag: "example".to_string(), value: "-v".to_string() })
    );
}

#[test]
fn single_candidate_is_chosen() {
    let artifacts = vec![binary("libdemo.so"), example("hello"), binary("server")];
    assert_eq!(select_run_artifact(&artifacts, &ArtifactRequest::All), Ok(binary("server")));
}

#[test]
fn two_candidates_are_ambiguous() {
    let artifacts = vec![binary("server"), binary("client")];
    let r = select_run_artifact(&artifacts, &ArtifactRequest::All);
    assert_eq!(r, Err(OffloadError::AmbiguousBinaries));
    assert_eq!(
        r.unwrap_err().message(),
        "Multiple binaries found. Use --bin to specify which one to run"
    );
}

#[test]
fn no_candidate_is_its_own_failure() {
    let artifacts = vec![binary("libdemo.so"), example("hello")];
    let r = select_run_artifact(&artifacts, &ArtifactRequest::All);
    assert_eq!(r, Err(OffloadError::NoBinaries));
    assert_eq!(r.unwrap_err().message(), "No binaries found to run");
    assert_eq!(select_run_artifact(&[], &ArtifactRequest::All), Err(OffloadError::NoBinaries));
}

#[test]
fn named_binary_is_chosen() {
    let artifacts = vec![binary("server"), binary("client")];
    assert_eq!(
        select_run_artifact(&artifacts, &ArtifactRequest::Binary("client".to_string())),
        Ok(binary("client"))
    );
    let r = select_run_artifact(&artifacts, &ArtifactRequest::Binary("other".to_string()));
    assert_eq!(r, Err(OffloadError::BinaryNotFound("other".to_string())));
    assert_eq!(r.unwrap_err().message(), "Binary 'other' not found");
}

#[test]
fn named_example_is_chosen_among_examples() {
    let artifacts = vec![binary("hello"), example("hello")];
    assert_eq!(
        select_run_artifact(&artifacts, &ArtifactRequest::Example("hello".to_string())),
        Ok(example("hello"))
    );
    let r = select_run_artifact(&[binary("hello")], &ArtifactRequest::Example("hello".to_string()));
    assert_eq!(r, Err(OffloadError::ExampleNotFound("hello".to_string())));
    assert_eq!(r.unwrap_err().message(), "Example 'hello' not found");
}

#[test]
fn completion_notes() {
    assert_eq!(
        completion_note(&Commands::Build { args: Vec::new() }, 65, 30),
        Some("Build completed and artifacts copied successfully (took 1m 5.030s)".to_string())
    );
    assert_eq!(
        completion_note(&Commands::Run { args: Vec::new() }, 0, 5),
        Some("Run completed successfully (took 0.005s)".to_string())
    );
    assert_eq!(
        completion_note(&Commands::RunLocal { args: Vec::new() }, 1, 0),
        Some("Run completed successfully (took 1.000s)".to_string())
    );
    assert_eq!(
        completion_note(&Commands::RunRemote { args: Vec::new() }, 1, 0),
        Some("Remote run completed successfully (took 1.000s)".to_string())
    );
    assert_eq!(
        completion_note(&Commands::Test { args: Vec::new() }, 1, 0),
        Some("Tests completed successfully (took 1.000s)".to_string())
    );
    assert_eq!(
        completion_note(&Commands::Clippy { args: Vec::new() }, 1, 0),
        Some("Clippy completed successfully (took 1.000s)".to_string())
    );
    assert_eq!(
        completion_note(&Commands::Clean, 1, 0),
        Some("Clean completed successfully (took 1.000s)".to_string())
    );
    assert_eq!(completion_note(&Commands::Toolchain { args: Vec::new() }, 1, 0), None);
}

fn cli(command: Commands) -> Cli {
    Cli {
        command,
        host: Some("h".to_string()),
        port: None,
        target: None,
        env_vars: list(&["A=1"]),
        copy_all_artifacts: false,
        forward_ports: list(&["80"]),
    }
}

fn surroundings() -> Surroundings {
    Surroundings {
        in_project: true,
        env_host: None,
        folder_name: Some("demo".to_string()),
        cargo_version: None,
        toolchain_toml: None,
        toolchain_file: None,
    }
}

#[test]
fn resolving_an_invocation() {
    let flags = cli(Commands::RunRemote { args: list(&["-v"]) });
    let (context, planned) = resolve(&flags, None, "--progress".to_string(), &surroundings()).unwrap();
    assert_eq!(context.host(), "h");
    assert_eq!(context.port(), 22);
    assert_eq!(context.remote_dir(), "/tmp/cargo-offload/demo");
    assert_eq!(Ok(planned), plan(&flags.command, &flags.env_vars, &flags.forward_ports));
}

#[test]
fn context_failures_come_before_argument_failures() {
    let mut flags = cli(Commands::Run { args: list(&["--bin", "-x", "y"]) });
    assert_eq!(
        resolve(&flags, None, String::new(), &surroundings()),
        Err(OffloadError::InvalidArgument { flag: "bin".to_string(), value: "-x".to_string() })
    );
    flags.host = None;
    assert_eq!(
        resolve(&flags, None, String::new(), &surroundings()),
        Err(OffloadError::MissingHost)
    );
    let mut around = surroundings();
    around.in_project = false;
    assert_eq!(resolve(&flags, None, String::new(), &around), Err(OffloadError::NotAProject));
}
