use cargo_offload::artifacts::{
    artifact, executables, library_name, mark_executable, profile, resolve, Artifact,
    ArtifactKind, ArtifactRequest, DirEntry, EntryKind, Snapshot,
};
use cargo_offload::gather::{gather_copied, outcomes_of, CopyOutcome, Gathered};
use cargo_offload::error::OffloadError;

fn list(items: &[&str]) -> Vec<String> {
    items.iter().map(|s| s.to_string()).collect()
}

fn entry(name: &str, kind: EntryKind) -> DirEntry {
    DirEntry { name: name.to_string(), kind, executable: false }
}

fn snapshot() -> Snapshot {
    Snapshot {
        root: vec![
            entry("server", EntryKind::File),
            entry("libdemo.rlib", EntryKind::File),
            entry("examples", EntryKind::Directory),
            entry("client", EntryKind::File),
            entry("link", EntryKind::Other),
        ],
        examples: vec![entry("hello", EntryKind::File), entry("libx", EntryKind::File), entry("d", EntryKind::Directory)],
    }
}

fn binary(name: &str) -> Artifact {
    Artifact { kind: ArtifactKind::Binary, name: name.to_string(), path: format!("p/{}", name) }
}

fn example(name: &str) -> Artifact {
    Artifact {
        kind: ArtifactKind::Example,
        name: name.to_string(),
        path: format!("p/examples/{}", name),
    }
}

#[test]
fn release_flag_selects_release_profile() {
    assert_eq!(profile(&list(&["--release"])), "release");
    assert_eq!(profile(&list(&["-v", "--release", "--bin", "x"])), "release");
}

#[test]
fn debug_is_the_default_profile() {
    assert_eq!(profile(&[]), "debug");
    assert_eq!(profile(&list(&["--releases", "release", "-r"])), "debug");
}

#[test]
fn library_names() {
    assert!(library_name("libdemo.rlib"));
    assert!(library_name("lib"));
    assert!(!library_name("li"));
    assert!(!library_name("alib"));
    assert!(!library_name(""));
}

#[test]
fn artifact_paths() {
    assert_eq!(artifact("p", ArtifactKind::Binary, "server"), binary("server"));
    assert_eq!(artifact("p", ArtifactKind::Example, "hello"), example("hello"));
}

#[test]
fn all_executables_are_resolved() {
    assert_eq!(
        resolve(&snapshot(), "p", None, None),
        Ok(vec![binary("server"), binary("client"), example("hello"), example("libx")])
    );
}

#[test]
fn nothing_built_is_no_failure() {
    let empty = Snapshot { root: Vec::new(), examples: Vec::new() };
    assert_eq!(resolve(&empty, "p", None, None), Ok(Vec::new()));
}

#[test]
fn named_binary_is_the_only_result() {
    let name = "client".to_string();
    assert_eq!(resolve(&snapshot(), "p", Some(&name), None), Ok(vec![binary("client")]));
}

#[test]
fn named_binary_must_exist() {
    let name = "hello".to_string();
    let r = resolve(&snapshot(), "p", Some(&name), None);
    assert_eq!(r, Err(OffloadError::BinaryNotCopied("hello".to_string())));
    assert_eq!(r.unwrap_err().message(), "Binary 'hello' not found after copy");
}

#[test]
fn named_example_is_looked_up_under_examples() {
    let name = "hello".to_string();
    assert_eq!(resolve(&snapshot(), "p", None, Some(&name)), Ok(vec![example("hello")]));
    let missing = "server".to_string();
    let r = resolve(&snapshot(), "p", None, Some(&missing));
    assert_eq!(r, Err(OffloadError::ExampleNotCopied("server".to_string())));
    assert_eq!(r.unwrap_err().message(), "Example 'server' not found after copy");
}

#[test]
fn binary_is_asked_for_before_example() {
    let bin = "server".to_string();
    let ex = "hello".to_string();
    assert_eq!(resolve(&snapshot(), "p", Some(&bin), Some(&ex)), Ok(vec![binary("server")]));
}

#[test]
fn regular_files_are_made_executable() {
    assert_eq!(
        executables(&snapshot(), "t/debug"),
        list(&[
            "t/debug/server",
            "t/debug/libdemo.rlib",
            "t/debug/client",
            "t/debug/examples/hello",
            "t/debug/examples/libx"
        ])
    );
}

#[test]
fn marking_is_idempotent() {
    let mut listing = snapshot().root;
    mark_executable(&mut listing);
    let once = listing.clone();
    assert_eq!(
        once.iter().map(|e| e.executable).collect::<Vec<bool>>(),
        vec![true, true, false, true, false]
    );
    mark_executable(&mut listing);
    assert_eq!(listing, once);
    let before = Snapshot { root: snapshot().root, examples: Vec::new() };
    let after = Snapshot { root: once, examples: Vec::new() };
    assert_eq!(resolve(&before, "p", None, None), resolve(&after, "p", None, None));
    assert_eq!(executables(&before, "p"), executables(&after, "p"));
}

#[test]
fn request_from_flags() {
    let bin = "b".to_string();
    let ex = "e".to_string();
    assert_eq!(ArtifactRequest::new(None, None), Ok(ArtifactRequest::All));
    assert_eq!(ArtifactRequest::new(Some(&bin), None), Ok(ArtifactRequest::Binary("b".to_string())));
    assert_eq!(ArtifactRequest::new(None, Some(&ex)), Ok(ArtifactRequest::Example("e".to_string())));
}

#[test]
fn request_for_two_names_is_refused() {
    let bin = "b".to_string();
    let ex = "e".to_string();
    let r = ArtifactRequest::new(Some(&bin), Some(&ex));
    assert_eq!(r, Err(OffloadError::BothNamed { bin: "b".to_string(), example: "e".to_string() }));
    assert_eq!(r.unwrap_err().message(), "Cannot use both --bin b and --example e");
    assert_eq!(
        ArtifactRequest::preferring_binary(Some(&bin), Some(&ex)),
        ArtifactRequest::Binary("b".to_string())
    );
    assert_eq!(ArtifactRequest::preferring_binary(None, Some(&ex)), ArtifactRequest::Example(ex));
    assert_eq!(ArtifactRequest::preferring_binary(None, None), ArtifactRequest::All);
}

#[test]
fn names_of_a_request() {
    let bin = "b".to_string();
    assert_eq!(ArtifactRequest::All.names(), (None, None));
    assert_eq!(ArtifactRequest::Binary(bin.clone()).names(), (Some(&bin), None));
    assert_eq!(ArtifactRequest::Example(bin.clone()).names(), (None, Some(&bin)));
}

#[test]
fn partial_failure_is_a_warning() {
    let outcomes = vec![
        CopyOutcome { artifact: binary("a"), copied: true },
        CopyOutcome { artifact: binary("b"), copied: false },
    ];
    assert_eq!(
        gather_copied(&outcomes, &ArtifactRequest::All),
        Ok(Gathered {
            artifacts: vec![binary("a")],
            warnings: list(&["Failed to copy artifact: p/b"]),
        })
    );
}

#[test]
fn total_failure_is_an_error() {
    let outcomes = vec![
        CopyOutcome { artifact: binary("a"), copied: false },
        CopyOutcome { artifact: example("b"), copied: false },
    ];
    let r = gather_copied(&outcomes, &ArtifactRequest::All);
    assert_eq!(r, Err(OffloadError::NothingCopied));
    assert_eq!(r.unwrap_err().message(), "No artifacts were copied");
}

#[test]
fn nothing_to_copy_is_no_failure() {
    assert_eq!(
        gather_copied(&[], &ArtifactRequest::All),
        Ok(Gathered { artifacts: Vec::new(), warnings: Vec::new() })
    );
    assert_eq!(
        gather_copied(&[], &ArtifactRequest::Binary("a".to_string())),
        Err(OffloadError::BinaryNotCopied("a".to_string()))
    );
}

#[test]
fn outcomes_from_failed_paths() {
    let found = vec![binary("a"), binary("b"), example("a")];
    assert_eq!(
        outcomes_of(found, &list(&["p/b", "p/zzz"])),
        vec![
            CopyOutcome { artifact: binary("a"), copied: true },
            CopyOutcome { artifact: binary("b"), copied: false },
            CopyOutcome { artifact: example("a"), copied: true },
        ]
    );
    assert_eq!(outcomes_of(Vec::new(), &list(&["p/b"])), Vec::new());
}

#[test]
fn missing_named_artifact_is_an_error() {
    let outcomes = vec![
        CopyOutcome { artifact: binary("a"), copied: true },
        CopyOutcome { artifact: binary("b"), copied: false },
        CopyOutcome { artifact: example("a"), copied: false },
    ];
    assert_eq!(
        gather_copied(&outcomes, &ArtifactRequest::Binary("b".to_string())),
        Err(OffloadError::BinaryNotCopied("b".to_string()))
    );
    assert_eq!(
        gather_copied(&outcomes, &ArtifactRequest::Example("a".to_string())),
        Err(OffloadError::ExampleNotCopied("a".to_string()))
    );
    assert_eq!(
        gather_copied(&outcomes, &ArtifactRequest::Binary("a".to_string())),
        Ok(Gathered {
            artifacts: vec![binary("a")],
            warnings: list(&["Failed to copy artifact: p/b", "Failed to copy artifact: p/examples/a"]),
        })
    );
}
