//! What the build left behind: the mirrored output directory, the files in
//! it that are made executable, and the artifacts that are handed on.

use vstd::prelude::*;
use vstd::string::StringExecFns;
use crate::error::{Fault, OffloadError};
use crate::text::{
    chars_of, contains_text, opt_text, prefixed, push_char, push_string, text_eq, texts,
};

verus! {

// What lies in the local mirror

/// What an entry of a directory is.
#[derive(Debug, Clone, Copy, PartialEq, Eq)]
pub enum EntryKind {
    /// A regular file.
    File,
    /// A directory.
    Directory,
    /// Anything else.
    Other,
}

/// One entry of a directory.
#[derive(Debug, Clone, PartialEq, Eq)]
pub struct DirEntry {
    pub name: String,
    pub kind: EntryKind,
    /// Whether the entry may be executed.
    pub executable: bool,
}

/// The mathematical content of a [`DirEntry`].
pub ghost struct Entry {
    pub name: Seq<char>,
    pub kind: EntryKind,
    pub executable: bool,
}

impl View for DirEntry {
    type V = Entry;

    open spec fn view(&self) -> Entry {
        Entry { name: self.name@, kind: self.kind, executable: self.executable }
    }
}

/// The views of a list of entries, in order.
pub open spec fn entries(items: Seq<DirEntry>) -> Seq<Entry> {
    Seq::new(items.len(), |i: int| items[i]@)
}

/// The local mirror of the build output: the entries directly under the
/// profile directory, and those directly under its `examples` subdirectory
/// (none where that does not exist).
#[derive(Debug, Clone, PartialEq, Eq)]
pub struct Snapshot {
    pub root: Vec<DirEntry>,
    pub examples: Vec<DirEntry>,
}

// What is handed on

/// Whether an artifact is a binary or an example.
#[derive(Debug, Clone, Copy, PartialEq, Eq)]
pub enum ArtifactKind {
    Binary,
    Example,
}

/// A retrieved file.
#[derive(Debug, Clone, PartialEq, Eq)]
pub struct Artifact {
    pub kind: ArtifactKind,
    /// The file's name.
    pub name: String,
    /// Where the file lies on this machine.
    pub path: String,
}

/// The mathematical content of an [`Artifact`].
pub ghost struct ArtifactView {
    pub kind: ArtifactKind,
    pub name: Seq<char>,
    pub path: Seq<char>,
}

impl View for Artifact {
    type V = ArtifactView;

    open spec fn view(&self) -> ArtifactView {
        ArtifactView { kind: self.kind, name: self.name@, path: self.path@ }
    }
}

/// The views of a list of artifacts, in order.
pub open spec fn artifacts(items: Seq<Artifact>) -> Seq<ArtifactView> {
    Seq::new(items.len(), |i: int| items[i]@)
}

/// A copy of an artifact.
pub fn copy_artifact(a: &Artifact) -> (r: Artifact)
    ensures
        r@ == a@,
{
    Artifact { kind: a.kind, name: a.name.clone(), path: a.path.clone() }
}

/// Which artifacts are asked for: all that the build produced, one binary,
/// or one example.
#[derive(Debug, Clone, PartialEq, Eq)]
pub enum ArtifactRequest {
    All,
    Binary(String),
    Example(String),
}

/// The mathematical content of an [`ArtifactRequest`].
pub ghost enum Request {
    All,
    Binary(Seq<char>),
    Example(Seq<char>),
}

impl View for ArtifactRequest {
    type V = Request;

    open spec fn view(&self) -> Request {
        match self {
            ArtifactRequest::All => Request::All,
            ArtifactRequest::Binary(name) => Request::Binary(name@),
            ArtifactRequest::Example(name) => Request::Example(name@),
        }
    }
}

/// The request that the two name flags make: a binary is asked for before
/// an example, and everything without either.
pub open spec fn request_for(bin: Option<Seq<char>>, example: Option<Seq<char>>) -> Request {
    match bin {
        Some(name) => Request::Binary(name),
        None => match example {
            Some(name) => Request::Example(name),
            None => Request::All,
        },
    }
}

/// The request that the two name flags make when at most one is given; two
/// names at once are refused.
pub open spec fn exclusive_request(bin: Option<Seq<char>>, example: Option<Seq<char>>) -> Result<
    Request,
    Fault,
> {
    if bin is Some && example is Some {
        Err(Fault::BothNamed { bin: bin->0, example: example->0 })
    } else {
        Ok(request_for(bin, example))
    }
}

impl ArtifactRequest {
    /// The request that the two name flags make. A binary and an example
    /// cannot both be asked for.
    pub fn new(bin: Option<&String>, example: Option<&String>) -> (r: Result<
        ArtifactRequest,
        OffloadError,
    >)
        ensures
            match exclusive_request(opt_text(bin), opt_text(example)) {
                Ok(request) => r matches Ok(found) && found@ == request,
                Err(fault) => r matches Err(e) && e@ == fault,
            },
    {
        match bin {
            Some(name) => match example {
                Some(other) => Err(
                    OffloadError::BothNamed { bin: name.clone(), example: other.clone() },
                ),
                None => Ok(ArtifactRequest::Binary(name.clone())),
            },
            None => match example {
                Some(name) => Ok(ArtifactRequest::Example(name.clone())),
                None => Ok(ArtifactRequest::All),
            },
        }
    }

    /// The request that the two names make where the binary's goes first.
    pub fn preferring_binary(bin: Option<&String>, example: Option<&String>) -> (r:
        ArtifactRequest)
        ensures
            r@ == request_for(opt_text(bin), opt_text(example)),
    {
        match bin {
            Some(name) => ArtifactRequest::Binary(name.clone()),
            None => match example {
                Some(name) => ArtifactRequest::Example(name.clone()),
                None => ArtifactRequest::All,
            },
        }
    }

    /// The name flags that make this request: the binary's, then the
    /// example's.
    pub fn names(&self) -> (r: (Option<&String>, Option<&String>))
        ensures
            exclusive_request(opt_text(r.0), opt_text(r.1)) == Ok::<Request, Fault>(self@),
            r.0 is None || r.1 is None,
    {
        match self {
            ArtifactRequest::All => (None, None),
            ArtifactRequest::Binary(name) => (Some(name), None),
            ArtifactRequest::Example(name) => (None, Some(name)),
        }
    }
}

// Where the build output lies

/// The build profile: `release` if `--release` is among the arguments,
/// `debug` otherwise.
pub open spec fn profile_of(args: Seq<Seq<char>>) -> Seq<char> {
    if args.contains("--release"@) {
        "release"@
    } else {
        "debug"@
    }
}

/// The directory of an artifact kind below the profile directory.
pub open spec fn kind_dir(profile_dir: Seq<char>, kind: ArtifactKind) -> Seq<char> {
    match kind {
        ArtifactKind::Binary => profile_dir + seq!['/'],
        ArtifactKind::Example => profile_dir + "/examples/"@,
    }
}

/// The artifact of the given kind and name below the profile directory.
pub open spec fn artifact_at(profile_dir: Seq<char>, kind: ArtifactKind, name: Seq<char>)
    -> ArtifactView {
    ArtifactView { kind, name, path: kind_dir(profile_dir, kind) + name }
}

/// The build profile that the arguments ask for.
pub fn profile(args: &[String]) -> (r: String)
    ensures
        r@ == profile_of(texts(args@)),
{
    if contains_text(args, "--release") {
        String::from_str("release")
    } else {
        String::from_str("debug")
    }
}

/// The directory of an artifact kind below the profile directory, with the
/// slash that ends it.
fn kind_directory(profile_dir: &str, kind: ArtifactKind) -> (r: String)
    ensures
        r@ == kind_dir(profile_dir@, kind),
{
    let mut out = String::from_str(profile_dir);
    match kind {
        ArtifactKind::Binary => {
            push_char(&mut out, '/');
        },
        ArtifactKind::Example => {
            out.append("/examples/");
        },
    }
    out
}

/// The artifact of the given kind and name below the profile directory.
pub fn artifact(profile_dir: &str, kind: ArtifactKind, name: &str) -> (r: Artifact)
    ensures
        r@ == artifact_at(profile_dir@, kind, name@),
{
    let mut path = kind_directory(profile_dir, kind);
    path.append(name);
    Artifact { kind, name: String::from_str(name), path }
}

// The permission step

/// The paths of the regular files among the entries of a directory, in
/// order: the files that are made executable.
pub open spec fn file_paths(listing: Seq<Entry>, dir: Seq<char>) -> Seq<Seq<char>>
    decreases listing.len(),
{
    if listing.len() == 0 {
        Seq::empty()
    } else {
        let front = file_paths(listing.drop_last(), dir);
        if listing.last().kind == EntryKind::File {
            front.push(dir + listing.last().name)
        } else {
            front
        }
    }
}

/// An entry after the permission step: a regular file is executable,
/// anything else is as before.
pub open spec fn marked_entry(entry: Entry) -> Entry {
    if entry.kind == EntryKind::File {
        Entry { executable: true, ..entry }
    } else {
        entry
    }
}

/// A directory after the permission step.
pub open spec fn marked(listing: Seq<Entry>) -> Seq<Entry> {
    Seq::new(listing.len(), |i: int| marked_entry(listing[i]))
}

/// Appends to `out` the paths of the regular files among the entries of the
/// directory `dir`, which ends in a slash.
pub fn collect_files(out: &mut Vec<String>, listing: &[DirEntry], dir: &str)
    ensures
        texts(final(out)@) == texts(old(out)@) + file_paths(entries(listing@), dir@),
{
    let ghost all = entries(listing@);
    let ghost start = texts(out@);
    let mut i: usize = 0;
    assert(file_paths(all.take(0), dir@) =~= Seq::<Seq<char>>::empty());
    while i < listing.len()
        invariant
            i <= listing.len(),
            all == entries(listing@),
            texts(out@) == start + file_paths(all.take(i as int), dir@),
        decreases listing.len() - i,
    {
        assert(all.take(i + 1).drop_last() =~= all.take(i as int));
        assert(all.take(i + 1).last() == listing@[i as int]@);
        let entry = &listing[i];
        match entry.kind {
            EntryKind::File => {
                push_string(out, prefixed(dir, entry.name.as_str()));
            },
            _ => {},
        }
        i += 1;
    }
    assert(all.take(listing.len() as int) =~= all);
}

/// The files to make executable after the copy: every regular file directly
/// under the profile directory, then every regular file under `examples`.
pub fn executables(snapshot: &Snapshot, profile_dir: &str) -> (r: Vec<String>)
    ensures
        texts(r@) == file_paths(
            entries(snapshot.root@),
            kind_dir(profile_dir@, ArtifactKind::Binary),
        ) + file_paths(
            entries(snapshot.examples@),
            kind_dir(profile_dir@, ArtifactKind::Example),
        ),
{
    let mut out: Vec<String> = Vec::new();
    assert(texts(out@) =~= Seq::<Seq<char>>::empty());
    let root = kind_directory(profile_dir, ArtifactKind::Binary);
    collect_files(&mut out, snapshot.root.as_slice(), root.as_str());
    let examples = kind_directory(profile_dir, ArtifactKind::Example);
    collect_files(&mut out, snapshot.examples.as_slice(), examples.as_str());
    out
}

/// Records the permission step in a listing: every regular file is
/// executable afterwards, everything else is untouched.
pub fn mark_executable(listing: &mut Vec<DirEntry>)
    ensures
        entries(final(listing)@) == marked(entries(old(listing)@)),
{
    let ghost before = entries(listing@);
    let mut i: usize = 0;
    while i < listing.len()
        invariant
            i <= listing.len(),
            listing@.len() == before.len(),
            forall|j: int| 0 <= j < i ==> (#[trigger] listing@[j])@ == marked_entry(before[j]),
            forall|j: int| i <= j < listing.len() ==> (#[trigger] listing@[j])@ == before[j],
        decreases listing.len() - i,
    {
        match listing[i].kind {
            EntryKind::File => {
                let entry = DirEntry {
                    name: listing[i].name.clone(),
                    kind: EntryKind::File,
                    executable: true,
                };
                listing.set(i, entry);
            },
            _ => {},
        }
        i += 1;
    }
    assert(entries(listing@) =~= marked(before));
}

// The artifacts after the mirror

/// Whether a name marks a library: it begins with `lib`.
pub open spec fn is_library_name(name: Seq<char>) -> bool {
    name.len() >= 3 && name[0] == 'l' && name[1] == 'i' && name[2] == 'b'
}

/// Whether an entry is handed on as an artifact of the given kind: a
/// regular file, and among the binaries one that is no library.
pub open spec fn is_artifact(entry: Entry, kind: ArtifactKind) -> bool {
    entry.kind == EntryKind::File && (kind == ArtifactKind::Example || !is_library_name(
        entry.name,
    ))
}

/// The artifacts of one kind among the entries of a directory, in the
/// order of the entries.
pub open spec fn collected(listing: Seq<Entry>, profile_dir: Seq<char>, kind: ArtifactKind)
    -> Seq<ArtifactView>
    decreases listing.len(),
{
    if listing.len() == 0 {
        Seq::empty()
    } else {
        let front = collected(listing.drop_last(), profile_dir, kind);
        if is_artifact(listing.last(), kind) {
            front.push(artifact_at(profile_dir, kind, listing.last().name))
        } else {
            front
        }
    }
}

/// Whether a directory has an entry of the given name.
pub open spec fn has_entry(listing: Seq<Entry>, name: Seq<char>) -> bool {
    exists|i: int| 0 <= i < listing.len() && (#[trigger] listing[i]).name == name
}

/// What is handed on after the copy. A binary or an example asked for by
/// name must be there, and is then the only artifact; a binary is asked for
/// before an example. With no name, every regular file directly under the
/// profile directory that is no library counts, then every regular file
/// under `examples`.
pub open spec fn resolved(
    root: Seq<Entry>,
    examples: Seq<Entry>,
    profile_dir: Seq<char>,
    bin: Option<Seq<char>>,
    example: Option<Seq<char>>,
) -> Result<Seq<ArtifactView>, Fault> {
    match bin {
        Some(name) => if has_entry(root, name) {
            Ok(seq![artifact_at(profile_dir, ArtifactKind::Binary, name)])
        } else {
            Err(Fault::BinaryNotCopied(name))
        },
        None => match example {
            Some(name) => if has_entry(examples, name) {
                Ok(seq![artifact_at(profile_dir, ArtifactKind::Example, name)])
            } else {
                Err(Fault::ExampleNotCopied(name))
            },
            None => Ok(
                collected(root, profile_dir, ArtifactKind::Binary) + collected(
                    examples,
                    profile_dir,
                    ArtifactKind::Example,
                ),
            ),
        },
    }
}

/// Whether a name marks a library.
pub fn library_name(name: &str) -> (r: bool)
    ensures
        r == is_library_name(name@),
{
    let chars = chars_of(name);
    chars.len() >= 3 && chars[0] == 'l' && chars[1] == 'i' && chars[2] == 'b'
}

/// Whether a directory has an entry of the given name.
pub fn find_entry(listing: &[DirEntry], name: &str) -> (r: bool)
    ensures
        r == has_entry(entries(listing@), name@),
{
    let mut i: usize = 0;
    while i < listing.len()
        invariant
            i <= listing.len(),
            forall|j: int| 0 <= j < i ==> (#[trigger] entries(listing@)[j]).name != name@,
        decreases listing.len() - i,
    {
        if text_eq(listing[i].name.as_str(), name) {
            assert(entries(listing@)[i as int].name == name@);
            return true;
        }
        i += 1;
    }
    false
}

/// Appends to `out` the artifacts of one kind among the entries of a
/// directory.
pub fn collect(out: &mut Vec<Artifact>, listing: &[DirEntry], profile_dir: &str, kind: ArtifactKind)
    ensures
        artifacts(final(out)@) == artifacts(old(out)@) + collected(
            entries(listing@),
            profile_dir@,
            kind,
        ),
{
    let ghost all = entries(listing@);
    let ghost start = artifacts(out@);
    let mut i: usize = 0;
    assert(collected(all.take(0), profile_dir@, kind) =~= Seq::<ArtifactView>::empty());
    while i < listing.len()
        invariant
            i <= listing.len(),
            all == entries(listing@),
            artifacts(out@) == start + collected(all.take(i as int), profile_dir@, kind),
        decreases listing.len() - i,
    {
        assert(all.take(i + 1).drop_last() =~= all.take(i as int));
        assert(all.take(i + 1).last() == listing@[i as int]@);
        let entry = &listing[i];
        let counts = match entry.kind {
            EntryKind::File => match kind {
                ArtifactKind::Example => true,
                ArtifactKind::Binary => !library_name(entry.name.as_str()),
            },
            _ => false,
        };
        if counts {
            let ghost before = out@;
            let found = artifact(profile_dir, kind, entry.name.as_str());
            out.push(found);
            assert(artifacts(out@) =~= artifacts(before).push(found@)) by {
                assert forall|j: int| 0 <= j < before.len() implies artifacts(out@)[j]
                    == artifacts(before)[j] by {
                    assert(out@[j] == before[j]);
                }
            }
        }
        i += 1;
    }
    assert(all.take(listing.len() as int) =~= all);
}

/// What is handed on after the copy, given what lies in the local mirror.
pub fn resolve(
    snapshot: &Snapshot,
    profile_dir: &str,
    specific_bin: Option<&String>,
    specific_example: Option<&String>,
) -> (r: Result<Vec<Artifact>, OffloadError>)
    ensures
        match resolved(
            entries(snapshot.root@),
            entries(snapshot.examples@),
            profile_dir@,
            opt_text(specific_bin),
            opt_text(specific_example),
        ) {
            Ok(found) => r matches Ok(list) && artifacts(list@) == found,
            Err(fault) => r matches Err(e) && e@ == fault,
        },
{
    let mut out: Vec<Artifact> = Vec::new();
    assert(artifacts(out@) =~= Seq::<ArtifactView>::empty());
    if let Some(name) = specific_bin {
        if find_entry(snapshot.root.as_slice(), name.as_str()) {
            let found = artifact(profile_dir, ArtifactKind::Binary, name.as_str());
            out.push(found);
            assert(artifacts(out@) =~= seq![found@]);
            Ok(out)
        } else {
            Err(OffloadError::BinaryNotCopied(name.clone()))
        }
    } else if let Some(name) = specific_example {
        if find_entry(snapshot.examples.as_slice(), name.as_str()) {
            let found = artifact(profile_dir, ArtifactKind::Example, name.as_str());
            out.push(found);
            assert(artifacts(out@) =~= seq![found@]);
            Ok(out)
        } else {
            Err(OffloadError::ExampleNotCopied(name.clone()))
        }
    } else {
        collect(&mut out, snapshot.root.as_slice(), profile_dir, ArtifactKind::Binary);
        collect(&mut out, snapshot.examples.as_slice(), profile_dir, ArtifactKind::Example);
        Ok(out)
    }
}

// Laws

/// The permission step changes nothing when it is repeated, and neither
/// the files that are made executable nor the artifacts handed on depend on
/// whether it has run.
pub proof fn law_marking_idempotent(listing: Seq<Entry>, dir: Seq<char>, kind: ArtifactKind)
    ensures
        marked(marked(listing)) == marked(listing),
        file_paths(marked(listing), dir) == file_paths(listing, dir),
        collected(marked(listing), dir, kind) == collected(listing, dir, kind),
        forall|i: int|
            0 <= i < listing.len() && listing[i].kind == EntryKind::File ==> (#[trigger] marked(
                listing,
            )[i]).executable,
    decreases listing.len(),
{
    assert(marked(marked(listing)) =~= marked(listing));
    if listing.len() > 0 {
        law_marking_idempotent(listing.drop_last(), dir, kind);
        assert(marked(listing).drop_last() =~= marked(listing.drop_last()));
    }
}

} // verus!
