//! Gathering what arrived: each artifact was retrieved or was not. One that
//! was not costs a warning and is left out; the step fails only where
//! nothing is left of what there was, or where the artifact that was asked
//! for by name is the one that is missing.

use vstd::prelude::*;
use crate::artifacts::{
    artifacts, copy_artifact, Artifact, ArtifactKind, ArtifactRequest, ArtifactView, Request,
};
use crate::error::{Fault, OffloadError};
use crate::text::{contains_text, prefixed, push_string, text_eq, texts};

verus! {

/// How the copy of one artifact ended.
#[derive(Debug, Clone, PartialEq, Eq)]
pub struct CopyOutcome {
    pub artifact: Artifact,
    pub copied: bool,
}

/// The mathematical content of a [`CopyOutcome`].
pub ghost struct Outcome {
    pub artifact: ArtifactView,
    pub copied: bool,
}

impl View for CopyOutcome {
    type V = Outcome;

    open spec fn view(&self) -> Outcome {
        Outcome { artifact: self.artifact@, copied: self.copied }
    }
}

/// The views of a list of outcomes, in order.
pub open spec fn outcomes(items: Seq<CopyOutcome>) -> Seq<Outcome> {
    Seq::new(items.len(), |i: int| items[i]@)
}

/// What is left after copies that may have failed one by one.
#[derive(Debug, Clone, PartialEq, Eq)]
pub struct Gathered {
    /// The artifacts that were copied, in the order of the outcomes.
    pub artifacts: Vec<Artifact>,
    /// One warning for each artifact that was not.
    pub warnings: Vec<String>,
}

/// The artifacts that were copied, in order.
pub open spec fn copied_of(all: Seq<Outcome>) -> Seq<ArtifactView>
    decreases all.len(),
{
    if all.len() == 0 {
        Seq::empty()
    } else {
        let front = copied_of(all.drop_last());
        if all.last().copied {
            front.push(all.last().artifact)
        } else {
            front
        }
    }
}

/// The warning for an artifact that was not copied.
pub open spec fn copy_warning(artifact: ArtifactView) -> Seq<char> {
    "Failed to copy artifact: "@ + artifact.path
}

/// The warnings for the artifacts that were not copied, in order.
pub open spec fn warnings_of(all: Seq<Outcome>) -> Seq<Seq<char>>
    decreases all.len(),
{
    if all.len() == 0 {
        Seq::empty()
    } else {
        let front = warnings_of(all.drop_last());
        if all.last().copied {
            front
        } else {
            front.push(copy_warning(all.last().artifact))
        }
    }
}

/// Whether the artifact of the given kind and name is among `list`.
pub open spec fn has_artifact(list: Seq<ArtifactView>, kind: ArtifactKind, name: Seq<char>)
    -> bool {
    exists|i: int|
        0 <= i < list.len() && (#[trigger] list[i]).kind == kind && list[i].name == name
}

/// Whether copies that may have failed one by one still serve the request.
/// Where everything was asked for, one copied artifact is enough, and so is
/// having had nothing to copy: only copies that all failed are a failure.
/// Where one artifact was asked for by name, that one must be among the
/// copied.
pub open spec fn gathering_fault(all: Seq<Outcome>, request: Request) -> Option<Fault> {
    match request {
        Request::All => if copied_of(all).len() == 0 && all.len() > 0 {
            Some(Fault::NothingCopied)
        } else {
            None
        },
        Request::Binary(name) => if has_artifact(copied_of(all), ArtifactKind::Binary, name) {
            None
        } else {
            Some(Fault::BinaryNotCopied(name))
        },
        Request::Example(name) => if has_artifact(copied_of(all), ArtifactKind::Example, name) {
            None
        } else {
            Some(Fault::ExampleNotCopied(name))
        },
    }
}

/// Whether the artifact of the given kind and name is among `list`.
pub fn find_artifact(list: &[Artifact], kind: ArtifactKind, name: &str) -> (r: bool)
    ensures
        r == has_artifact(artifacts(list@), kind, name@),
{
    let mut i: usize = 0;
    while i < list.len()
        invariant
            i <= list.len(),
            forall|j: int|
                0 <= j < i ==> !((#[trigger] artifacts(list@)[j]).kind == kind && artifacts(
                    list@,
                )[j].name == name@),
        decreases list.len() - i,
    {
        let same_kind = match list[i].kind {
            ArtifactKind::Binary => match kind {
                ArtifactKind::Binary => true,
                ArtifactKind::Example => false,
            },
            ArtifactKind::Example => match kind {
                ArtifactKind::Binary => false,
                ArtifactKind::Example => true,
            },
        };
        if same_kind && text_eq(list[i].name.as_str(), name) {
            assert(artifacts(list@)[i as int].kind == kind && artifacts(list@)[i as int].name
                == name@);
            return true;
        }
        i += 1;
    }
    false
}

/// Gathers what was copied when each artifact was copied on its own. A copy
/// that failed costs a warning and leaves its artifact out; the step as a
/// whole fails only where nothing is left, or where the artifact that was
/// asked for by name is the one that is missing.
pub fn gather_copied(results: &[CopyOutcome], request: &ArtifactRequest) -> (r: Result<
    Gathered,
    OffloadError,
>)
    ensures
        match gathering_fault(outcomes(results@), request@) {
            Some(fault) => r matches Err(e) && e@ == fault,
            None => r matches Ok(g) && artifacts(g.artifacts@) == copied_of(outcomes(results@))
                && texts(g.warnings@) == warnings_of(outcomes(results@)),
        },
{
    let ghost all = outcomes(results@);
    let mut copied: Vec<Artifact> = Vec::new();
    let mut warnings: Vec<String> = Vec::new();
    assert(artifacts(copied@) =~= Seq::<ArtifactView>::empty());
    assert(texts(warnings@) =~= Seq::<Seq<char>>::empty());
    let mut i: usize = 0;
    while i < results.len()
        invariant
            i <= results.len(),
            all == outcomes(results@),
            artifacts(copied@) == copied_of(all.take(i as int)),
            texts(warnings@) == warnings_of(all.take(i as int)),
        decreases results.len() - i,
    {
        assert(all.take(i + 1).drop_last() =~= all.take(i as int));
        assert(all.take(i + 1).last() == results@[i as int]@);
        if results[i].copied {
            let ghost before = copied@;
            let one = copy_artifact(&results[i].artifact);
            copied.push(one);
            assert(artifacts(copied@) =~= artifacts(before).push(one@)) by {
                assert forall|j: int| 0 <= j < before.len() implies artifacts(copied@)[j]
                    == artifacts(before)[j] by {
                    assert(copied@[j] == before[j]);
                }
            }
        } else {
            push_string(
                &mut warnings,
                prefixed(
                    "Failed to copy artifact: ",
                    results[i].artifact.path.as_str(),
                ),
            );
        }
        i += 1;
    }
    assert(all.take(results.len() as int) =~= all);
    let fault = match request {
        ArtifactRequest::All => if copied.len() == 0 && results.len() > 0 {
            Some(OffloadError::NothingCopied)
        } else {
            None
        },
        ArtifactRequest::Binary(name) => if find_artifact(
            copied.as_slice(),
            ArtifactKind::Binary,
            name.as_str(),
        ) {
            None
        } else {
            Some(OffloadError::BinaryNotCopied(name.clone()))
        },
        ArtifactRequest::Example(name) => if find_artifact(
            copied.as_slice(),
            ArtifactKind::Example,
            name.as_str(),
        ) {
            None
        } else {
            Some(OffloadError::ExampleNotCopied(name.clone()))
        },
    };
    match fault {
        Some(e) => Err(e),
        None => Ok(Gathered { artifacts: copied, warnings }),
    }
}

/// How the retrieval of each of `found` ended, where `failed` lists the
/// paths of the files that did not arrive or could not be made executable.
pub open spec fn outcomes_for(found: Seq<ArtifactView>, failed: Seq<Seq<char>>) -> Seq<Outcome> {
    Seq::new(
        found.len(),
        |i: int| Outcome { artifact: found[i], copied: !failed.contains(found[i].path) },
    )
}

/// How the retrieval of each of `found` ended, given the paths that failed.
pub fn outcomes_of(found: Vec<Artifact>, failed: &[String]) -> (r: Vec<CopyOutcome>)
    ensures
        outcomes(r@) == outcomes_for(artifacts(found@), texts(failed@)),
{
    let ghost all = artifacts(found@);
    let mut out: Vec<CopyOutcome> = Vec::new();
    let mut i: usize = 0;
    while i < found.len()
        invariant
            i <= found.len(),
            all == artifacts(found@),
            out@.len() == i,
            forall|j: int|
                0 <= j < i ==> (#[trigger] out@[j])@ == outcomes_for(all, texts(failed@))[j],
        decreases found.len() - i,
    {
        let artifact = copy_artifact(&found[i]);
        let copied = !contains_text(failed, artifact.path.as_str());
        out.push(CopyOutcome { artifact, copied });
        i += 1;
    }
    assert(outcomes(out@) =~= outcomes_for(all, texts(failed@)));
    out
}

/// Each outcome counts once: among the copied, or among the warnings.
pub proof fn lemma_gathered_lengths(all: Seq<Outcome>)
    ensures
        copied_of(all).len() + warnings_of(all).len() == all.len(),
    decreases all.len(),
{
    if all.len() > 0 {
        lemma_gathered_lengths(all.drop_last());
    }
}

/// One copied artifact is enough for something to be left.
pub proof fn lemma_copied_nonempty(all: Seq<Outcome>, i: int)
    requires
        0 <= i < all.len(),
        all[i].copied,
    ensures
        copied_of(all).len() > 0,
    decreases all.len(),
{
    if i < all.len() - 1 {
        assert(all.drop_last()[i] == all[i]);
        lemma_copied_nonempty(all.drop_last(), i);
    }
}

/// What is handed on is exactly what was copied: an artifact is among the
/// result if and only if one of its copies succeeded.
pub proof fn law_only_copied_are_handed_on(all: Seq<Outcome>, a: ArtifactView)
    ensures
        copied_of(all).contains(a) <==> exists|i: int|
            0 <= i < all.len() && (#[trigger] all[i]).copied && all[i].artifact == a,
    decreases all.len(),
{
    if all.len() == 0 {
        assert(!copied_of(all).contains(a));
    } else {
        let front = all.drop_last();
        law_only_copied_are_handed_on(front, a);
        let got = copied_of(all);
        if got.contains(a) {
            let k = choose|k: int| 0 <= k < got.len() && got[k] == a;
            if all.last().copied && k == got.len() - 1 {
                assert(all[all.len() - 1].copied && all[all.len() - 1].artifact == a);
            } else {
                assert(copied_of(front)[k] == a);
                assert(copied_of(front).contains(a));
                let i = choose|i: int|
                    0 <= i < front.len() && (#[trigger] front[i]).copied && front[i].artifact
                        == a;
                assert(all[i].copied && all[i].artifact == a);
            }
        }
        if exists|i: int| 0 <= i < all.len() && (#[trigger] all[i]).copied && all[i].artifact == a {
            let i = choose|i: int|
                0 <= i < all.len() && (#[trigger] all[i]).copied && all[i].artifact == a;
            if i == all.len() - 1 {
                assert(got.last() == a);
                assert(got[got.len() - 1] == a);
            } else {
                assert(front[i].copied && front[i].artifact == a);
                assert(copied_of(front).contains(a));
                let k = choose|k: int| 0 <= k < copied_of(front).len() && copied_of(front)[k] == a;
                assert(got[k] == a);
            }
        }
    }
}

/// When one copy succeeds and another fails, the step succeeds with exactly
/// the artifact that was copied, and the one that was not costs exactly one
/// warning.
pub proof fn law_partial_failure(copied: ArtifactView, failed: ArtifactView)
    ensures
        gathering_fault(
            seq![Outcome { artifact: copied, copied: true }, Outcome {
                artifact: failed,
                copied: false,
            }],
            Request::All,
        ) is None,
        copied_of(
            seq![Outcome { artifact: copied, copied: true }, Outcome {
                artifact: failed,
                copied: false,
            }],
        ) == seq![copied],
        warnings_of(
            seq![Outcome { artifact: copied, copied: true }, Outcome {
                artifact: failed,
                copied: false,
            }],
        ) == seq![copy_warning(failed)],
{
    let a = Outcome { artifact: copied, copied: true };
    let b = Outcome { artifact: failed, copied: false };
    let both = seq![a, b];
    let first = both.drop_last();
    assert(first =~= seq![a]);
    assert(first.drop_last() =~= Seq::<Outcome>::empty());
    assert(copied_of(first.drop_last()) =~= Seq::<ArtifactView>::empty());
    assert(warnings_of(first.drop_last()) =~= Seq::<Seq<char>>::empty());
    assert(copied_of(first) =~= seq![copied]);
    assert(warnings_of(first) =~= Seq::<Seq<char>>::empty());
    assert(copied_of(both) =~= seq![copied]);
    assert(warnings_of(both) =~= seq![copy_warning(failed)]);
}

/// However the copies ended, the step succeeds as soon as one artifact was
/// copied and everything was asked for, and then hands on the copied
/// artifacts only.
pub proof fn law_failures_are_warnings(all: Seq<Outcome>)
    requires
        exists|i: int| 0 <= i < all.len() && (#[trigger] all[i]).copied,
    ensures
        gathering_fault(all, Request::All) is None,
        copied_of(all).len() + warnings_of(all).len() == all.len(),
    decreases all.len(),
{
    lemma_gathered_lengths(all);
    let i = choose|i: int| 0 <= i < all.len() && (#[trigger] all[i]).copied;
    lemma_copied_nonempty(all, i);
}

/// When the retrieval of some artifacts fails and that of another succeeds,
/// the step succeeds where everything was asked for: the artifact that
/// arrived is handed on, and none whose retrieval failed is.
pub proof fn law_retrieval_tolerates_failures(
    found: Seq<ArtifactView>,
    failed: Seq<Seq<char>>,
    arrived: int,
)
    requires
        0 <= arrived < found.len(),
        !failed.contains(found[arrived].path),
    ensures
        gathering_fault(outcomes_for(found, failed), Request::All) is None,
        copied_of(outcomes_for(found, failed)).contains(found[arrived]),
        forall|a: ArtifactView|
            failed.contains(a.path) ==> !(#[trigger] copied_of(outcomes_for(found, failed)).contains(
                a,
            )),
        copied_of(outcomes_for(found, failed)).len() + warnings_of(
            outcomes_for(found, failed),
        ).len() == found.len(),
{
    let all = outcomes_for(found, failed);
    assert(all[arrived].copied && all[arrived].artifact == found[arrived]);
    law_failures_are_warnings(all);
    law_only_copied_are_handed_on(all, found[arrived]);
    assert forall|a: ArtifactView| failed.contains(a.path) implies !(#[trigger] copied_of(
        all,
    ).contains(a)) by {
        law_only_copied_are_handed_on(all, a);
        if copied_of(all).contains(a) {
            let i = choose|i: int|
                0 <= i < all.len() && (#[trigger] all[i]).copied && all[i].artifact == a;
            assert(!failed.contains(found[i].path));
        }
    }
}

} // verus!
