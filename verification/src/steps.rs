//! One thing after the other: the steps that a stage is made of, and which
//! of them comes next once the earlier ones have ended.
//!
//! The caller runs one step, reports how it ended, and asks again. A step
//! that failed ends the stage with its failure: no later step is handed out.

use vstd::prelude::*;
use crate::error::{Fault, OffloadError};
use crate::remote::{Finished, RemoteCall, RemoteCallView};
use crate::text::{copy_texts, texts};

verus! {

/// What a mirror brings across.
#[derive(Debug, Clone, Copy, PartialEq, Eq)]
pub enum MirrorPurpose {
    /// The sources, to the remote machine.
    Source,
    /// The build output, back to this machine.
    Artifacts,
}

/// One run of the mirroring tool.
#[derive(Debug, Clone, PartialEq, Eq)]
pub struct MirrorCall {
    pub program: String,
    pub arguments: Vec<String>,
    pub purpose: MirrorPurpose,
}

/// The mathematical content of a [`MirrorCall`].
pub ghost struct MirrorCallView {
    pub program: Seq<char>,
    pub arguments: Seq<Seq<char>>,
    pub purpose: MirrorPurpose,
}

impl View for MirrorCall {
    type V = MirrorCallView;

    open spec fn view(&self) -> MirrorCallView {
        MirrorCallView {
            program: self.program@,
            arguments: texts(self.arguments@),
            purpose: self.purpose,
        }
    }
}

/// One step of a stage.
#[derive(Debug, Clone, PartialEq, Eq)]
pub enum Step {
    /// Run this call of the remote shell.
    Remote(RemoteCall),
    /// Run this call of the mirroring tool.
    Mirror(MirrorCall),
    /// Create this directory on this machine, with the directories above it.
    CreateLocal(String),
    /// Remove this directory on this machine, if it exists.
    RemoveLocal(String),
    /// Look at what lies in this directory and in its `examples`
    /// subdirectory, make the executables executable, and gather the
    /// artifacts.
    Collect(String),
    /// Nothing is left to do: the stage has succeeded.
    Done,
}

/// The mathematical content of a [`Step`].
pub ghost enum StepView {
    Remote(RemoteCallView),
    Mirror(MirrorCallView),
    CreateLocal(Seq<char>),
    RemoveLocal(Seq<char>),
    Collect(Seq<char>),
    Done,
}

impl View for Step {
    type V = StepView;

    open spec fn view(&self) -> StepView {
        match self {
            Step::Remote(call) => StepView::Remote(call@),
            Step::Mirror(call) => StepView::Mirror(call@),
            Step::CreateLocal(dir) => StepView::CreateLocal(dir@),
            Step::RemoveLocal(dir) => StepView::RemoveLocal(dir@),
            Step::Collect(dir) => StepView::Collect(dir@),
            Step::Done => StepView::Done,
        }
    }
}

/// The views of a list of steps, in order.
pub open spec fn steps(items: Seq<Step>) -> Seq<StepView> {
    Seq::new(items.len(), |i: int| items[i]@)
}

/// The failure of a step that could not be started at all.
pub open spec fn not_started_fault(step: StepView) -> Fault {
    match step {
        StepView::Remote(call) => Fault::ToolMissing(call.program),
        StepView::Mirror(call) => Fault::ToolMissing(call.program),
        _ => Fault::LocalFailed(Seq::empty()),
    }
}

/// The failure of a step that ran and did not succeed; `errors` is what it
/// reported.
pub open spec fn failed_fault(step: StepView, errors: Seq<char>) -> Fault {
    match step {
        StepView::Remote(call) => Fault::RemoteFailed(call.command),
        StepView::Mirror(call) => match call.purpose {
            MirrorPurpose::Source => Fault::SyncFailed(errors),
            MirrorPurpose::Artifacts => Fault::CopyFailed(errors),
        },
        _ => Fault::LocalFailed(errors),
    }
}

/// Whether what was started ran and reported success.
pub open spec fn succeeded(finished: Finished) -> bool {
    finished matches Finished::Exited { success, .. } && success
}

/// The failure that a step ended with, if it did not succeed.
pub open spec fn step_fault(step: StepView, finished: Finished) -> Option<Fault> {
    match finished {
        Finished::NotStarted => Some(not_started_fault(step)),
        Finished::Exited { success, errors } => if success {
            None
        } else {
            Some(failed_fault(step, errors@))
        },
    }
}

/// What comes next in a stage made of `planned`, once the steps at its
/// front have ended as `seen` says, in order: the failure of the first step
/// that failed; else the first step that has not been run; else nothing.
pub open spec fn next_of(planned: Seq<StepView>, seen: Seq<Finished>) -> Result<StepView, Fault>
    decreases planned.len(),
{
    if planned.len() == 0 {
        Ok(StepView::Done)
    } else if seen.len() == 0 {
        Ok(planned[0])
    } else {
        match step_fault(planned[0], seen[0]) {
            Some(fault) => Err(fault),
            None => next_of(planned.drop_first(), seen.drop_first()),
        }
    }
}

/// A copy of a call of the remote shell.
pub fn copy_call(call: &RemoteCall) -> (r: RemoteCall)
    ensures
        r@ == call@,
{
    RemoteCall {
        program: call.program.clone(),
        arguments: copy_texts(call.arguments.as_slice()),
        command: call.command.clone(),
        interactive: call.interactive,
    }
}

/// A copy of a step.
pub fn copy_step(step: &Step) -> (r: Step)
    ensures
        r@ == step@,
{
    match step {
        Step::Remote(call) => Step::Remote(copy_call(call)),
        Step::Mirror(call) => Step::Mirror(
            MirrorCall {
                program: call.program.clone(),
                arguments: copy_texts(call.arguments.as_slice()),
                purpose: call.purpose,
            },
        ),
        Step::CreateLocal(dir) => Step::CreateLocal(dir.clone()),
        Step::RemoveLocal(dir) => Step::RemoveLocal(dir.clone()),
        Step::Collect(dir) => Step::Collect(dir.clone()),
        Step::Done => Step::Done,
    }
}

/// The failure that a step ended with, if it did not succeed.
pub fn fault_of(step: &Step, finished: &Finished) -> (r: Option<OffloadError>)
    ensures
        match step_fault(step@, *finished) {
            Some(fault) => r matches Some(e) && e@ == fault,
            None => r is None,
        },
{
    match finished {
        Finished::NotStarted => Some(
            match step {
                Step::Remote(call) => OffloadError::ToolMissing(call.program.clone()),
                Step::Mirror(call) => OffloadError::ToolMissing(call.program.clone()),
                _ => OffloadError::LocalFailed(String::new()),
            },
        ),
        Finished::Exited { success, errors } => {
            if *success {
                None
            } else {
                Some(
                    match step {
                        Step::Remote(call) => OffloadError::RemoteFailed(call.command.clone()),
                        Step::Mirror(call) => match call.purpose {
                            MirrorPurpose::Source => OffloadError::SyncFailed(errors.clone()),
                            MirrorPurpose::Artifacts => OffloadError::CopyFailed(errors.clone()),
                        },
                        _ => OffloadError::LocalFailed(errors.clone()),
                    },
                )
            }
        },
    }
}

/// What comes next in a stage made of `planned`, once the steps at its
/// front have ended as `seen` says.
pub fn next_step(planned: &[Step], seen: &[Finished]) -> (r: Result<Step, OffloadError>)
    ensures
        match next_of(steps(planned@), seen@) {
            Ok(step) => r matches Ok(found) && found@ == step,
            Err(fault) => r matches Err(e) && e@ == fault,
        },
{
    let ghost all = steps(planned@);
    let mut i: usize = 0;
    assert(all.skip(0) =~= all);
    assert(seen@.skip(0) =~= seen@);
    while i < planned.len()
        invariant
            i <= planned.len(),
            all == steps(planned@),
            i <= seen.len(),
            next_of(all, seen@) == next_of(all.skip(i as int), seen@.skip(i as int)),
        decreases planned.len() - i,
    {
        let ghost rest = all.skip(i as int);
        assert(rest[0] == planned@[i as int]@);
        if i >= seen.len() {
            assert(seen@.skip(i as int) =~= Seq::<Finished>::empty());
            return Ok(copy_step(&planned[i]));
        }
        let ghost left = seen@.skip(i as int);
        assert(left[0] == seen@[i as int]);
        match fault_of(&planned[i], &seen[i]) {
            Some(e) => {
                return Err(e);
            },
            None => {},
        }
        assert(rest.drop_first() =~= all.skip(i + 1));
        assert(left.drop_first() =~= seen@.skip(i + 1));
        i += 1;
    }
    assert(all.skip(planned.len() as int) =~= Seq::<StepView>::empty());
    Ok(Step::Done)
}

/// No step follows a step that failed: whatever is reported of later
/// steps, the stage ends with the failure of the first that failed.
pub proof fn law_failure_stops(planned: Seq<StepView>, seen: Seq<Finished>, i: int)
    requires
        0 <= i < planned.len(),
        i < seen.len(),
        forall|j: int| 0 <= j < i ==> step_fault(planned[j], #[trigger] seen[j]) is None,
        step_fault(planned[i], seen[i]) is Some,
    ensures
        next_of(planned, seen) == Err::<StepView, Fault>(step_fault(planned[i], seen[i])->0),
    decreases i,
{
    if i > 0 {
        let rest = planned.drop_first();
        let left = seen.drop_first();
        assert forall|j: int| 0 <= j < i - 1 implies step_fault(rest[j], #[trigger] left[j])
            is None by {
            assert(left[j] == seen[j + 1]);
        }
        assert(step_fault(planned[0], seen[0]) is None);
        law_failure_stops(rest, left, i - 1);
    }
}

/// The steps are handed out in order: once the first `k` have succeeded
/// and nothing more is reported, the step at `k` comes next.
pub proof fn law_steps_in_order(planned: Seq<StepView>, seen: Seq<Finished>)
    requires
        seen.len() <= planned.len(),
        forall|j: int| 0 <= j < seen.len() ==> step_fault(planned[j], #[trigger] seen[j]) is None,
    ensures
        next_of(planned, seen) == if seen.len() < planned.len() {
            Ok::<StepView, Fault>(planned[seen.len() as int])
        } else {
            Ok::<StepView, Fault>(StepView::Done)
        },
    decreases planned.len(),
{
    if planned.len() > 0 && seen.len() > 0 {
        let rest = planned.drop_first();
        let left = seen.drop_first();
        assert forall|j: int| 0 <= j < left.len() implies step_fault(rest[j], #[trigger] left[j])
            is None by {
            assert(left[j] == seen[j + 1]);
        }
        assert(step_fault(planned[0], seen[0]) is None);
        law_steps_in_order(rest, left);
    }
}

/// In a stage of two steps the first is handed out first, and the second
/// only once the first has succeeded. A first step that failed ends the
/// stage with its failure, whatever is reported after it; so does a second
/// step that failed; and after two successes nothing is left.
pub proof fn law_two_steps(
    first: StepView,
    second: StepView,
    a: Finished,
    b: Finished,
    later: Seq<Finished>,
)
    ensures
        next_of(seq![first, second], Seq::empty()) == Ok::<StepView, Fault>(first),
        !succeeded(a) ==> next_of(seq![first, second], seq![a] + later) is Err,
        !succeeded(a) ==> next_of(seq![first, second], seq![a] + later) == Err::<
            StepView,
            Fault,
        >(step_fault(first, a)->0),
        succeeded(a) ==> next_of(seq![first, second], seq![a]) == Ok::<StepView, Fault>(second),
        succeeded(a) && !succeeded(b) ==> next_of(seq![first, second], seq![a, b] + later)
            == Err::<StepView, Fault>(step_fault(second, b)->0),
        succeeded(a) && succeeded(b) ==> next_of(seq![first, second], seq![a, b] + later)
            == Ok::<StepView, Fault>(StepView::Done),
{
    let planned = seq![first, second];
    let rest = planned.drop_first();
    assert(rest =~= seq![second]);
    assert(rest.drop_first() =~= Seq::<StepView>::empty());
    assert((seq![a] + later)[0] == a);
    assert(seq![a].drop_first() =~= Seq::<Finished>::empty());
    assert((seq![a, b] + later)[0] == a);
    assert((seq![a, b] + later).drop_first()[0] == b);
    assert(next_of(rest.drop_first(), (seq![a, b] + later).drop_first().drop_first()) == Ok::<
        StepView,
        Fault,
    >(StepView::Done));
    assert(next_of(rest, seq![a].drop_first()) == Ok::<StepView, Fault>(second));
    let left = (seq![a, b] + later).drop_first();
    assert(left.len() > 0 && left[0] == b);
    assert(rest[0] == second);
    assert(next_of(rest, left) == match step_fault(second, b) {
        Some(fault) => Err::<StepView, Fault>(fault),
        None => next_of(rest.drop_first(), left.drop_first()),
    });
}

} // verus!
