use cargo_offload::error::OffloadError;
use cargo_offload::remote::{plain_call, silent_call, Finished};
use cargo_offload::steps::{copy_call, copy_step, fault_of, next_step, MirrorCall, MirrorPurpose, Step};

fn ok() -> Finished {
    Finished::Exited { success: true, errors: String::new() }
}

fn failed(errors: &str) -> Finished {
    Finished::Exited { success: false, errors: errors.to_string() }
}

fn mirror(purpose: MirrorPurpose) -> Step {
    Step::Mirror(MirrorCall {
        program: "rsync".to_string(),
        arguments: vec!["-a".to_string()],
        purpose,
    })
}

fn planned() -> Vec<Step> {
    vec![
        Step::Remote(silent_call("h", 22, "first".to_string())),
        mirror(MirrorPurpose::Source),
        Step::CreateLocal("d".to_string()),
    ]
}

#[test]
fn steps_are_handed_out_in_order() {
    let all = planned();
    assert_eq!(next_step(&all, &[]), Ok(all[0].clone()));
    assert_eq!(next_step(&all, &[ok()]), Ok(all[1].clone()));
    assert_eq!(next_step(&all, &[ok(), ok()]), Ok(all[2].clone()));
    assert_eq!(next_step(&all, &[ok(), ok(), ok()]), Ok(Step::Done));
    assert_eq!(next_step(&all, &[ok(), ok(), ok(), failed("x")]), Ok(Step::Done));
    assert_eq!(next_step(&[], &[]), Ok(Step::Done));
    assert_eq!(next_step(&[], &[failed("x")]), Ok(Step::Done));
}

#[test]
fn first_failure_ends_the_stage() {
    let all = planned();
    assert_eq!(
        next_step(&all, &[failed("a")]),
        Err(OffloadError::RemoteFailed("first".to_string()))
    );
    assert_eq!(
        next_step(&all, &[failed("a"), failed("b"), ok()]),
        Err(OffloadError::RemoteFailed("first".to_string()))
    );
    assert_eq!(next_step(&all, &[ok(), failed("b")]), Err(OffloadError::SyncFailed("b".to_string())));
    assert_eq!(
        next_step(&all, &[ok(), ok(), failed("c")]),
        Err(OffloadError::LocalFailed("c".to_string()))
    );
}

#[test]
fn failure_of_each_kind_of_step() {
    let call = Step::Remote(plain_call("h", 22, "cmd".to_string(), true));
    assert_eq!(fault_of(&call, &ok()), None);
    assert_eq!(fault_of(&call, &failed("e")), Some(OffloadError::RemoteFailed("cmd".to_string())));
    assert_eq!(
        fault_of(&call, &Finished::NotStarted),
        Some(OffloadError::ToolMissing("ssh".to_string()))
    );
    assert_eq!(
        fault_of(&mirror(MirrorPurpose::Source), &failed("e")),
        Some(OffloadError::SyncFailed("e".to_string()))
    );
    assert_eq!(
        fault_of(&mirror(MirrorPurpose::Artifacts), &failed("e")),
        Some(OffloadError::CopyFailed("e".to_string()))
    );
    assert_eq!(
        fault_of(&mirror(MirrorPurpose::Artifacts), &Finished::NotStarted),
        Some(OffloadError::ToolMissing("rsync".to_string()))
    );
    for step in [
        Step::CreateLocal("d".to_string()),
        Step::RemoveLocal("d".to_string()),
        Step::Collect("d".to_string()),
        Step::Done,
    ] {
        assert_eq!(fault_of(&step, &ok()), None);
        assert_eq!(fault_of(&step, &failed("e")), Some(OffloadError::LocalFailed("e".to_string())));
        assert_eq!(
            fault_of(&step, &Finished::NotStarted),
            Some(OffloadError::LocalFailed(String::new()))
        );
    }
}

#[test]
fn copies_of_steps() {
    let call = plain_call("h", 22, "cmd".to_string(), true);
    assert_eq!(copy_call(&call), call);
    for step in planned() {
        assert_eq!(copy_step(&step), step);
    }
    assert_eq!(copy_step(&Step::RemoveLocal("d".to_string())), Step::RemoveLocal("d".to_string()));
    assert_eq!(copy_step(&Step::Collect("d".to_string())), Step::Collect("d".to_string()));
    assert_eq!(copy_step(&Step::Done), Step::Done);
}
