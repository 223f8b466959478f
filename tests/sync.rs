use wisp_installer::sync::{checkout_policy, Action, Stage, SyncError, SyncRun};

#[test]
fn run_visits_each_submodule_in_order() {
    let mut run = SyncRun::new(2);
    let mut seen = Vec::new();
    loop {
        let a = run.next_action();
        seen.push(a);
        if a == Action::Finished {
            break;
        }
        assert!(run.record(Ok(())).is_ok());
    }
    assert_eq!(
        seen,
        vec![
            Action::RepairLink(0),
            Action::Initialize(0),
            Action::Update(0),
            Action::RepairLink(1),
            Action::Initialize(1),
            Action::Update(1),
            Action::Finished,
        ]
    );
    assert_eq!(run.index, 2);
    assert_eq!(run.stage, Stage::Declared);
}

#[test]
fn failed_step_aborts_the_run() {
    let mut run = SyncRun::new(3);
    assert!(run.record(Ok(())).is_ok());
    assert_eq!(run.next_action(), Action::Initialize(0));
    let e = SyncError::Initialize { name: "deps/a".to_string(), detail: "x".to_string() };
    let r = run.record(Err(e)).unwrap_err();
    assert_eq!(r.message(), "failed to initialize submodule deps/a: x");
    assert!(run.aborted);
    assert_eq!(run.next_action(), Action::Aborted);
}

#[test]
fn empty_run_finishes_at_once() {
    let run = SyncRun::new(0);
    assert_eq!(run.next_action(), Action::Finished);
}

#[test]
fn checkout_policy_forces_and_prefers_theirs() {
    let p = checkout_policy();
    assert!(p.force && p.use_theirs && p.recreate_missing);
    assert!(p.update_index && p.refresh && p.allow_fetch);
}

#[test]
fn error_messages_name_the_operation_and_subject() {
    let e = SyncError::OpenRepository { detail: "not found".to_string() };
    assert_eq!(e.message(), "failed to open git repo: not found");
    let e = SyncError::ListSubmodules { detail: "bad index".to_string() };
    assert_eq!(e.message(), "failed to find submodules: bad index");
    let e = SyncError::ReadConfig { detail: "denied".to_string() };
    assert_eq!(e.message(), "failed to read the repository configuration: denied");
    let e = SyncError::CreateDir { path: "deps/a".to_string(), detail: "denied".to_string() };
    assert_eq!(e.message(), "failed to create submodule dir deps/a: denied");
    let e = SyncError::WriteGitlink { path: "deps/a/.git".to_string(), detail: "full".to_string() };
    assert_eq!(e.message(), "failed to write .git file deps/a/.git: full");
    let e = SyncError::Initialize { name: "deps/a".to_string(), detail: "x".to_string() };
    assert_eq!(e.message(), "failed to initialize submodule deps/a: x");
    let e = SyncError::Update { name: "deps/a".to_string(), detail: "y".to_string() };
    assert_eq!(e.message(), "failed to update submodule deps/a: y");
}
