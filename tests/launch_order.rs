use recoverable_thread::{Action, FaultPayload, Launch, LaunchKind, Outcome, Stage};

/// Drives one launch, feeding each guarded call the outcome given for it,
/// and returns the actions in the order they were handed out.
fn drive(kind: LaunchKind, work: Outcome, handler: Outcome, finalizer: Outcome) -> Vec<String> {
    let (mut launch, first) = Launch::start(kind);
    let mut outcomes = vec![Some(work), Some(handler), Some(finalizer)];
    let mut action = first;
    let mut seen = Vec::new();
    loop {
        let slot = match &action {
            Action::RunWork => {
                seen.push("work".to_string());
                0
            }
            Action::RunHandler(text) => {
                seen.push(format!("handler({})", text));
                1
            }
            Action::RunFinalizer => {
                seen.push("finalizer".to_string());
                2
            }
            Action::Finish => {
                seen.push("finish".to_string());
                break;
            }
        };
        let outcome = outcomes[slot].take().expect("each call runs at most once");
        action = launch.advance(outcome);
    }
    seen
}

fn fault(text: &'static str) -> Outcome {
    Err(FaultPayload::Literal(text))
}

fn count(seen: &[String], name: &str) -> usize {
    seen.iter().filter(|s| s.starts_with(name)).count()
}

#[test]
fn start_runs_the_work_first() {
    let (launch, first) = Launch::start(LaunchKind::Catch);
    assert!(matches!(first, Action::RunWork));
    assert_eq!(launch.stage, Stage::RunningWork);
    assert_eq!(launch.kind, LaunchKind::Catch);
}

#[test]
fn normal_work_skips_handler_and_runs_finalizer_once() {
    let seen = drive(LaunchKind::CatchFinally, Ok(()), Ok(()), Ok(()));
    assert_eq!(seen, vec!["work", "finalizer", "finish"]);
    assert_eq!(count(&seen, "handler"), 0);
    assert_eq!(count(&seen, "finalizer"), 1);
}

#[test]
fn literal_fault_reaches_handler_as_boom() {
    let seen = drive(LaunchKind::Catch, fault("boom"), Ok(()), Ok(()));
    assert_eq!(seen, vec!["work", "handler(boom)", "finish"]);
}

#[test]
fn owned_fault_reaches_handler_with_formatted_text() {
    let work = Err(FaultPayload::Owned(format!("value {}", 42)));
    let seen = drive(LaunchKind::Catch, work, Ok(()), Ok(()));
    assert_eq!(seen, vec!["work", "handler(value 42)", "finish"]);
}

#[test]
fn faulting_handler_still_gets_finalizer_once() {
    let seen = drive(LaunchKind::CatchFinally, fault("work"), fault("handler"), Ok(()));
    assert_eq!(seen, vec!["work", "handler(work)", "finalizer", "finish"]);
    assert_eq!(count(&seen, "finalizer"), 1);
}

#[test]
fn finalizer_runs_once_last_in_all_four_combinations() {
    let cases: Vec<(Outcome, Outcome)> = vec![
        (Ok(()), Ok(())),
        (Ok(()), fault("handler")),
        (fault("work"), Ok(())),
        (fault("work"), fault("handler")),
    ];
    for (work, handler) in cases {
        let seen = drive(LaunchKind::CatchFinally, work, handler, fault("finalizer"));
        assert_eq!(count(&seen, "finalizer"), 1);
        assert_eq!(seen[seen.len() - 2], "finalizer");
        assert_eq!(seen[seen.len() - 1], "finish");
    }
}

#[test]
fn catch_runs_handler_only_on_fault() {
    let ok = drive(LaunchKind::Catch, Ok(()), Ok(()), Ok(()));
    assert_eq!(ok, vec!["work", "finish"]);
    let failed = drive(LaunchKind::Catch, fault("bad"), fault("worse"), Ok(()));
    assert_eq!(failed, vec!["work", "handler(bad)", "finish"]);
}

#[test]
fn non_string_fault_reaches_handler_as_generic_text() {
    let seen = drive(LaunchKind::Catch, Err(FaultPayload::Other), Ok(()), Ok(()));
    assert_eq!(seen, vec!["work", "handler(Any { .. })", "finish"]);
}

#[test]
fn recover_finishes_whether_or_not_work_faults() {
    assert_eq!(drive(LaunchKind::Recover, Ok(()), Ok(()), Ok(())), vec!["work", "finish"]);
    assert_eq!(drive(LaunchKind::Recover, fault("boom"), Ok(()), Ok(())), vec!["work", "finish"]);
}

#[test]
fn finished_launch_stays_done() {
    let (mut launch, _) = Launch::start(LaunchKind::Recover);
    assert!(matches!(launch.advance(Ok(())), Action::Finish));
    assert_eq!(launch.stage, Stage::Done);
    assert!(matches!(launch.advance(fault("late")), Action::Finish));
    assert_eq!(launch.stage, Stage::Done);
}
