use sqlx_utils::{CallbackRun, ConcurrentRun, SequentialRun, TryRun, TxStep};

#[test]
fn with_transaction_commits_a_successful_callback() {
    let mut run: CallbackRun<u32, &str> = CallbackRun::new();
    assert_eq!(run.step(), TxStep::Begin);
    assert_eq!(run.on_begin(Ok(())), TxStep::Run(0));
    assert_eq!(run.on_action(Ok(42)), TxStep::Commit);
    assert_eq!(run.on_commit(Ok(())), TxStep::Finish);
    assert_eq!(run.into_result(), Ok(42));
}

#[test]
fn with_transaction_rolls_back_a_failed_callback() {
    let mut run: CallbackRun<u32, &str> = CallbackRun::new();
    run.on_begin(Ok(()));
    assert_eq!(run.on_action(Err("no")), TxStep::Rollback);
    assert_eq!(run.on_rollback(Ok(())), TxStep::Finish);
    assert_eq!(run.into_result(), Err("no"));
}

#[test]
fn with_transaction_reports_a_failed_rollback() {
    let mut run: CallbackRun<u32, &str> = CallbackRun::new();
    run.on_begin(Ok(()));
    run.on_action(Err("no"));
    run.on_rollback(Err("rollback"));
    assert_eq!(run.into_result(), Err("rollback"));
}

#[test]
fn with_transaction_reports_a_failed_commit_and_begin() {
    let mut run: CallbackRun<u32, &str> = CallbackRun::new();
    run.on_begin(Ok(()));
    run.on_action(Ok(1));
    run.on_commit(Err("commit"));
    assert_eq!(run.into_result(), Err("commit"));

    let mut run: CallbackRun<u32, &str> = CallbackRun::new();
    assert_eq!(run.on_begin(Err("begin")), TxStep::Finish);
    assert_eq!(run.into_result(), Err("begin"));
}

/// Drives a sequential run; `outcomes[i]` is what action `i` returns.
fn drive_sequential(outcomes: Vec<Result<u32, String>>) -> (Result<Vec<u32>, String>, Vec<TxStep>) {
    let mut run = SequentialRun::new(outcomes.len());
    let mut steps = vec![run.step()];
    let mut actions = outcomes.into_iter();
    let mut step = run.on_begin(Ok(()));
    loop {
        steps.push(step);
        step = match step {
            TxStep::Run(_) => run.on_action(actions.next().unwrap()),
            TxStep::Commit => run.on_commit(Ok(())),
            TxStep::Rollback => run.on_rollback(Ok(())),
            TxStep::Finish => break,
            other => panic!("unexpected step {other:?}"),
        };
    }
    (run.into_result(), steps)
}

#[test]
fn transaction_sequential_stops_at_the_first_failure() {
    let (result, steps) =
        drive_sequential(vec![Ok(1), Err("a2 failed".to_string()), Ok(3)]);
    assert_eq!(result, Err("a2 failed".to_string()));
    assert_eq!(
        steps,
        vec![TxStep::Begin, TxStep::Run(0), TxStep::Run(1), TxStep::Rollback, TxStep::Finish]
    );
    // a3 never ran and nothing was committed.
    assert!(!steps.contains(&TxStep::Run(2)));
    assert!(!steps.contains(&TxStep::Commit));
}

#[test]
fn transaction_sequential_commits_once_after_all_actions() {
    let (result, steps) = drive_sequential(vec![Ok(1), Ok(2), Ok(3)]);
    assert_eq!(result, Ok(vec![1, 2, 3]));
    assert_eq!(
        steps,
        vec![
            TxStep::Begin,
            TxStep::Run(0),
            TxStep::Run(1),
            TxStep::Run(2),
            TxStep::Commit,
            TxStep::Finish
        ]
    );
}

#[test]
fn transaction_sequential_without_actions_commits_nothing() {
    let (result, steps) = drive_sequential(Vec::new());
    assert_eq!(result, Ok(Vec::new()));
    assert_eq!(steps, vec![TxStep::Begin, TxStep::Commit, TxStep::Finish]);
}

#[test]
fn transaction_sequential_ignores_the_rollback_outcome() {
    let mut run: SequentialRun<u32, &str> = SequentialRun::new(2);
    run.on_begin(Ok(()));
    assert_eq!(run.on_action(Err("first")), TxStep::Rollback);
    run.on_rollback(Err("rollback"));
    assert_eq!(run.into_result(), Err("first"));
}

#[test]
fn transaction_concurrent_commits_when_all_succeed() {
    let mut run: ConcurrentRun<u32, &str> = ConcurrentRun::new();
    assert_eq!(run.on_begin(Ok(())), TxStep::Launch);
    assert_eq!(run.on_joined(Ok(vec![1, 2])), TxStep::Reclaim);
    assert_eq!(run.on_reclaimed(Ok(())), TxStep::Commit);
    assert_eq!(run.on_commit(Ok(())), TxStep::Finish);
    assert_eq!(run.into_result(), Ok(vec![1, 2]));
}

#[test]
fn transaction_concurrent_rolls_back_when_one_fails() {
    let mut run: ConcurrentRun<u32, &str> = ConcurrentRun::new();
    run.on_begin(Ok(()));
    run.on_joined(Err("action"));
    assert_eq!(run.on_reclaimed(Ok(())), TxStep::Rollback);
    assert_eq!(run.on_rollback(Ok(())), TxStep::Finish);
    assert_eq!(run.into_result(), Err("action"));
}

#[test]
fn transaction_concurrent_fails_while_the_handle_is_shared() {
    let mut run: ConcurrentRun<u32, &str> = ConcurrentRun::new();
    run.on_begin(Ok(()));
    run.on_joined(Ok(vec![1]));
    assert_eq!(run.on_reclaimed(Err("still shared")), TxStep::Finish);
    assert_eq!(run.into_result(), Err("still shared"));
}

#[test]
fn transaction_concurrent_reports_a_failed_rollback() {
    let mut run: ConcurrentRun<u32, &str> = ConcurrentRun::new();
    run.on_begin(Ok(()));
    run.on_joined(Err("action"));
    run.on_reclaimed(Ok(()));
    run.on_rollback(Err("rollback"));
    assert_eq!(run.into_result(), Err("rollback"));
}

/// Drives a collect-all run; `outcomes[i]` is what action `i` returns.
fn drive_try(outcomes: Vec<Result<u32, String>>) -> (Result<Vec<u32>, Vec<String>>, Vec<TxStep>) {
    let mut run = TryRun::new(outcomes.len());
    let mut steps = vec![run.step()];
    let mut actions = outcomes.into_iter();
    let mut step = run.on_begin(Ok(()));
    loop {
        steps.push(step);
        step = match step {
            TxStep::Run(_) => run.on_action(actions.next().unwrap()),
            TxStep::Commit => run.on_commit(Ok(())),
            TxStep::Rollback => run.on_rollback(Ok(())),
            TxStep::Finish => break,
            other => panic!("unexpected step {other:?}"),
        };
    }
    (run.into_result(), steps)
}

#[test]
fn try_transaction_collects_every_error() {
    let (result, steps) =
        drive_try(vec![Err("e1".to_string()), Ok(2), Err("e3".to_string())]);
    assert_eq!(result, Err(vec!["e1".to_string(), "e3".to_string()]));
    assert_eq!(
        steps,
        vec![
            TxStep::Begin,
            TxStep::Run(0),
            TxStep::Run(1),
            TxStep::Run(2),
            TxStep::Rollback,
            TxStep::Finish
        ]
    );
    assert!(!steps.contains(&TxStep::Commit));
}

#[test]
fn try_transaction_commits_when_nothing_failed() {
    let (result, steps) = drive_try(vec![Ok(1), Ok(2)]);
    assert_eq!(result, Ok(vec![1, 2]));
    assert!(steps.contains(&TxStep::Commit));
}

#[test]
fn try_transaction_reports_store_failures_alone() {
    let mut run: TryRun<u32, &str> = TryRun::new(2);
    assert_eq!(run.on_begin(Err("begin")), TxStep::Finish);
    assert_eq!(run.into_result(), Err(vec!["begin"]));

    let mut run: TryRun<u32, &str> = TryRun::new(1);
    run.on_begin(Ok(()));
    assert_eq!(run.on_action(Ok(5)), TxStep::Commit);
    run.on_commit(Err("commit"));
    assert_eq!(run.into_result(), Err(vec!["commit"]));
}
