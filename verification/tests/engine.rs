use std::collections::HashMap;

use redis_utils::TxError;
use redis_utils::converters::json_get_from_raw;
use redis_utils::converters::json_set;
use redis_utils::engine::TxAction;
use redis_utils::engine::TxEvent;
use redis_utils::engine::TxState;
use redis_utils::engine::next_action;
use redis_utils::engine::step;
use redis_utils::engine::step_bounded;
use redis_utils::engine::RetryPolicy;
use redis_utils::engine::WatchSet;
use redis_utils::store::fresh_atomic_pipeline;

fn apply_set_ops(store: &mut HashMap<String, String>, pipe: &redis::Pipeline) {
    for one_cmd in pipe.cmd_iter() {
        let args: Vec<Vec<u8>> = one_cmd
            .args_iter()
            .map(|a| match a {
                redis::Arg::Simple(bytes) => bytes.to_vec(),
                _ => Vec::new(),
            })
            .collect();
        if args.len() == 3 && args[0] == b"SET" {
            store.insert(
                String::from_utf8(args[1].clone()).unwrap(),
                String::from_utf8(args[2].clone()).unwrap(),
            );
        }
    }
}

/// Drives the engine against an in-memory store whose body increments the
/// "counter" key. `contend_at` injects a concurrent write of `99` right
/// before the submission of the given (1-based) attempt, emulating another
/// client that violates the optimistic lock once.
fn run_counter_transaction(
    store: &mut HashMap<String, String>,
    contend_at: Option<u32>,
) -> (TxState<&'static str>, u32, u32) {
    let mut state: TxState<&'static str> = TxState::Watching;
    let mut body_runs: u32 = 0;
    let mut unwatch_calls: u32 = 0;
    let mut attempt: u32 = 0;
    let mut watched: Option<String> = None;
    let mut pending: Option<redis::Pipeline> = None;
    loop {
        match next_action(&state) {
            TxAction::IssueWatch => {
                attempt += 1;
                watched = store.get("counter").cloned();
                state = step(state, TxEvent::WatchOk);
            }
            TxAction::RunBody => {
                body_runs += 1;
                let raw = store.get("counter").cloned();
                let value = json_get_from_raw(raw).unwrap();
                let next = value.as_i64().unwrap() + 1;
                let mut pipe = fresh_atomic_pipeline();
                json_set(&mut pipe, "counter", &serde_json::Value::from(next)).unwrap();
                pending = Some(pipe);
                state = step(state, TxEvent::BodyProceed);
            }
            TxAction::SubmitBatch => {
                if contend_at == Some(attempt) {
                    store.insert("counter".to_string(), "99".to_string());
                }
                if store.get("counter").cloned() == watched {
                    apply_set_ops(store, pending.as_ref().unwrap());
                    state = step(state, TxEvent::SubmitCommitted(redis::Value::Okay));
                } else {
                    state = step(state, TxEvent::SubmitRejected);
                }
            }
            TxAction::IssueUnwatch => {
                unwatch_calls += 1;
                state = step(state, TxEvent::UnwatchOk);
            }
            TxAction::Finished => break,
        }
    }
    (state, body_runs, unwatch_calls)
}

#[test]
fn counter_increment_commits_on_first_attempt() {
    let mut store: HashMap<String, String> = HashMap::new();
    store.insert("counter".to_string(), "5".to_string());
    let (state, body_runs, unwatch_calls) = run_counter_transaction(&mut store, None);
    assert!(matches!(state, TxState::Done(Ok(redis::Value::Okay))));
    assert_eq!(body_runs, 1);
    assert_eq!(unwatch_calls, 1);
    assert_eq!(store.get("counter").unwrap(), "6");
}

#[test]
fn contended_counter_retries_and_commits_fresh_value() {
    let mut store: HashMap<String, String> = HashMap::new();
    store.insert("counter".to_string(), "5".to_string());
    let (state, body_runs, _) = run_counter_transaction(&mut store, Some(1));
    assert!(matches!(state, TxState::Done(Ok(redis::Value::Okay))));
    // the body ran once against 5, then again against the concurrent 99
    assert_eq!(body_runs, 2);
    assert_eq!(store.get("counter").unwrap(), "100");
}

#[test]
fn abort_returns_exact_payload_and_leaves_key_unwatched() {
    let mut store: HashMap<String, String> = HashMap::new();
    store.insert("counter".to_string(), "5".to_string());

    let mut state: TxState<&'static str> = TxState::Watching;
    assert_eq!(next_action(&state), TxAction::IssueWatch);
    state = step(state, TxEvent::WatchOk);
    assert_eq!(next_action(&state), TxAction::RunBody);
    state = step(state, TxEvent::BodyAbort("invalid-state"));
    // the abort goes through an explicit unwatch before any outcome
    assert_eq!(next_action(&state), TxAction::IssueUnwatch);
    state = step(state, TxEvent::UnwatchOk);
    assert_eq!(next_action(&state), TxAction::Finished);
    match state {
        TxState::Done(Err(TxError::Abort(payload))) => assert_eq!(payload, "invalid-state"),
        _ => panic!("an abort must surface as the abort outcome"),
    }
    assert_eq!(store.get("counter").unwrap(), "5");
}

#[test]
fn repeated_aborts_always_yield_aborted_never_completed() {
    for run in 0..5 {
        let payload = format!("abort-{run}");
        let mut state: TxState<String> = TxState::Watching;
        state = step(state, TxEvent::WatchOk);
        state = step(state, TxEvent::BodyAbort(payload.clone()));
        assert_eq!(next_action(&state), TxAction::IssueUnwatch);
        state = step(state, TxEvent::UnwatchOk);
        match state {
            TxState::Done(Err(TxError::Abort(p))) => assert_eq!(p, payload),
            TxState::Done(Ok(_)) => panic!("an abort must never complete"),
            _ => panic!("an abort must end the transaction"),
        }
    }
}

#[test]
fn watch_failure_is_fatal_without_retry() {
    let err = redis::RedisError::from((redis::ErrorKind::UnexpectedReturnType, "boom"));
    let state: TxState<()> = step(TxState::Watching, TxEvent::WatchFailed(err));
    assert_eq!(next_action(&state), TxAction::Finished);
    assert!(matches!(state, TxState::Done(Err(TxError::DbError(_)))));
}

#[test]
fn body_store_error_ends_run_without_unwatch() {
    let err = redis::RedisError::from((redis::ErrorKind::UnexpectedReturnType, "boom"));
    let state: TxState<()> = step(TxState::RunningBody, TxEvent::BodyDbError(err));
    // terminal at once: no unwatch round trip is requested
    assert_eq!(next_action(&state), TxAction::Finished);
    assert!(matches!(state, TxState::Done(Err(TxError::DbError(_)))));
}

#[test]
fn body_serialization_error_unwatches_then_fails() {
    let bad = serde_json::from_str::<serde_json::Value>("{").unwrap_err();
    let mut state: TxState<()> = step(TxState::RunningBody, TxEvent::BodySerialization(bad));
    assert_eq!(next_action(&state), TxAction::IssueUnwatch);
    state = step(state, TxEvent::UnwatchOk);
    assert!(matches!(state, TxState::Done(Err(TxError::Serialization(_)))));
}

#[test]
fn unwatch_failure_after_commit_surfaces_store_error() {
    let mut state: TxState<()> = step(
        TxState::Submitting,
        TxEvent::SubmitCommitted(redis::Value::Okay),
    );
    assert_eq!(next_action(&state), TxAction::IssueUnwatch);
    let err = redis::RedisError::from((redis::ErrorKind::UnexpectedReturnType, "boom"));
    state = step(state, TxEvent::UnwatchFailed(err));
    assert!(matches!(state, TxState::Done(Err(TxError::DbError(_)))));
}

#[test]
fn rejected_submission_goes_back_to_watching() {
    let state: TxState<()> = step(TxState::Submitting, TxEvent::SubmitRejected);
    assert_eq!(next_action(&state), TxAction::IssueWatch);
}

#[test]
fn unbounded_policy_retries_for_as_long_as_contention_lasts() {
    let mut policy = RetryPolicy::unbounded();
    for _ in 0..100 {
        let state: TxState<()> =
            step_bounded(TxState::Submitting, TxEvent::SubmitRejected, &mut policy);
        assert_eq!(next_action(&state), TxAction::IssueWatch);
    }
}

#[test]
fn capped_policy_fails_once_the_budget_is_spent() {
    let mut policy = RetryPolicy::capped(1);
    // the first rejection still retries
    let state: TxState<()> =
        step_bounded(TxState::Submitting, TxEvent::SubmitRejected, &mut policy);
    assert_eq!(next_action(&state), TxAction::IssueWatch);
    // the second spends nothing and ends the run as a store failure
    let state: TxState<()> =
        step_bounded(TxState::Submitting, TxEvent::SubmitRejected, &mut policy);
    assert_eq!(next_action(&state), TxAction::Finished);
    assert!(matches!(state, TxState::Done(Err(TxError::DbError(_)))));
}

#[test]
fn capped_policy_spends_nothing_on_other_replies() {
    let mut policy = RetryPolicy::capped(0);
    let state: TxState<()> = step_bounded(TxState::Watching, TxEvent::WatchOk, &mut policy);
    assert_eq!(next_action(&state), TxAction::RunBody);
    // the budget covers rejected submissions only: a commit still goes through
    let state: TxState<()> = step_bounded(
        TxState::Submitting,
        TxEvent::SubmitCommitted(redis::Value::Okay),
        &mut policy,
    );
    assert_eq!(next_action(&state), TxAction::IssueUnwatch);
}

#[test]
fn watch_set_refuses_no_keys_and_keeps_order() {
    assert!(WatchSet::new(Vec::new()).is_none());
    let keys = vec!["counter".to_string(), "limit".to_string()];
    let watch = WatchSet::new(keys.clone()).unwrap();
    assert_eq!(watch.keys(), &keys);
}

#[test]
fn mismatched_reply_leaves_engine_in_place() {
    let state: TxState<()> = step(TxState::Watching, TxEvent::UnwatchOk);
    assert_eq!(next_action(&state), TxAction::IssueWatch);
    let state: TxState<()> = step(TxState::RunningBody, TxEvent::WatchOk);
    assert_eq!(next_action(&state), TxAction::RunBody);
}
