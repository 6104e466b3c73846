use door_access::access_loop::{
    run_session, start_session, step, AuthError, AuthOutcome, Decision, DenyReason, EvalPhase,
    LoopAction, LoopConfig, LoopInput, LoopState, SessionError, SessionItem, Step,
    DEFAULT_DURATION_SENTINEL, SESSION_RETRY_DELAY_SECS,
};
use door_access::actuator::{UnlockCommand, UnlockOutcome};
use door_access::allow_list::AllowList;

fn cfg() -> LoopConfig {
    LoopConfig { door_id: 42 }
}

fn enabled_list() -> AllowList {
    let mut list = AllowList::new();
    list.insert_key("a".repeat(63), None, None).unwrap();
    list
}

fn present(key: &str, auth: Result<AuthOutcome, AuthError>) -> SessionItem {
    SessionItem::Present {
        key: key.to_string(),
        auth,
        unlock: UnlockOutcome::Unlocked,
    }
}

#[test]
fn session_creation_success_starts_awaiting() {
    let r = step(&cfg(), LoopState::Idle, LoopInput::SessionResult(Ok(())));
    assert_eq!(r.state, LoopState::SessionActive);
    assert_eq!(r.action, LoopAction::AwaitEvent);
    assert_eq!(r.decision, None);
}

#[test]
fn session_creation_failure_retries_after_delay() {
    let r = step(
        &cfg(),
        LoopState::Idle,
        LoopInput::SessionResult(Err(SessionError::CreationFailed)),
    );
    assert_eq!(r.state, LoopState::Idle);
    assert_eq!(r.action, LoopAction::RetryAfterDelay);
    assert_eq!(SESSION_RETRY_DELAY_SECS, 5);
}

#[test]
fn stream_end_recreates_session_without_delay() {
    let r = step(&cfg(), LoopState::SessionActive, LoopInput::StreamItem(None));
    assert_eq!(r.state, LoopState::Idle);
    assert_eq!(r.action, LoopAction::CreateSession);
}

#[test]
fn store_error_fails_closed_without_authentication() {
    let st = LoopState::Evaluating {
        key: "k".to_string(),
        phase: EvalPhase::AwaitingLookup,
    };
    let r = step(
        &cfg(),
        st,
        LoopInput::LookupResult(Err(door_access::allow_list::StoreError::Unavailable)),
    );
    assert_eq!(r.state, LoopState::SessionActive);
    assert_eq!(r.action, LoopAction::AwaitEvent);
    assert_eq!(
        r.decision,
        Some(Decision::Denied(DenyReason::KeyUnknownOrDisabled))
    );
}

#[test]
fn approved_key_unlocks_configured_door() {
    let st = LoopState::Evaluating {
        key: "k".to_string(),
        phase: EvalPhase::AwaitingAuth,
    };
    let r = step(&cfg(), st, LoopInput::AuthResult(Ok(AuthOutcome::Approved)));
    assert_eq!(r.decision, Some(Decision::Authorized));
    assert_eq!(
        r.action,
        LoopAction::Unlock(UnlockCommand {
            door_id: 42,
            duration_override: Some(DEFAULT_DURATION_SENTINEL),
        })
    );
}

#[test]
fn declined_or_error_no_unlock() {
    for (auth, reason) in [
        (Ok(AuthOutcome::Declined), DenyReason::AuthenticationDeclined),
        (Err(AuthError::Transport), DenyReason::AuthenticationError),
    ] {
        let st = LoopState::Evaluating {
            key: "k".to_string(),
            phase: EvalPhase::AwaitingAuth,
        };
        let r = step(&cfg(), st, LoopInput::AuthResult(auth));
        assert_eq!(r.state, LoopState::SessionActive);
        assert_eq!(r.action, LoopAction::AwaitEvent);
        assert_eq!(r.decision, Some(Decision::Denied(reason)));
    }
}

#[test]
fn unlock_outcome_never_changes_loop_state() {
    for outcome in [
        UnlockOutcome::Unlocked,
        UnlockOutcome::Refused("door jammed".to_string()),
        UnlockOutcome::TransportError,
    ] {
        let st = LoopState::Evaluating {
            key: "k".to_string(),
            phase: EvalPhase::AwaitingUnlock,
        };
        let r = step(&cfg(), st, LoopInput::UnlockResult(outcome));
        assert_eq!(r.state, LoopState::SessionActive);
        assert_eq!(r.action, LoopAction::AwaitEvent);
        assert_eq!(r.decision, None);
    }
}

#[test]
fn cancel_stops_from_every_state() {
    let states = [
        LoopState::Idle,
        LoopState::SessionActive,
        LoopState::Evaluating {
            key: "k".to_string(),
            phase: EvalPhase::AwaitingLookup,
        },
    ];
    for st in states {
        let r = step(&cfg(), st, LoopInput::Cancel);
        assert_eq!(
            r,
            Step {
                state: LoopState::Stopped,
                action: LoopAction::Stop,
                decision: None,
            }
        );
    }
}

#[test]
fn three_failures_then_success() {
    let attempts = vec![
        Err(SessionError::CreationFailed),
        Err(SessionError::CreationFailed),
        Err(SessionError::CreationFailed),
        Ok(()),
    ];
    let t = start_session(&cfg(), attempts);
    assert_eq!(t.delays, 3);
    assert_eq!(t.state, LoopState::SessionActive);
}

#[test]
fn all_creation_failures_stay_idle() {
    let attempts = vec![
        Err(SessionError::CreationFailed),
        Err(SessionError::CreationFailed),
    ];
    let t = start_session(&cfg(), attempts);
    assert_eq!(t.delays, 2);
    assert_eq!(t.state, LoopState::Idle);
}

#[test]
fn malformed_event_skipped_session_continues() {
    let list = enabled_list();
    let key = "a".repeat(63);
    let items = vec![
        present(&key, Ok(AuthOutcome::Approved)),
        SessionItem::Malformed,
        present(&key, Ok(AuthOutcome::Approved)),
    ];
    let t = run_session(&cfg(), &list, items);
    assert_eq!(t.auth_attempts, 2);
    assert_eq!(t.records.len(), 2);
    assert_eq!(t.unlock_calls, 2);
    assert_eq!(t.state, LoopState::Idle);
    assert_eq!(t.action, LoopAction::CreateSession);
}

#[test]
fn unknown_key_never_unlocks() {
    let list = enabled_list();
    let items = vec![
        present(&"b".repeat(63), Ok(AuthOutcome::Approved)),
        present("stranger", Ok(AuthOutcome::Approved)),
    ];
    let t = run_session(&cfg(), &list, items);
    assert_eq!(t.auth_attempts, 0);
    assert_eq!(t.unlock_calls, 0);
    for r in &t.records {
        assert_eq!(r.decision, Decision::Denied(DenyReason::KeyUnknownOrDisabled));
        assert_eq!(r.unlock, None);
    }
}

#[test]
fn allow_list_scenario() {
    let mut list = AllowList::new();
    let key_a = format!("npub1{}", "a".repeat(58));
    let key_b = format!("npub1{}", "b".repeat(58));
    list.insert_key(key_a.clone(), None, None).unwrap();
    list.insert_key(key_b.clone(), None, None).unwrap();
    // Disable B.
    let keys = list.get_all_keys();
    let id_b = keys.iter().find(|k| k.npub == key_b).unwrap().id;
    list.toggle_key_status(id_b);

    // Presenting A with an approving authenticator: exactly one unlock
    // of the configured door.
    let t = run_session(&cfg(), &list, vec![present(&key_a, Ok(AuthOutcome::Approved))]);
    assert_eq!(t.unlock_calls, 1);
    assert_eq!(t.records.len(), 1);
    assert_eq!(t.records[0].decision, Decision::Authorized);
    assert_eq!(
        t.records[0].unlock,
        Some(UnlockCommand {
            door_id: 42,
            duration_override: Some(-1),
        })
    );

    // Presenting B: no unlock, denied as unknown-or-disabled, and the
    // authenticator is never called.
    let t = run_session(&cfg(), &list, vec![present(&key_b, Ok(AuthOutcome::Approved))]);
    assert_eq!(t.unlock_calls, 0);
    assert_eq!(t.auth_attempts, 0);
    assert_eq!(
        t.records[0].decision,
        Decision::Denied(DenyReason::KeyUnknownOrDisabled)
    );

    // Presenting A with a declining authenticator: no unlock.
    let t = run_session(&cfg(), &list, vec![present(&key_a, Ok(AuthOutcome::Declined))]);
    assert_eq!(t.unlock_calls, 0);
    assert_eq!(t.auth_attempts, 1);
    assert_eq!(
        t.records[0].decision,
        Decision::Denied(DenyReason::AuthenticationDeclined)
    );
    assert_eq!(t.records[0].unlock, None);
}

#[test]
fn at_most_one_unlock_in_flight() {
    let list = enabled_list();
    let key = "a".repeat(63);
    let items = vec![
        present(&key, Ok(AuthOutcome::Approved)),
        present(&key, Ok(AuthOutcome::Approved)),
        present(&key, Err(AuthError::Transport)),
        present(&key, Ok(AuthOutcome::Approved)),
    ];
    let t = run_session(&cfg(), &list, items);
    assert_eq!(t.unlock_calls, 3);
    assert_eq!(t.max_in_flight, 1);
}

#[test]
fn refused_unlock_is_recorded_not_retried() {
    let list = enabled_list();
    let key = "a".repeat(63);
    let items = vec![SessionItem::Present {
        key: key.clone(),
        auth: Ok(AuthOutcome::Approved),
        unlock: UnlockOutcome::Refused("hardware refused".to_string()),
    }];
    let t = run_session(&cfg(), &list, items);
    // One dispatch, no retry, and the loop is back on the stream.
    assert_eq!(t.unlock_calls, 1);
    assert_eq!(t.state, LoopState::Idle);
    assert_eq!(t.action, LoopAction::CreateSession);
}
