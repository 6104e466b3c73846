//! The authorization loop: a self-healing daemon that maintains the
//! handshake/session lifecycle, consumes presentation events, gates each
//! presented identity against the allow list, drives the remote
//! challenge-response exchange, and issues serialized unlock commands.
//!
//! The loop's decisions are a pure transition function from state and
//! input to next state and action; the surrounding process performs the
//! actions (create a session, await an event, query the store,
//! authenticate, unlock, wait out the retry delay) and feeds the results
//! back in as inputs.

use vstd::prelude::*;
use vstd::pervasive::unreached;
use crate::actuator::ActuatorSlot;
use crate::actuator::UnlockCommand;
use crate::actuator::UnlockOutcome;
use crate::allow_list::AllowList;
use crate::allow_list::StoreError;

verus! {

/// Seconds to wait after a failed session creation before trying again:
/// a fixed delay, deliberately without exponential backoff.
pub const SESSION_RETRY_DELAY_SECS: u64 = 5;

/// The duration-override sentinel handed to the actuator client, meaning
/// "use the hardware default duration".
pub const DEFAULT_DURATION_SENTINEL: i32 = -1;

/// Startup configuration of the loop: which door it guards.
#[derive(Clone, Copy)]
pub struct LoopConfig {
    pub door_id: u32,
}

/// A well-formed presentation event: the identity key of the presenter in
/// its canonical string encoding.
pub struct PresentationEvent {
    pub main_key: String,
}

/// Creating a new handshake session failed; transient and retried.
#[derive(Clone, Copy, PartialEq, Eq, Debug)]
pub enum SessionError {
    CreationFailed,
}

/// A single event of the stream could not be decoded or delivered; the
/// session itself is kept.
#[derive(Clone, Copy, PartialEq, Eq, Debug)]
pub enum EventError {
    Malformed,
}

/// The authenticator's transport failed before an answer arrived.
#[derive(Clone, Copy, PartialEq, Eq, Debug)]
pub enum AuthError {
    Transport,
}

/// The authenticator's answer to a challenge-response exchange.
#[derive(Clone, Copy, PartialEq, Eq, Debug)]
pub enum AuthOutcome {
    Approved,
    Declined,
}

/// Why a presentation was denied.
#[derive(Clone, Copy, PartialEq, Eq, Debug)]
pub enum DenyReason {
    /// The key is absent from the allow list, disabled, or the store
    /// could not answer (fail closed).
    KeyUnknownOrDisabled,
    /// The authenticator declined the exchange.
    AuthenticationDeclined,
    /// The authenticator's transport failed (fail closed).
    AuthenticationError,
}

/// The decision the loop reaches for one presentation event.
#[derive(Clone, Copy, PartialEq, Eq, Debug)]
pub enum Decision {
    Authorized,
    Denied(DenyReason),
}

/// Where the loop stands inside the evaluation of one presentation.
#[derive(Clone, Copy, PartialEq, Eq, Debug)]
pub enum EvalPhase {
    AwaitingLookup,
    AwaitingAuth,
    AwaitingUnlock,
}

/// The loop's state. `Idle` is both initial and re-entered after every
/// session end or creation failure; there is no terminal state except
/// external cancellation.
#[derive(PartialEq, Eq, Debug)]
pub enum LoopState {
    Idle,
    SessionActive,
    Evaluating { key: String, phase: EvalPhase },
    Stopped,
}

/// What the surrounding process reports back to the loop.
pub enum LoopInput {
    /// Outcome of a session-creation attempt.
    SessionResult(Result<(), SessionError>),
    /// The next item of the event stream; `None` means the stream ended.
    StreamItem(Option<Result<PresentationEvent, EventError>>),
    /// The raw allow-list row for the presented key: present with its
    /// enabled flag, absent, or a store failure.
    LookupResult(Result<Option<bool>, StoreError>),
    /// The authenticator's answer, or its transport failure.
    AuthResult(Result<AuthOutcome, AuthError>),
    /// What came of the dispatched unlock command; recorded for
    /// observability only.
    UnlockResult(UnlockOutcome),
    /// The external shutdown signal.
    Cancel,
}

/// What the surrounding process must do next.
#[derive(PartialEq, Eq, Debug)]
pub enum LoopAction {
    /// Request a new session now, with no delay.
    CreateSession,
    /// Wait the fixed retry delay, then request a new session.
    RetryAfterDelay,
    /// Await the next item of the event stream.
    AwaitEvent,
    /// Query the allow list for the key under evaluation.
    QueryAllowList,
    /// Run the challenge-response exchange for the key under evaluation.
    Authenticate,
    /// Dispatch this unlock command to the actuator.
    Unlock(UnlockCommand),
    /// Unwind cleanly.
    Stop,
}

/// One transition: the next state, the action owed, and the decision
/// reached by this transition, if it concluded one.
#[derive(PartialEq, Eq, Debug)]
pub struct Step {
    pub state: LoopState,
    pub action: LoopAction,
    pub decision: Option<Decision>,
}

/// Which inputs make sense in which state: the driving process only ever
/// reports the result of the action the loop asked for, and cancellation
/// is observable everywhere.
pub open spec fn accepts(state: LoopState, input: LoopInput) -> bool {
    match input {
        LoopInput::Cancel => true,
        LoopInput::SessionResult(_) => state is Idle,
        LoopInput::StreamItem(_) => state is SessionActive,
        LoopInput::LookupResult(_) => state matches LoopState::Evaluating {
            phase: EvalPhase::AwaitingLookup,
            ..
        },
        LoopInput::AuthResult(_) => state matches LoopState::Evaluating {
            phase: EvalPhase::AwaitingAuth,
            ..
        },
        LoopInput::UnlockResult(_) => state matches LoopState::Evaluating {
            phase: EvalPhase::AwaitingUnlock,
            ..
        },
    }
}

/// The loop's whole transition table.
///
/// Session creation: success begins awaiting events; failure stays `Idle`
/// behind a fixed delay. Stream end discards the session and re-creates
/// one immediately, with no delay. A malformed event is skipped and the
/// session kept. A well-formed presentation is evaluated: a key the
/// allow-list row does not show as enabled — absent, disabled, or store
/// failure — is denied without any authentication call; an enabled key is
/// authenticated, and only an approved answer unlocks, with the configured
/// door and the hardware-default duration. The unlock outcome never
/// changes loop state. Cancellation stops the loop from every state.
pub open spec fn step_spec(cfg: LoopConfig, state: LoopState, input: LoopInput) -> Step {
    match input {
        LoopInput::Cancel => Step {
            state: LoopState::Stopped,
            action: LoopAction::Stop,
            decision: None,
        },
        LoopInput::SessionResult(res) => match res {
            Ok(()) => Step {
                state: LoopState::SessionActive,
                action: LoopAction::AwaitEvent,
                decision: None,
            },
            Err(_) => Step {
                state: LoopState::Idle,
                action: LoopAction::RetryAfterDelay,
                decision: None,
            },
        },
        LoopInput::StreamItem(item) => match item {
            None => Step {
                state: LoopState::Idle,
                action: LoopAction::CreateSession,
                decision: None,
            },
            Some(Err(_)) => Step {
                state: LoopState::SessionActive,
                action: LoopAction::AwaitEvent,
                decision: None,
            },
            Some(Ok(ev)) => Step {
                state: LoopState::Evaluating { key: ev.main_key, phase: EvalPhase::AwaitingLookup },
                action: LoopAction::QueryAllowList,
                decision: None,
            },
        },
        LoopInput::LookupResult(row) => if row matches Ok(Some(true)) {
            Step {
                state: LoopState::Evaluating { key: state->key, phase: EvalPhase::AwaitingAuth },
                action: LoopAction::Authenticate,
                decision: None,
            }
        } else {
            Step {
                state: LoopState::SessionActive,
                action: LoopAction::AwaitEvent,
                decision: Some(Decision::Denied(DenyReason::KeyUnknownOrDisabled)),
            }
        },
        LoopInput::AuthResult(res) => match res {
            Ok(AuthOutcome::Approved) => Step {
                state: LoopState::Evaluating { key: state->key, phase: EvalPhase::AwaitingUnlock },
                action: LoopAction::Unlock(
                    UnlockCommand {
                        door_id: cfg.door_id,
                        duration_override: Some(DEFAULT_DURATION_SENTINEL),
                    },
                ),
                decision: Some(Decision::Authorized),
            },
            Ok(AuthOutcome::Declined) => Step {
                state: LoopState::SessionActive,
                action: LoopAction::AwaitEvent,
                decision: Some(Decision::Denied(DenyReason::AuthenticationDeclined)),
            },
            Err(_) => Step {
                state: LoopState::SessionActive,
                action: LoopAction::AwaitEvent,
                decision: Some(Decision::Denied(DenyReason::AuthenticationError)),
            },
        },
        LoopInput::UnlockResult(_) => Step {
            state: LoopState::SessionActive,
            action: LoopAction::AwaitEvent,
            decision: None,
        },
    }
}

/// One transition of the authorization loop.
pub fn step(cfg: &LoopConfig, state: LoopState, input: LoopInput) -> (r: Step)
    requires
        accepts(state, input),
    ensures
        r == step_spec(*cfg, state, input),
{
    match input {
        LoopInput::Cancel => Step {
            state: LoopState::Stopped,
            action: LoopAction::Stop,
            decision: None,
        },
        LoopInput::SessionResult(res) => match res {
            Ok(()) => Step {
                state: LoopState::SessionActive,
                action: LoopAction::AwaitEvent,
                decision: None,
            },
            Err(_) => Step {
                state: LoopState::Idle,
                action: LoopAction::RetryAfterDelay,
                decision: None,
            },
        },
        LoopInput::StreamItem(item) => match item {
            None => Step {
                state: LoopState::Idle,
                action: LoopAction::CreateSession,
                decision: None,
            },
            Some(Err(_)) => Step {
                state: LoopState::SessionActive,
                action: LoopAction::AwaitEvent,
                decision: None,
            },
            Some(Ok(ev)) => Step {
                state: LoopState::Evaluating {
                    key: ev.main_key,
                    phase: EvalPhase::AwaitingLookup,
                },
                action: LoopAction::QueryAllowList,
                decision: None,
            },
        },
        LoopInput::LookupResult(row) => match state {
            LoopState::Evaluating { key, phase: _ } => {
                let enabled = match row {
                    Ok(Some(true)) => true,
                    _ => false,
                };
                if enabled {
                    Step {
                        state: LoopState::Evaluating { key, phase: EvalPhase::AwaitingAuth },
                        action: LoopAction::Authenticate,
                        decision: None,
                    }
                } else {
                    Step {
                        state: LoopState::SessionActive,
                        action: LoopAction::AwaitEvent,
                        decision: Some(Decision::Denied(DenyReason::KeyUnknownOrDisabled)),
                    }
                }
            },
            _ => unreached(),
        },
        LoopInput::AuthResult(res) => match state {
            LoopState::Evaluating { key, phase: _ } => match res {
                Ok(AuthOutcome::Approved) => Step {
                    state: LoopState::Evaluating { key, phase: EvalPhase::AwaitingUnlock },
                    action: LoopAction::Unlock(
                        UnlockCommand {
                            door_id: cfg.door_id,
                            duration_override: Some(DEFAULT_DURATION_SENTINEL),
                        },
                    ),
                    decision: Some(Decision::Authorized),
                },
                Ok(AuthOutcome::Declined) => Step {
                    state: LoopState::SessionActive,
                    action: LoopAction::AwaitEvent,
                    decision: Some(Decision::Denied(DenyReason::AuthenticationDeclined)),
                },
                Err(_) => Step {
                    state: LoopState::SessionActive,
                    action: LoopAction::AwaitEvent,
                    decision: Some(Decision::Denied(DenyReason::AuthenticationError)),
                },
            },
            _ => unreached(),
        },
        LoopInput::UnlockResult(_) => Step {
            state: LoopState::SessionActive,
            action: LoopAction::AwaitEvent,
            decision: None,
        },
    }
}

/// An unlock action leaves the loop only through an approved
/// authentication: whatever the state and input, if the transition asks
/// for an unlock, the loop was awaiting the authenticator's answer for an
/// enabled key and the answer was `Approved`, and the command carries the
/// configured door and the hardware-default duration.
pub proof fn lemma_unlock_only_after_approval(cfg: LoopConfig, state: LoopState, input: LoopInput)
    ensures
        step_spec(cfg, state, input).action matches LoopAction::Unlock(cmd) ==> {
            &&& input matches LoopInput::AuthResult(res) && res == Result::<
                AuthOutcome,
                AuthError,
            >::Ok(AuthOutcome::Approved)
            &&& cmd.door_id == cfg.door_id
            &&& cmd.duration_override == Some(DEFAULT_DURATION_SENTINEL)
            &&& step_spec(cfg, state, input).decision == Some(Decision::Authorized)
        },
{
}

/// A key whose allow-list row is absent, disabled or unreadable is denied
/// as unknown-or-disabled, with no authentication call and no unlock:
/// the loop goes straight back to awaiting the next event.
pub proof fn lemma_disallowed_key_denied(cfg: LoopConfig, state: LoopState, row: Result<
    Option<bool>,
    StoreError,
>)
    requires
        accepts(state, LoopInput::LookupResult(row)),
        !(row matches Ok(Some(true))),
    ensures
        step_spec(cfg, state, LoopInput::LookupResult(row)) == (Step {
            state: LoopState::SessionActive,
            action: LoopAction::AwaitEvent,
            decision: Some(Decision::Denied(DenyReason::KeyUnknownOrDisabled)),
        }),
{
}

/// A declined or erroring authentication never triggers an unlock: the
/// transition records the denial and goes back to awaiting the next
/// event.
pub proof fn lemma_denied_auth_never_unlocks(cfg: LoopConfig, state: LoopState, res: Result<
    AuthOutcome,
    AuthError,
>)
    requires
        res != Result::<AuthOutcome, AuthError>::Ok(AuthOutcome::Approved),
    ensures
        !(step_spec(cfg, state, LoopInput::AuthResult(res)).action matches LoopAction::Unlock(
            _,
        )),
        step_spec(cfg, state, LoopInput::AuthResult(res)).state is SessionActive,
        step_spec(cfg, state, LoopInput::AuthResult(res)).decision == Some(
            Decision::Denied(
                if res is Ok {
                    DenyReason::AuthenticationDeclined
                } else {
                    DenyReason::AuthenticationError
                },
            ),
        ),
{
}

/// Cancellation is answered from every state in a single transition: the
/// loop stops at once, and the stopping transition issues no unlock.
pub proof fn lemma_cancel_stops_at_once(cfg: LoopConfig, state: LoopState)
    ensures
        step_spec(cfg, state, LoopInput::Cancel).state is Stopped,
        step_spec(cfg, state, LoopInput::Cancel).action is Stop,
        !(step_spec(cfg, state, LoopInput::Cancel).action matches LoopAction::Unlock(_)),
{
}

/// How far the loop got while trying to bring up a session.
#[derive(PartialEq, Eq, Debug)]
pub struct StartTrace {
    /// How many fixed retry delays the loop sat out: one per failed
    /// creation attempt before the first success.
    pub delays: usize,
    pub state: LoopState,
}

/// Drive the loop from `Idle` through a series of session-creation
/// outcomes until one succeeds or the outcomes run out. Every failure
/// leaves the loop `Idle` behind one fixed retry delay and never
/// terminates it; the first success leaves it awaiting events.
pub fn start_session(cfg: &LoopConfig, attempts: Vec<Result<(), SessionError>>) -> (t: StartTrace)
    ensures
        (t.state is SessionActive) == (exists|k: int|
            0 <= k < attempts@.len() && attempts@[k] is Ok),
        t.state is SessionActive ==> t.delays < attempts@.len() && attempts@[t.delays as int] is Ok
            && forall|j: int| 0 <= j < t.delays ==> attempts@[j] is Err,
        !(t.state is SessionActive) ==> t.state is Idle && t.delays == attempts@.len(),
{
    let n = attempts.len();
    let mut i: usize = 0;
    while i < n
        invariant
            0 <= i <= n,
            n == attempts@.len(),
            forall|j: int| 0 <= j < i ==> attempts@[j] is Err,
        decreases n - i,
    {
        let r = step(cfg, LoopState::Idle, LoopInput::SessionResult(attempts[i]));
        if attempts[i].is_ok() {
            return StartTrace { delays: i, state: r.state };
        }
        i += 1;
    }
    StartTrace { delays: n, state: LoopState::Idle }
}

/// One scripted item of a session's event stream, bundled with the
/// answers the outside collaborators would give if the evaluation gets
/// that far.
pub enum SessionItem {
    /// An item that fails to decode; the loop skips it.
    Malformed,
    /// A well-formed presentation of `key`, with the authenticator's
    /// answer and the actuator's outcome held ready.
    Present { key: String, auth: Result<AuthOutcome, AuthError>, unlock: UnlockOutcome },
}

/// The decision owed to a presented key: not enabled means denied as
/// unknown-or-disabled with no authentication call; an enabled key takes
/// the authenticator's answer.
pub open spec fn decision_of(enabled: bool, auth: Result<AuthOutcome, AuthError>) -> Decision {
    if !enabled {
        Decision::Denied(DenyReason::KeyUnknownOrDisabled)
    } else {
        match auth {
            Ok(AuthOutcome::Approved) => Decision::Authorized,
            Ok(AuthOutcome::Declined) => Decision::Denied(DenyReason::AuthenticationDeclined),
            Err(_) => Decision::Denied(DenyReason::AuthenticationError),
        }
    }
}

/// The well-formed presentations of a script, in arrival order, as
/// (key, authenticator answer) pairs.
pub open spec fn presented(items: Seq<SessionItem>) -> Seq<(Seq<char>, Result<AuthOutcome, AuthError>)>
    decreases items.len(),
{
    if items.len() == 0 {
        Seq::empty()
    } else {
        presented(items.drop_last()) + (match items.last() {
            SessionItem::Present { key, auth, .. } => seq![(key@, auth)],
            _ => Seq::empty(),
        })
    }
}

/// How many presentations of the script reach the authenticator: those
/// whose key the allow list carries as enabled.
pub open spec fn count_authenticated(allow: AllowList, items: Seq<SessionItem>) -> int
    decreases items.len(),
{
    if items.len() == 0 {
        0
    } else {
        count_authenticated(allow, items.drop_last()) + (if items.last()
            matches SessionItem::Present { key, .. } && allow.spec_enabled(key@) {
            1int
        } else {
            0int
        })
    }
}

/// How many presentations of the script are authorized: enabled keys the
/// authenticator approves. Each of these is owed exactly one unlock call.
pub open spec fn count_authorized(allow: AllowList, items: Seq<SessionItem>) -> int
    decreases items.len(),
{
    if items.len() == 0 {
        0
    } else {
        count_authorized(allow, items.drop_last()) + (if items.last()
            matches SessionItem::Present { key, auth, .. } && allow.spec_enabled(key@) && auth
            == Result::<AuthOutcome, AuthError>::Ok(AuthOutcome::Approved) {
            1int
        } else {
            0int
        })
    }
}

/// The structured log record of one concluded evaluation.
#[derive(PartialEq, Eq, Debug)]
pub struct EventRecord {
    pub key: String,
    pub auth: Result<AuthOutcome, AuthError>,
    pub decision: Decision,
    /// The unlock command dispatched for this presentation, if any.
    pub unlock: Option<UnlockCommand>,
}

/// A record is sound for the given configuration and allow list: the
/// decision is the one owed to the key and the authenticator's answer,
/// an unlock command is dispatched exactly for `Authorized`, and every
/// dispatched command names the configured door with the
/// hardware-default duration.
pub open spec fn record_ok(cfg: LoopConfig, allow: AllowList, r: EventRecord) -> bool {
    &&& r.decision == decision_of(allow.spec_enabled(r.key@), r.auth)
    &&& (r.unlock is Some) == (r.decision == Decision::Authorized)
    &&& r.unlock matches Some(cmd) ==> cmd.door_id == cfg.door_id && cmd.duration_override
        == Some(DEFAULT_DURATION_SENTINEL)
}

/// Everything observable about one driven session.
#[derive(PartialEq, Eq, Debug)]
pub struct SessionTrace {
    /// One record per well-formed presentation, in arrival order.
    pub records: Vec<EventRecord>,
    /// How many authentication exchanges were begun.
    pub auth_attempts: usize,
    /// How many unlock commands were dispatched.
    pub unlock_calls: usize,
    /// The most unlock commands ever outstanding at one instant.
    pub max_in_flight: usize,
    /// Where the loop stands after the stream ended.
    pub state: LoopState,
    /// The action owed after the stream ended.
    pub action: LoopAction,
}

/// Drive the loop through one whole session: every scripted item in
/// arrival order, one at a time, each presentation evaluated to its
/// decision, each authorized presentation dispatching exactly one unlock
/// command through the actuator slot, and the exhausted stream answered
/// by an immediate re-creation request with no delay.
pub fn run_session(cfg: &LoopConfig, allow: &AllowList, items: Vec<SessionItem>) -> (t:
    SessionTrace)
    requires
        allow.wf(),
    ensures
        t.records@.len() == presented(items@).len(),
        forall|j: int|
            0 <= j < t.records@.len() ==> (#[trigger] t.records@[j]).key@ == presented(items@)[j].0
                && t.records@[j].auth == presented(items@)[j].1,
        forall|j: int| 0 <= j < t.records@.len() ==> record_ok(*cfg, *allow, #[trigger] t.records@[j]),
        t.auth_attempts == count_authenticated(*allow, items@),
        t.unlock_calls == count_authorized(*allow, items@),
        t.max_in_flight <= 1,
        t.unlock_calls > 0 ==> t.max_in_flight == 1,
        t.state is Idle,
        t.action is CreateSession,
{
    let n = items.len();
    let mut slot = ActuatorSlot::new();
    let mut records: Vec<EventRecord> = Vec::new();
    let mut auth_attempts: usize = 0;
    let mut unlock_calls: usize = 0;
    let mut max_in_flight: usize = 0;
    let mut st = LoopState::SessionActive;
    let mut i: usize = 0;
    while i < n
        invariant
            0 <= i <= n,
            n == items@.len(),
            allow.wf(),
            !slot.is_busy(),
            st == LoopState::SessionActive,
            records@.len() == presented(items@.take(i as int)).len(),
            forall|j: int|
                0 <= j < records@.len() ==> (#[trigger] records@[j]).key@ == presented(
                    items@.take(i as int),
                )[j].0 && records@[j].auth == presented(items@.take(i as int))[j].1,
            forall|j: int| 0 <= j < records@.len() ==> record_ok(*cfg, *allow, #[trigger] records@[j]),
            auth_attempts == count_authenticated(*allow, items@.take(i as int)),
            unlock_calls == count_authorized(*allow, items@.take(i as int)),
            records@.len() <= i,
            auth_attempts <= i,
            unlock_calls <= i,
            max_in_flight <= 1,
            unlock_calls > 0 ==> max_in_flight == 1,
        decreases n - i,
    {
        let ghost pre = items@.take(i as int);
        let ghost post = items@.take(i as int + 1);
        proof {
            assert(post.drop_last() =~= pre);
            assert(post.last() == items@[i as int]);
        }
        match &items[i] {
            SessionItem::Malformed => {
                let r = step(
                    cfg,
                    st,
                    LoopInput::StreamItem(Some(Err(EventError::Malformed))),
                );
                st = r.state;
                proof {
                    assert(presented(post) =~= presented(pre));
                }
            },
            SessionItem::Present { key, auth, unlock } => {
                let r1 = step(
                    cfg,
                    st,
                    LoopInput::StreamItem(Some(Ok(PresentationEvent { main_key: key.clone() }))),
                );
                let row = allow.lookup_row(key.as_str());
                let r2 = step(cfg, r1.state, LoopInput::LookupResult(row));
                let ghost enabled = allow.spec_enabled(key@);
                let record: EventRecord;
                match r2.action {
                    LoopAction::Authenticate => {
                        auth_attempts += 1;
                        let r3 = step(cfg, r2.state, LoopInput::AuthResult(*auth));
                        match r3.action {
                            LoopAction::Unlock(cmd) => {
                                let granted = slot.try_acquire();
                                assert(granted);
                                unlock_calls += 1;
                                max_in_flight = 1;
                                let outcome = unlock.clone();
                                slot.release();
                                let r4 = step(cfg, r3.state, LoopInput::UnlockResult(outcome));
                                st = r4.state;
                                record = EventRecord {
                                    key: key.clone(),
                                    auth: *auth,
                                    decision: Decision::Authorized,
                                    unlock: Some(cmd),
                                };
                            },
                            _ => {
                                st = r3.state;
                                record = EventRecord {
                                    key: key.clone(),
                                    auth: *auth,
                                    decision: match r3.decision {
                                        Some(d) => d,
                                        None => unreached(),
                                    },
                                    unlock: None,
                                };
                            },
                        }
                    },
                    _ => {
                        st = r2.state;
                        record = EventRecord {
                            key: key.clone(),
                            auth: *auth,
                            decision: Decision::Denied(DenyReason::KeyUnknownOrDisabled),
                            unlock: None,
                        };
                    },
                }
                records.push(record);
                proof {
                    assert(presented(post) =~= presented(pre).push((key@, *auth)));
                }
            },
        }
        i += 1;
    }
    proof {
        assert(items@.take(n as int) =~= items@);
    }
    let r = step(cfg, st, LoopInput::StreamItem(None));
    SessionTrace {
        records,
        auth_attempts,
        unlock_calls,
        max_in_flight,
        state: r.state,
        action: r.action,
    }
}

} // verus!
