use door_access::actuator::{classify_unlock_reply, ActuatorSlot, UnlockOutcome};

#[test]
fn slot_admits_one_command_at_a_time() {
    let mut slot = ActuatorSlot::new();
    assert!(slot.try_acquire());
    // While a command is outstanding, every further attempt is refused.
    assert!(!slot.try_acquire());
    assert!(!slot.try_acquire());
    slot.release();
    assert!(slot.try_acquire());
}

#[test]
fn unlock_reply_classification() {
    assert_eq!(classify_unlock_reply(None), UnlockOutcome::TransportError);
    assert_eq!(
        classify_unlock_reply(Some((true, "ok".to_string()))),
        UnlockOutcome::Unlocked
    );
    assert_eq!(
        classify_unlock_reply(Some((false, "door jammed".to_string()))),
        UnlockOutcome::Refused("door jammed".to_string())
    );
}
