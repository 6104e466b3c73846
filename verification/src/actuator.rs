//! Serialization of unlock commands to the door hardware.
//!
//! The physical actuator accepts one command at a time. `ActuatorSlot`
//! models the mutually-exclusive dispatch slot: a command may be dispatched
//! only while the slot is held, and the slot can be held by at most one
//! command at any instant.

use vstd::prelude::*;

verus! {

/// A command for the door hardware: which door to unlock, and an optional
/// duration override carried to the actuator client.
#[derive(Clone, Copy, PartialEq, Eq, Debug)]
pub struct UnlockCommand {
    pub door_id: u32,
    pub duration_override: Option<i32>,
}

/// What came of dispatching an unlock command.
#[derive(Clone, PartialEq, Eq, Debug)]
pub enum UnlockOutcome {
    Unlocked,
    Refused(String),
    TransportError,
}

/// The mutually-exclusive dispatch slot of the actuator: at most one
/// unlock command is outstanding while the slot is busy.
pub struct ActuatorSlot {
    busy: bool,
}

impl ActuatorSlot {
    pub closed spec fn is_busy(self) -> bool {
        self.busy
    }

    /// A fresh slot holds no outstanding command.
    pub fn new() -> (s: ActuatorSlot)
        ensures
            !s.is_busy(),
    {
        ActuatorSlot { busy: false }
    }

    /// Take the slot before dispatching a command. Succeeds exactly when no
    /// other command is outstanding; the caller must wait and try again
    /// otherwise, so in-flight commands never interleave.
    pub fn try_acquire(&mut self) -> (granted: bool)
        ensures
            granted == !old(self).is_busy(),
            final(self).is_busy(),
    {
        let was_busy = self.busy;
        self.busy = true;
        !was_busy
    }

    /// Give the slot back once the command's outcome is in hand.
    pub fn release(&mut self)
        requires
            old(self).is_busy(),
        ensures
            !final(self).is_busy(),
    {
        self.busy = false;
    }
}

/// Classify the actuator client's raw reply as an `UnlockOutcome`:
/// no reply means a transport failure, a reply with `success == true` means
/// the door unlocked, and any other reply is a refusal carrying the
/// hardware's message.
pub fn classify_unlock_reply(reply: Option<(bool, String)>) -> (o: UnlockOutcome)
    ensures
        reply is None ==> o is TransportError,
        reply matches Some((success, message)) ==> if success {
            o is Unlocked
        } else {
            o matches UnlockOutcome::Refused(m) && m@ == message@
        },
{
    match reply {
        None => UnlockOutcome::TransportError,
        Some((success, message)) => {
            if success {
                UnlockOutcome::Unlocked
            } else {
                UnlockOutcome::Refused(message)
            }
        },
    }
}

} // verus!
