//! Keeping one instance running: what creating the named mutex means, and how
//! a second start hands over to the running popup.

use vstd::prelude::*;
use crate::text::{decimal, push_decimal};

verus! {

/// How many times a second start looks for the running popup window.
pub const FIND_RETRY_COUNT: usize = 20;

/// How long it waits between looks, in milliseconds.
pub const FIND_RETRY_DELAY_MS: u64 = 50;

/// What creating the single-instance mutex came to.
#[derive(Clone, Debug, PartialEq, Eq)]
pub enum InstanceOutcome {
    /// The mutex could not be created; the message says why.
    Failed(String),
    /// Another instance holds it: hand over to that one and quit.
    AlreadyRunning,
    /// This instance holds it now.
    Acquired,
}

/// The message when the mutex cannot be created.
pub open spec fn mutex_error_message(code: u32) -> Seq<char> {
    "Cannot create single-instance mutex (Windows error "@ + decimal(code as nat) + ")"@
}

/// Reads the outcome of creating the mutex: whether a handle came back, the
/// last Windows error, and whether that error says the mutex already existed.
pub fn instance_outcome(created: bool, last_error: u32, already_exists: bool) -> (o: InstanceOutcome)
    ensures
        !created ==> (o matches InstanceOutcome::Failed(m) && m@ == mutex_error_message(last_error)),
        created && already_exists ==> o == InstanceOutcome::AlreadyRunning,
        created && !already_exists ==> o == InstanceOutcome::Acquired,
{
    if !created {
        let mut m = String::from_str("Cannot create single-instance mutex (Windows error ");
        push_decimal(&mut m, last_error as u64);
        m.append(")");
        return InstanceOutcome::Failed(m);
    }
    if already_exists {
        InstanceOutcome::AlreadyRunning
    } else {
        InstanceOutcome::Acquired
    }
}

/// What a second start does after one look for the running popup.
#[derive(Clone, Copy, Debug, PartialEq, Eq, Structural)]
pub enum ActivationStep {
    /// The popup is open: bring it to the front.
    BringToFront,
    /// The popup is hidden: send it the tray click that opens it.
    SendTrayClick,
    /// Not found yet: wait and look again.
    Retry,
    /// Not found in time: give up.
    GiveUp,
}

/// After look number `attempt` (from 0) found the popup window (and whether it
/// is visible) or not.
pub fn activation_step(attempt: usize, found: Option<bool>) -> (s: ActivationStep)
    ensures
        s == (match found {
            Some(true) => ActivationStep::BringToFront,
            Some(false) => ActivationStep::SendTrayClick,
            None => if attempt + 1 < FIND_RETRY_COUNT {
                ActivationStep::Retry
            } else {
                ActivationStep::GiveUp
            },
        }),
{
    match found {
        Some(true) => ActivationStep::BringToFront,
        Some(false) => ActivationStep::SendTrayClick,
        None => if attempt < FIND_RETRY_COUNT - 1 {
            ActivationStep::Retry
        } else {
            ActivationStep::GiveUp
        },
    }
}

} // verus!
