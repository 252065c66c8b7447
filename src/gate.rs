//! The two-press confirmation of destructive actions.

use vstd::prelude::*;
use crate::app::ConfirmationState;
use crate::network::NetworkCommand;

verus! {

/// A destructive action that needs confirming.
#[derive(Clone, Copy, Debug, PartialEq, Eq, Structural)]
pub enum Destructive {
    Redeploy,
    Cancel,
}

/// Whether `s` awaits the confirmation of action `a` on `target`.
pub open spec fn awaits(s: ConfirmationState, a: Destructive, target: Seq<char>) -> bool {
    match s {
        ConfirmationState::RedeployPending(x, _) => a == Destructive::Redeploy && x@ == target,
        ConfirmationState::CancelPending(x, _) => a == Destructive::Cancel && x@ == target,
        ConfirmationState::Idle => false,
    }
}

/// The state awaiting confirmation of `a` on `target` since `now`.
pub open spec fn pending(a: Destructive, target: String, now: u64) -> ConfirmationState {
    match a {
        Destructive::Redeploy => ConfirmationState::RedeployPending(target, now),
        Destructive::Cancel => ConfirmationState::CancelPending(target, now),
    }
}

/// The command that carries out `a` on `target`.
pub open spec fn command_of(a: Destructive, target: String) -> NetworkCommand {
    match a {
        Destructive::Redeploy => NetworkCommand::Redeploy(target),
        Destructive::Cancel => NetworkCommand::Cancel(target),
    }
}

/// The state after pressing the trigger of `a` on `target` at `now`: a
/// second press on the same target confirms and returns to idle; any other
/// press leaves this target pending instead.
pub open spec fn press_state(s: ConfirmationState, a: Destructive, target: String, now: u64) -> ConfirmationState {
    if awaits(s, a, target@) {
        ConfirmationState::Idle
    } else {
        pending(a, target, now)
    }
}

/// The command that pressing the trigger of `a` on `target` issues: only a
/// confirming press issues one.
pub open spec fn press_command(s: ConfirmationState, a: Destructive, target: String) -> Option<NetworkCommand> {
    if awaits(s, a, target@) {
        Some(command_of(a, target))
    } else {
        None
    }
}

impl ConfirmationState {
    /// Whether this state awaits the confirmation of `a` on `target`.
    pub fn is_awaiting(&self, a: Destructive, target: &String) -> (r: bool)
        ensures
            r == awaits(*self, a, target@),
    {
        match self {
            ConfirmationState::RedeployPending(x, _) => a == Destructive::Redeploy && *x == *target,
            ConfirmationState::CancelPending(x, _) => a == Destructive::Cancel && *x == *target,
            ConfirmationState::Idle => false,
        }
    }

    /// Presses the trigger of `a` on `target` at `now`.
    pub fn press(&mut self, a: Destructive, target: String, now: u64) -> (r: Option<NetworkCommand>)
        ensures
            *final(self) == press_state(*old(self), a, target, now),
            r == press_command(*old(self), a, target),
    {
        if self.is_awaiting(a, &target) {
            *self = ConfirmationState::Idle;
            match a {
                Destructive::Redeploy => Some(NetworkCommand::Redeploy(target)),
                Destructive::Cancel => Some(NetworkCommand::Cancel(target)),
            }
        } else {
            *self = match a {
                Destructive::Redeploy => ConfirmationState::RedeployPending(target, now),
                Destructive::Cancel => ConfirmationState::CancelPending(target, now),
            };
            None
        }
    }

    /// Abandons any pending confirmation, as navigation or an explicit cancel
    /// does.
    pub fn reset(&mut self)
        ensures
            *final(self) is Idle,
    {
        *self = ConfirmationState::Idle;
    }
}

/// The confirmation gate: from idle, a first press on `x` only makes `x`
/// pending; a second press on `x` issues the action on `x` and returns to
/// idle; a press on another target `y` while `x` is pending makes `y` pending
/// instead and issues nothing.
pub proof fn lemma_confirmation_gate(a: Destructive, x: String, y: String, t0: u64, t1: u64)
    requires
        x@ != y@,
    ensures
        press_state(ConfirmationState::Idle, a, x, t0) == pending(a, x, t0),
        press_command(ConfirmationState::Idle, a, x) is None,
        press_state(pending(a, x, t0), a, x, t1) is Idle,
        press_command(pending(a, x, t0), a, x) == Some(command_of(a, x)),
        press_state(pending(a, x, t0), a, y, t1) == pending(a, y, t1),
        press_command(pending(a, x, t0), a, y) is None,
{
}

} // verus!
