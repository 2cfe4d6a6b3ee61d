//! The decisions of the task that drives the port controller: which queue
//! each action goes to, when claim rounds and the claim window fall due,
//! when a heartbeat is sent, what the status LED shows and when the fan is
//! re-driven. The task performs the sends and the waiting.
use vstd::prelude::*;

use crate::backpack::action_executor::ExecutorCommand;
use crate::backpack::status::StatusState;
use crate::port::controller::{PdActionKind, PowerOutputsActionKind};
use crate::types::CommissioningState;

verus! {

pub const CLAIM_WINDOW_MS: u64 = 500;
pub const CLAIM_ROUND_INTERVAL_MS: u64 = 150;
pub const LAST_CLAIM_NONCE: u16 = 2;
pub const HEARTBEAT_INTERVAL_MS: u64 = 1_000;

/// The queues that carry commands to the bus, flash and power tasks.
#[derive(Clone, Copy, Debug, PartialEq, Eq, Structural)]
pub enum Queue {
    PdEmergency,
    PdPolicy,
    Persist,
    PowerOff,
    Power,
    PowerEmergency,
}

/// Emergency disables and all-outputs emergencies, and gate-offs, go to
/// their own queues so that the bus serves them first.
pub open spec fn spec_queue_for(command: ExecutorCommand) -> Queue {
    match command {
        ExecutorCommand::Pd(c) => if c.kind is EmergencyDisable {
            Queue::PdEmergency
        } else {
            Queue::PdPolicy
        },
        ExecutorCommand::Persist(_) => Queue::Persist,
        ExecutorCommand::PowerGate(c) => if c.enabled {
            Queue::Power
        } else {
            Queue::PowerOff
        },
        ExecutorCommand::PowerOutputs(c) => if c.kind == PowerOutputsActionKind::EmergencyDisableAll {
            Queue::PowerEmergency
        } else {
            Queue::Power
        },
    }
}

pub fn queue_for(command: &ExecutorCommand) -> (r: Queue)
    ensures
        r == spec_queue_for(*command),
{
    match command {
        ExecutorCommand::Pd(c) => match c.kind {
            PdActionKind::EmergencyDisable => Queue::PdEmergency,
            PdActionKind::ApplyPolicy(_) => Queue::PdPolicy,
        },
        ExecutorCommand::Persist(_) => Queue::Persist,
        ExecutorCommand::PowerGate(c) => if c.enabled {
            Queue::Power
        } else {
            Queue::PowerOff
        },
        ExecutorCommand::PowerOutputs(c) => match c.kind {
            PowerOutputsActionKind::EmergencyDisableAll => Queue::PowerEmergency,
            PowerOutputsActionKind::ArmAllOff => Queue::Power,
        },
    }
}

/// The LED's base state: a latched emergency first, then the address state.
pub open spec fn spec_status_for(emergency_latched: bool, state: CommissioningState) -> StatusState {
    if emergency_latched {
        StatusState::EmergencyLatched
    } else {
        match state {
            CommissioningState::AddressConflict => StatusState::AddressConflict,
            CommissioningState::Commissioned => StatusState::Healthy,
            _ => StatusState::Uncommissioned,
        }
    }
}

pub fn status_for(emergency_latched: bool, state: CommissioningState) -> (r: StatusState)
    ensures
        r == spec_status_for(emergency_latched, state),
{
    if emergency_latched {
        StatusState::EmergencyLatched
    } else {
        match state {
            CommissioningState::AddressConflict => StatusState::AddressConflict,
            CommissioningState::Commissioned => StatusState::Healthy,
            _ => StatusState::Uncommissioned,
        }
    }
}

/// Whether an event calls for the fan to be driven again: an emergency
/// request (which forces it to full speed) or a completed settings write
/// (which may have changed its configuration or cleared the emergency).
pub fn fan_refresh_needed(emergency_requested: bool, persist_completed: bool) -> (r: bool)
    ensures
        r == (emergency_requested || persist_completed),
{
    emergency_requested || persist_completed
}

/// The claim schedule of an address being claimed.
#[derive(Clone, Copy, Debug, PartialEq, Eq, Structural)]
pub struct ClaimTimer {
    pub window_deadline: Option<u64>,
    pub next_round: Option<u64>,
    pub next_nonce: u16,
}

/// What a pass of the loop does about claiming: the claim round to send,
/// and whether the claim window has closed.
#[derive(Clone, Copy, Debug, PartialEq, Eq, Structural)]
pub struct ClaimStep {
    pub round_nonce: Option<u16>,
    pub window_complete: bool,
}

pub open spec fn later(now: u64, delay: u64) -> u64 {
    if now as int + delay as int > u64::MAX as int {
        u64::MAX
    } else {
        (now + delay) as u64
    }
}

pub fn deadline_after(now: u64, delay: u64) -> (r: u64)
    ensures
        r == later(now, delay),
{
    if now > u64::MAX - delay {
        u64::MAX
    } else {
        now + delay
    }
}

/// The schedule at start-up: an address read from flash is claimed at once.
pub fn claim_timer_at_start(has_node_id: bool, now: u64) -> (r: ClaimTimer)
    ensures
        r == (if has_node_id {
            ClaimTimer {
                window_deadline: Some(later(now, CLAIM_WINDOW_MS)),
                next_round: Some(later(now, CLAIM_ROUND_INTERVAL_MS)),
                next_nonce: 1,
            }
        } else {
            ClaimTimer { window_deadline: None, next_round: None, next_nonce: 1 }
        }),
{
    if has_node_id {
        ClaimTimer {
            window_deadline: Some(deadline_after(now, CLAIM_WINDOW_MS)),
            next_round: Some(deadline_after(now, CLAIM_ROUND_INTERVAL_MS)),
            next_nonce: 1,
        }
    } else {
        ClaimTimer { window_deadline: None, next_round: None, next_nonce: 1 }
    }
}

/// One pass of the claim schedule. While claiming, a due round is sent
/// with the next nonce, at most up to the last nonce; when the window's
/// deadline passes it closes. Afterwards, with the state the address has
/// then, a claim that starts anew opens a fresh window, and any other state
/// stops the schedule.
pub open spec fn spec_claim_step(t: ClaimTimer, state: CommissioningState, now: u64) -> (ClaimTimer, ClaimStep) {
    let claiming = state == CommissioningState::Claiming;
    let round_due = claiming && (t.next_round matches Some(d) && now >= d) && t.next_nonce <= 2;
    let t1 = if round_due {
        let nonce = (t.next_nonce + 1) as u16;
        ClaimTimer {
            next_nonce: nonce,
            next_round: if nonce <= 2 {
                Some(later(now, 150))
            } else {
                None
            },
            ..t
        }
    } else {
        t
    };
    let closes = t1.window_deadline matches Some(d) && now >= d;
    let t2 = if closes {
        ClaimTimer { window_deadline: None, next_round: None, ..t1 }
    } else {
        t1
    };
    let after = if closes && claiming {
        CommissioningState::Commissioned
    } else {
        state
    };
    let t3 = if after == CommissioningState::Claiming && t2.window_deadline is None {
        ClaimTimer { window_deadline: Some(later(now, 500)), next_nonce: 1, next_round: Some(later(now, 150)) }
    } else if after != CommissioningState::Claiming {
        ClaimTimer { window_deadline: None, next_round: None, ..t2 }
    } else {
        t2
    };
    (
        t3,
        ClaimStep {
            round_nonce: if round_due {
                Some(t.next_nonce)
            } else {
                None
            },
            window_complete: closes,
        },
    )
}

pub fn claim_step(timer: ClaimTimer, state: CommissioningState, now: u64) -> (r: (ClaimTimer, ClaimStep))
    ensures
        r == spec_claim_step(timer, state, now),
{
    let claiming = state == CommissioningState::Claiming;
    let round_due = claiming && match timer.next_round {
        Some(d) => now >= d,
        None => false,
    } && timer.next_nonce <= LAST_CLAIM_NONCE;
    let mut t = timer;
    if round_due {
        let nonce = timer.next_nonce + 1;
        t.next_nonce = nonce;
        t.next_round = if nonce <= LAST_CLAIM_NONCE {
            Some(deadline_after(now, CLAIM_ROUND_INTERVAL_MS))
        } else {
            None
        };
    }
    let closes = match t.window_deadline {
        Some(d) => now >= d,
        None => false,
    };
    if closes {
        t.window_deadline = None;
        t.next_round = None;
    }
    let after = if closes && claiming {
        CommissioningState::Commissioned
    } else {
        state
    };
    if after == CommissioningState::Claiming && t.window_deadline.is_none() {
        t = ClaimTimer {
            window_deadline: Some(deadline_after(now, CLAIM_WINDOW_MS)),
            next_nonce: 1,
            next_round: Some(deadline_after(now, CLAIM_ROUND_INTERVAL_MS)),
        };
    } else if after != CommissioningState::Claiming {
        t.window_deadline = None;
        t.next_round = None;
    }
    (t, ClaimStep { round_nonce: if round_due { Some(timer.next_nonce) } else { None }, window_complete: closes })
}

/// Whether a heartbeat is due, and the deadline after this pass.
pub fn heartbeat_step(now: u64, deadline: u64) -> (r: (bool, u64))
    ensures
        r == (if now >= deadline {
            (true, later(now, HEARTBEAT_INTERVAL_MS))
        } else {
            (false, deadline)
        }),
{
    if now >= deadline {
        (true, deadline_after(now, HEARTBEAT_INTERVAL_MS))
    } else {
        (false, deadline)
    }
}

/// A claim never sends a nonce beyond the last one, and the schedule ends
/// once the address is no longer being claimed.
pub proof fn lemma_claim_rounds_are_bounded(t: ClaimTimer, state: CommissioningState, now: u64)
    ensures
        spec_claim_step(t, state, now).1.round_nonce matches Some(n) ==> n <= 2 && state
            == CommissioningState::Claiming,
        state != CommissioningState::Claiming ==> spec_claim_step(t, state, now).0.window_deadline is None
            && spec_claim_step(t, state, now).0.next_round is None,
{
}

} // verus!
