//! The watchdog supervisor: the watchdog is fed only while the controller,
//! the PD bus and the CAN task each keep making progress.
use vstd::prelude::*;

verus! {

pub const IWDG_TIMEOUT_US_PROVISIONAL: u32 = 8_000_000;

/// Progress counters that the supervised tasks advance.
#[derive(Clone, Copy, Debug, Default, PartialEq, Eq, Structural)]
pub struct ProgressSnapshot {
    pub controller: u32,
    pub pd_bus: u32,
    pub can: u32,
}

#[derive(Clone, Copy, Debug, PartialEq, Eq, Structural)]
pub struct ProgressDeadlines {
    pub controller_ms: u32,
    pub pd_bus_ms: u32,
    pub can_ms: u32,
    pub flash_allowance_ms: u32,
}

impl ProgressDeadlines {
    #[allow(non_snake_case)]
    pub fn PROVISIONAL() -> (r: Self)
        ensures
            r == (ProgressDeadlines {
                controller_ms: 2_000,
                pd_bus_ms: 3_000,
                can_ms: 3_000,
                flash_allowance_ms: 2_000,
            }),
    {
        ProgressDeadlines { controller_ms: 2_000, pd_bus_ms: 3_000, can_ms: 3_000, flash_allowance_ms: 2_000 }
    }
}

/// The set of stalled subsystems, one bit each.
#[derive(Clone, Copy, Debug, Default, PartialEq, Eq, Structural)]
pub struct StalledSubsystems(u8);

impl StalledSubsystems {
    pub const CONTROLLER: u8 = 1;
    pub const PD_BUS: u8 = 2;
    pub const CAN: u8 = 4;

    pub closed spec fn spec_bits(self) -> u8 {
        self.0
    }

    pub fn bits(self) -> (r: u8)
        ensures
            r == self.spec_bits(),
    {
        self.0
    }

    pub fn is_empty(self) -> (r: bool)
        ensures
            r == (self.spec_bits() == 0),
    {
        self.0 == 0
    }
}

#[derive(Clone, Copy, Debug, PartialEq, Eq, Structural)]
pub enum SupervisorDecision {
    FeedWatchdog,
    WithholdWatchdog { stalled: StalledSubsystems },
}

pub struct Supervisor {
    deadlines: ProgressDeadlines,
    last: ProgressSnapshot,
    last_controller_ms: u32,
    last_pd_bus_ms: u32,
    last_can_ms: u32,
}

/// What a [`Supervisor`] holds: the deadlines, the last counters seen and
/// when each counter last changed.
pub struct SupervisorModel {
    pub deadlines: ProgressDeadlines,
    pub last: ProgressSnapshot,
    pub last_controller_ms: u32,
    pub last_pd_bus_ms: u32,
    pub last_can_ms: u32,
}

impl View for Supervisor {
    type V = SupervisorModel;

    closed spec fn view(&self) -> SupervisorModel {
        SupervisorModel {
            deadlines: self.deadlines,
            last: self.last,
            last_controller_ms: self.last_controller_ms,
            last_pd_bus_ms: self.last_pd_bus_ms,
            last_can_ms: self.last_can_ms,
        }
    }
}

/// Milliseconds from `then` to `now` on a wrapping millisecond counter.
pub open spec fn spec_elapsed(now: u32, then: u32) -> u32 {
    vstd::wrapping::u32_specs::wrapping_sub(now, then)
}

pub fn elapsed(now: u32, then: u32) -> (r: u32)
    ensures
        r == spec_elapsed(now, then),
{
    now.wrapping_sub(then)
}

/// `a + b`, or the largest `u32` when that does not fit.
pub open spec fn saturating_add_u32(a: u32, b: u32) -> u32 {
    if a + b > u32::MAX {
        u32::MAX
    } else {
        (a + b) as u32
    }
}

/// The supervisor after seeing `progress` at `now_ms`: a counter that
/// changed restarts its subsystem's clock.
pub open spec fn spec_observe(s: SupervisorModel, now_ms: u32, progress: ProgressSnapshot) -> SupervisorModel {
    SupervisorModel {
        deadlines: s.deadlines,
        last: progress,
        last_controller_ms: if progress.controller != s.last.controller {
            now_ms
        } else {
            s.last_controller_ms
        },
        last_pd_bus_ms: if progress.pd_bus != s.last.pd_bus {
            now_ms
        } else {
            s.last_pd_bus_ms
        },
        last_can_ms: if progress.can != s.last.can {
            now_ms
        } else {
            s.last_can_ms
        },
    }
}

/// Whether a subsystem last seen progressing at `since` has overrun its
/// deadline, extended by the flash allowance while a flash operation runs.
pub open spec fn overdue(now_ms: u32, since: u32, deadline: u32, allowance: u32) -> bool {
    spec_elapsed(now_ms, since) > saturating_add_u32(deadline, allowance)
}

/// The stalled-subsystem bits of an observed supervisor state.
pub open spec fn stalled_bits(s: SupervisorModel, now_ms: u32, flash_active: bool) -> u8 {
    let allowance = if flash_active {
        s.deadlines.flash_allowance_ms
    } else {
        0
    };
    (if overdue(now_ms, s.last_controller_ms, s.deadlines.controller_ms, allowance) {
        1u8
    } else {
        0u8
    }) | (if overdue(now_ms, s.last_pd_bus_ms, s.deadlines.pd_bus_ms, allowance) {
        2u8
    } else {
        0u8
    }) | (if overdue(now_ms, s.last_can_ms, s.deadlines.can_ms, allowance) {
        4u8
    } else {
        0u8
    })
}

impl Supervisor {
    pub fn new(deadlines: ProgressDeadlines, now_ms: u32) -> (r: Self)
        ensures
            r@ == (SupervisorModel {
                deadlines,
                last: ProgressSnapshot { controller: 0, pd_bus: 0, can: 0 },
                last_controller_ms: now_ms,
                last_pd_bus_ms: now_ms,
                last_can_ms: now_ms,
            }),
    {
        Supervisor {
            deadlines,
            last: ProgressSnapshot { controller: 0, pd_bus: 0, can: 0 },
            last_controller_ms: now_ms,
            last_pd_bus_ms: now_ms,
            last_can_ms: now_ms,
        }
    }

    /// Feeds the watchdog only if no subsystem has overrun its deadline.
    pub fn evaluate(&mut self, now_ms: u32, progress: ProgressSnapshot, flash_active: bool) -> (r:
        SupervisorDecision)
        ensures
            final(self)@ == spec_observe(old(self)@, now_ms, progress),
            stalled_bits(final(self)@, now_ms, flash_active) == 0 ==> r
                == SupervisorDecision::FeedWatchdog,
            stalled_bits(final(self)@, now_ms, flash_active) != 0 ==> (r matches SupervisorDecision::WithholdWatchdog {
                stalled,
            } && stalled.spec_bits() == stalled_bits(final(self)@, now_ms, flash_active)),
    {
        if progress.controller != self.last.controller {
            self.last_controller_ms = now_ms;
        }
        if progress.pd_bus != self.last.pd_bus {
            self.last_pd_bus_ms = now_ms;
        }
        if progress.can != self.last.can {
            self.last_can_ms = now_ms;
        }
        self.last = progress;
        let flash_allowance = if flash_active {
            self.deadlines.flash_allowance_ms
        } else {
            0
        };
        let controller: u8 = if elapsed(now_ms, self.last_controller_ms)
            > self.deadlines.controller_ms.saturating_add(flash_allowance) {
            StalledSubsystems::CONTROLLER
        } else {
            0
        };
        let pd_bus: u8 = if elapsed(now_ms, self.last_pd_bus_ms) > self.deadlines.pd_bus_ms.saturating_add(
            flash_allowance,
        ) {
            StalledSubsystems::PD_BUS
        } else {
            0
        };
        let can: u8 = if elapsed(now_ms, self.last_can_ms) > self.deadlines.can_ms.saturating_add(
            flash_allowance,
        ) {
            StalledSubsystems::CAN
        } else {
            0
        };
        let stalled = controller | pd_bus | can;
        let stalled = StalledSubsystems(stalled);
        if stalled.is_empty() {
            SupervisorDecision::FeedWatchdog
        } else {
            SupervisorDecision::WithholdWatchdog { stalled }
        }
    }
}

/// A subsystem whose counter stood still for longer than its deadline plus
/// any flash allowance is reported stalled, and then the watchdog is not fed;
/// the flash allowance extends a deadline by a bounded amount only.
pub proof fn lemma_stalled_subsystem_withholds_watchdog(s: SupervisorModel, now_ms: u32, flash_active: bool)
    ensures
        ({
            let allowance = if flash_active {
                s.deadlines.flash_allowance_ms
            } else {
                0
            };
            &&& overdue(now_ms, s.last_controller_ms, s.deadlines.controller_ms, allowance) ==> stalled_bits(
                s,
                now_ms,
                flash_active,
            ) & 1 != 0
            &&& overdue(now_ms, s.last_pd_bus_ms, s.deadlines.pd_bus_ms, allowance) ==> stalled_bits(
                s,
                now_ms,
                flash_active,
            ) & 2 != 0
            &&& overdue(now_ms, s.last_can_ms, s.deadlines.can_ms, allowance) ==> stalled_bits(
                s,
                now_ms,
                flash_active,
            ) & 4 != 0
            &&& stalled_bits(s, now_ms, flash_active) == 0 <==> (!overdue(
                now_ms,
                s.last_controller_ms,
                s.deadlines.controller_ms,
                allowance,
            ) && !overdue(now_ms, s.last_pd_bus_ms, s.deadlines.pd_bus_ms, allowance) && !overdue(
                now_ms,
                s.last_can_ms,
                s.deadlines.can_ms,
                allowance,
            ))
        }),
{
    let allowance = if flash_active {
        s.deadlines.flash_allowance_ms
    } else {
        0
    };
    let a: u8 = if overdue(now_ms, s.last_controller_ms, s.deadlines.controller_ms, allowance) {
        1u8
    } else {
        0u8
    };
    let b: u8 = if overdue(now_ms, s.last_pd_bus_ms, s.deadlines.pd_bus_ms, allowance) {
        2u8
    } else {
        0u8
    };
    let c: u8 = if overdue(now_ms, s.last_can_ms, s.deadlines.can_ms, allowance) {
        4u8
    } else {
        0u8
    };
    assert((a == 0 || a == 1) && (b == 0 || b == 2) && (c == 0 || c == 4) ==> {
        &&& (a == 1 ==> (a | b | c) & 1 != 0)
        &&& (b == 2 ==> (a | b | c) & 2 != 0)
        &&& (c == 4 ==> (a | b | c) & 4 != 0)
        &&& ((a | b | c) == 0 <==> (a == 0 && b == 0 && c == 0))
    }) by (bit_vector);
}

/// One of the supervised subsystems.
pub enum Subsystem {
    Controller,
    PdBus,
    Can,
}

pub open spec fn counter(p: ProgressSnapshot, x: Subsystem) -> u32 {
    match x {
        Subsystem::Controller => p.controller,
        Subsystem::PdBus => p.pd_bus,
        Subsystem::Can => p.can,
    }
}

pub open spec fn last_ms(s: SupervisorModel, x: Subsystem) -> u32 {
    match x {
        Subsystem::Controller => s.last_controller_ms,
        Subsystem::PdBus => s.last_pd_bus_ms,
        Subsystem::Can => s.last_can_ms,
    }
}

pub open spec fn zero_progress() -> ProgressSnapshot {
    ProgressSnapshot { controller: 0, pd_bus: 0, can: 0 }
}

/// The supervisor that `Supervisor::new(deadlines, t0)` makes.
pub open spec fn supervisor_start(deadlines: ProgressDeadlines, t0: u32) -> SupervisorModel {
    SupervisorModel {
        deadlines,
        last: zero_progress(),
        last_controller_ms: t0,
        last_pd_bus_ms: t0,
        last_can_ms: t0,
    }
}

/// The supervisor after `evaluate` was called with each `(now_ms, progress)`
/// of `calls` in turn.
pub open spec fn run_supervisor(s: SupervisorModel, calls: Seq<(u32, ProgressSnapshot)>) -> SupervisorModel
    decreases calls.len(),
{
    if calls.len() == 0 {
        s
    } else {
        spec_observe(run_supervisor(s, calls.drop_last()), calls.last().0, calls.last().1)
    }
}

/// The counters of the latest call, or zero before any.
pub open spec fn latest_progress(calls: Seq<(u32, ProgressSnapshot)>) -> ProgressSnapshot {
    if calls.len() == 0 {
        zero_progress()
    } else {
        calls.last().1
    }
}

/// When subsystem `x` last made progress in `calls`: the time of the latest
/// call whose counter for `x` differed from the call before it (the first
/// call is compared with zero), or `t0` if no call changed it.
pub open spec fn last_change(t0: u32, calls: Seq<(u32, ProgressSnapshot)>, x: Subsystem) -> u32
    decreases calls.len(),
{
    if calls.len() == 0 {
        t0
    } else if counter(calls.last().1, x) != counter(latest_progress(calls.drop_last()), x) {
        calls.last().0
    } else {
        last_change(t0, calls.drop_last(), x)
    }
}

/// The stalled bits that the history alone determines: the bit of each
/// subsystem whose last progress lies further back than its deadline, plus
/// the flash allowance while a flash operation runs.
pub open spec fn history_stalled_bits(
    d: ProgressDeadlines,
    t0: u32,
    calls: Seq<(u32, ProgressSnapshot)>,
    now_ms: u32,
    flash_active: bool,
) -> u8 {
    let allowance = if flash_active {
        d.flash_allowance_ms
    } else {
        0
    };
    (if overdue(now_ms, last_change(t0, calls, Subsystem::Controller), d.controller_ms, allowance) {
        1u8
    } else {
        0u8
    }) | (if overdue(now_ms, last_change(t0, calls, Subsystem::PdBus), d.pd_bus_ms, allowance) {
        2u8
    } else {
        0u8
    }) | (if overdue(now_ms, last_change(t0, calls, Subsystem::Can), d.can_ms, allowance) {
        4u8
    } else {
        0u8
    })
}

/// After any history of calls, each subsystem's last-progress time is the
/// time of the latest call that changed its counter (or the start time),
/// and the supervisor remembers the latest counters and its deadlines.
pub proof fn lemma_progress_times_follow_history(d: ProgressDeadlines, t0: u32, calls: Seq<(u32, ProgressSnapshot)>)
    ensures
        ({
            let s = run_supervisor(supervisor_start(d, t0), calls);
            &&& s.deadlines == d
            &&& s.last == latest_progress(calls)
            &&& s.last_controller_ms == last_change(t0, calls, Subsystem::Controller)
            &&& s.last_pd_bus_ms == last_change(t0, calls, Subsystem::PdBus)
            &&& s.last_can_ms == last_change(t0, calls, Subsystem::Can)
        }),
    decreases calls.len(),
{
    if calls.len() > 0 {
        lemma_progress_times_follow_history(d, t0, calls.drop_last());
    }
}

/// The decision of the latest call depends on the history alone: the
/// watchdog is fed exactly when no subsystem's last progress (in the sense
/// of `last_change`) is overdue at that call, and otherwise it is withheld
/// naming exactly the overdue subsystems.
pub proof fn lemma_decision_follows_history(
    d: ProgressDeadlines,
    t0: u32,
    calls: Seq<(u32, ProgressSnapshot)>,
    flash_active: bool,
)
    requires
        calls.len() > 0,
    ensures
        stalled_bits(run_supervisor(supervisor_start(d, t0), calls), calls.last().0, flash_active)
            == history_stalled_bits(d, t0, calls, calls.last().0, flash_active),
{
    lemma_progress_times_follow_history(d, t0, calls);
}

} // verus!