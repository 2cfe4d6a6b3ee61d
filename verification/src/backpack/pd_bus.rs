//! The decisions of the task that owns the shared I2C bus: which queued or
//! periodic work comes next, and the per-port probe that turns SW3538
//! identity reads into detections and removals. The task performs the bus
//! transfers and the waiting.
use vstd::prelude::*;

use crate::port::model::{has_bit, BoardDefinition, PortId, group_port_lemmas};

verus! {

pub const PROBE_INTERVAL_MS_PROVISIONAL: u64 = 250;
pub const MUX_RESET_PULSE_MS: u64 = 1;
pub const FAILURE_RETRY_DELAY_MS_PROVISIONAL: u64 = 100;
pub const BOARD_TEMPERATURE_INTERVAL_MS: u64 = 1_000;

/// Which command queues hold work.
#[derive(Clone, Copy, Debug, PartialEq, Eq, Structural)]
pub struct PendingBusCommands {
    pub power_emergency: bool,
    pub power_off: bool,
    pub pd_emergency: bool,
}

#[derive(Clone, Copy, Debug, PartialEq, Eq, Structural)]
pub enum BusWork {
    PowerEmergency,
    PowerOff,
    PdEmergency,
    BoardTemperature,
    Probe,
    /// Nothing is due: wait for a command or until `wake_deadline`.
    Wait,
}

/// The bus's next work, emergencies first: an all-outputs power command,
/// then a gate-off, then a USB-PD emergency disable, then a due board
/// temperature read (boards with a sensor), then a due probe.
pub fn next_bus_work(
    pending: PendingBusCommands,
    now_ms: u64,
    probe_due_ms: u64,
    temperature_due_ms: Option<u64>,
) -> (r: BusWork)
    ensures
        r == (if pending.power_emergency {
            BusWork::PowerEmergency
        } else if pending.power_off {
            BusWork::PowerOff
        } else if pending.pd_emergency {
            BusWork::PdEmergency
        } else if temperature_due_ms matches Some(due) && now_ms >= due {
            BusWork::BoardTemperature
        } else if now_ms >= probe_due_ms {
            BusWork::Probe
        } else {
            BusWork::Wait
        }),
{
    if pending.power_emergency {
        return BusWork::PowerEmergency;
    }
    if pending.power_off {
        return BusWork::PowerOff;
    }
    if pending.pd_emergency {
        return BusWork::PdEmergency;
    }
    match temperature_due_ms {
        Some(due) => {
            if now_ms >= due {
                return BusWork::BoardTemperature;
            }
        },
        None => {},
    }
    if now_ms >= probe_due_ms {
        BusWork::Probe
    } else {
        BusWork::Wait
    }
}

/// When a waiting bus must wake for periodic work: the earlier of the probe
/// and temperature deadlines.
pub fn wake_deadline(probe_due_ms: u64, temperature_due_ms: Option<u64>) -> (r: u64)
    ensures
        r == (match temperature_due_ms {
            Some(t) => if t < probe_due_ms {
                t
            } else {
                probe_due_ms
            },
            None => probe_due_ms,
        }),
{
    match temperature_due_ms {
        Some(t) => if t < probe_due_ms {
            t
        } else {
            probe_due_ms
        },
        None => probe_due_ms,
    }
}

/// A change of presence reported to the controller.
#[derive(Clone, Copy, Debug, PartialEq, Eq, Structural)]
pub enum PortEvent {
    ModuleDetected(PortId),
    ModuleRemoved(PortId),
}

/// What reading the SW3538's identity gave.
#[derive(Clone, Copy, Debug, PartialEq, Eq, Structural)]
pub enum IdentityRead {
    Found,
    /// No device acknowledged: an empty slot.
    Absent,
    /// The device's register bank is not known.
    BankUnknown,
    /// Any other failure.
    Failed,
}

/// The transfers of one probe.
#[derive(Clone, Copy, Debug, PartialEq, Eq, Structural)]
pub enum ProbeOutcome {
    SelectFailed,
    Selected { identity: IdentityRead, deselected: bool },
}

/// The probe to run for the next port, if any.
#[derive(Clone, Copy, Debug, PartialEq, Eq, Structural)]
pub enum ProbeStep {
    Skip,
    Probe {
        port: PortId,
        /// Report the first result after power-up even if it is an absence.
        report_initial: bool,
        /// Treat the device as in its base bank before reading.
        assume_base_bank: bool,
    },
}

/// Per-port presence as the probe last saw it.
#[derive(Clone, Copy, Debug, PartialEq, Eq)]
pub struct ProbeState {
    pub present: [bool; 8],
    pub observed_powered: [bool; 8],
    pub probed_since_powered: [bool; 8],
    pub next_port: u8,
}

/// Whether a probe detects a module, and whether the multiplexer must be
/// recovered afterwards. An unknown bank keeps the presence as it was.
pub open spec fn spec_detection(outcome: ProbeOutcome, was_present: bool) -> (bool, bool) {
    match outcome {
        ProbeOutcome::SelectFailed => (false, true),
        ProbeOutcome::Selected { identity, deselected } => {
            let read = match identity {
                IdentityRead::Found => (true, false),
                IdentityRead::Absent => (false, false),
                IdentityRead::BankUnknown => (was_present, true),
                IdentityRead::Failed => (false, true),
            };
            if !deselected {
                (if identity == IdentityRead::BankUnknown {
                    was_present
                } else {
                    false
                }, true)
            } else {
                read
            }
        },
    }
}

impl ProbeState {
    pub fn new() -> (r: ProbeState)
        ensures
            r.present@ == Seq::new(8, |i: int| false),
            r.observed_powered@ == Seq::new(8, |i: int| false),
            r.probed_since_powered@ == Seq::new(8, |i: int| false),
            r.next_port == 0,
    {
        let r = ProbeState {
            present: [false; 8usize],
            observed_powered: [false; 8usize],
            probed_since_powered: [false; 8usize],
            next_port: 0,
        };
        assert(r.present@ =~= Seq::new(8, |i: int| false));
        assert(r.observed_powered@ =~= Seq::new(8, |i: int| false));
        assert(r.probed_since_powered@ =~= Seq::new(8, |i: int| false));
        r
    }

    /// Take the next port in turn. A gated port without power is forgotten
    /// and skipped; one newly powered starts over, absent and in its base
    /// bank.
    pub fn begin_probe(&mut self, board: BoardDefinition, powered_ports: u8) -> (r: ProbeStep)
        ensures
            ({
                let p = (old(self).next_port % 8) as int;
                let o = *old(self);
                let f = *final(self);
                &&& f.next_port == (if p == 7 {
                    0
                } else {
                    p + 1
                })
                &&& if !board.spec_supports(p) {
                    r == ProbeStep::Skip && f.present == o.present && f.observed_powered
                        == o.observed_powered && f.probed_since_powered == o.probed_since_powered
                } else if board.spec_gated(p) && !has_bit(powered_ports, p) {
                    &&& r == ProbeStep::Skip
                    &&& f.present@ == o.present@.update(p, false)
                    &&& f.observed_powered@ == o.observed_powered@.update(p, false)
                    &&& f.probed_since_powered@ == o.probed_since_powered@.update(p, false)
                } else {
                    let fresh = board.spec_gated(p) && !o.observed_powered@[p];
                    &&& f.present@ == (if fresh {
                        o.present@.update(p, false)
                    } else {
                        o.present@
                    })
                    &&& f.observed_powered@ == (if fresh {
                        o.observed_powered@.update(p, true)
                    } else {
                        o.observed_powered@
                    })
                    &&& f.probed_since_powered@ == (if fresh {
                        o.probed_since_powered@.update(p, false)
                    } else {
                        o.probed_since_powered@
                    })
                    &&& r == ProbeStep::Probe {
                        port: PortId::spec_new(p as u8),
                        report_initial: board.spec_gated(p) && (fresh
                            || !o.probed_since_powered@[p]),
                        assume_base_bank: fresh || !o.present@[p],
                    }
                }
            }),
    {
        broadcast use group_port_lemmas;

        let raw = self.next_port % 8;
        self.next_port = if raw == 7 { 0 } else { raw + 1 };
        let port = PortId::new(raw).unwrap();
        proof {
            PortId::lemma_new_get(raw);
        }
        let i = port.index();
        if !board.supports(port) {
            return ProbeStep::Skip;
        }
        let gated = board.power_gate_bit(port).is_some();
        let mut fresh = false;
        if gated {
            let bit: u8 = 1u8 << raw;
            let powered = powered_ports & bit != 0;
            assert(powered == has_bit(powered_ports, raw as int)) by (bit_vector)
                requires
                    raw < 8,
                    bit == 1u8 << raw,
                    powered == (powered_ports & bit != 0),
            ;
            if !powered {
                self.observed_powered[i] = false;
                self.probed_since_powered[i] = false;
                self.present[i] = false;
                return ProbeStep::Skip;
            }
            if !self.observed_powered[i] {
                self.observed_powered[i] = true;
                self.probed_since_powered[i] = false;
                self.present[i] = false;
                fresh = true;
            }
        }
        ProbeStep::Probe {
            port,
            report_initial: gated && !self.probed_since_powered[i],
            assume_base_bank: fresh || !self.present[i],
        }
    }

    /// Record what a probe of `port` found. Reports a change of presence, or
    /// an initial absence after power-up, and says whether the multiplexer
    /// needs recovery.
    pub fn finish_probe(&mut self, port: PortId, report_initial: bool, outcome: ProbeOutcome) -> (r: (
        Option<PortEvent>,
        bool,
    ))
        ensures
            ({
                let p = port.spec_get() as int;
                let was = old(self).present@[p];
                let (detected, recover) = spec_detection(outcome, was);
                let report = detected != was || (report_initial && !detected);
                &&& r.1 == recover
                &&& r.0 == (if !report {
                    None
                } else if detected {
                    Some(PortEvent::ModuleDetected(port))
                } else {
                    Some(PortEvent::ModuleRemoved(port))
                })
                &&& final(self).present@ == old(self).present@.update(p, if report {
                    detected
                } else {
                    was
                })
                &&& final(self).probed_since_powered@ == old(self).probed_since_powered@.update(p, true)
                &&& final(self).observed_powered == old(self).observed_powered
                &&& final(self).next_port == old(self).next_port
            }),
    {
        let i = port.index();
        let was = self.present[i];
        let (detected, recover) = match outcome {
            ProbeOutcome::SelectFailed => (false, true),
            ProbeOutcome::Selected { identity, deselected } => {
                let read = match identity {
                    IdentityRead::Found => (true, false),
                    IdentityRead::Absent => (false, false),
                    IdentityRead::BankUnknown => (was, true),
                    IdentityRead::Failed => (false, true),
                };
                if !deselected {
                    (if identity == IdentityRead::BankUnknown {
                        was
                    } else {
                        false
                    }, true)
                } else {
                    read
                }
            },
        };
        let event = if detected != was || (report_initial && !detected) {
            self.present[i] = detected;
            if detected {
                Some(PortEvent::ModuleDetected(port))
            } else {
                Some(PortEvent::ModuleRemoved(port))
            }
        } else {
            None
        };
        self.probed_since_powered[i] = true;
        (event, recover)
    }
}

} // verus!
