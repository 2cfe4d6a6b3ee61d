//! The commands that carry the port controller's actions to the tasks that
//! execute them, and the completions that come back. Each command keeps the
//! operation, port and slot epoch that let the controller recognise a stale
//! completion.
use vstd::prelude::*;

use crate::port::controller::{Action, CompletionOutcome, PdActionKind, PowerOutputsActionKind};
use crate::port::model::{ConfigRevision, OperationId, PersistentSettings, PortId, SlotEpoch};

verus! {

#[derive(Clone, Copy, Debug, PartialEq, Eq)]
pub struct PdBusCommand {
    pub operation: OperationId,
    pub port: PortId,
    pub slot_epoch: SlotEpoch,
    pub kind: PdActionKind,
}

#[derive(Clone, Copy, Debug, PartialEq, Eq)]
pub struct PersistCommand {
    pub revision: ConfigRevision,
    pub settings: PersistentSettings,
}

#[derive(Clone, Copy, Debug, PartialEq, Eq)]
pub struct PowerGateCommand {
    pub operation: OperationId,
    pub port: PortId,
    pub slot_epoch: SlotEpoch,
    pub output_bit: u8,
    pub enabled: bool,
}

#[derive(Clone, Copy, Debug, PartialEq, Eq)]
pub struct PowerOutputsCommand {
    pub operation: OperationId,
    pub kind: PowerOutputsActionKind,
}

#[derive(Clone, Copy, Debug, PartialEq, Eq)]
pub enum PowerCommand {
    Gate(PowerGateCommand),
    Outputs(PowerOutputsCommand),
}

#[derive(Clone, Copy, Debug, PartialEq, Eq)]
pub enum ExecutorCommand {
    Pd(PdBusCommand),
    Persist(PersistCommand),
    PowerGate(PowerGateCommand),
    PowerOutputs(PowerOutputsCommand),
}

/// The command that carries `action`, field for field.
pub open spec fn spec_command_of(action: Action) -> ExecutorCommand {
    match action {
        Action::Pd { operation, port, slot_epoch, kind } => ExecutorCommand::Pd(
            PdBusCommand { operation, port, slot_epoch, kind },
        ),
        Action::PersistConfig { revision, settings } => ExecutorCommand::Persist(
            PersistCommand { revision, settings },
        ),
        Action::PowerGate { operation, port, slot_epoch, output_bit, enabled } => ExecutorCommand::PowerGate(
            PowerGateCommand { operation, port, slot_epoch, output_bit, enabled },
        ),
        Action::PowerOutputs { operation, kind } => ExecutorCommand::PowerOutputs(
            PowerOutputsCommand { operation, kind },
        ),
    }
}

impl From<Action> for ExecutorCommand {
    fn from(action: Action) -> (r: ExecutorCommand) {
        match action {
            Action::Pd { operation, port, slot_epoch, kind } => ExecutorCommand::Pd(
                PdBusCommand { operation, port, slot_epoch, kind },
            ),
            Action::PersistConfig { revision, settings } => ExecutorCommand::Persist(
                PersistCommand { revision, settings },
            ),
            Action::PowerGate { operation, port, slot_epoch, output_bit, enabled } => ExecutorCommand::PowerGate(
                PowerGateCommand { operation, port, slot_epoch, output_bit, enabled },
            ),
            Action::PowerOutputs { operation, kind } => ExecutorCommand::PowerOutputs(
                PowerOutputsCommand { operation, kind },
            ),
        }
    }
}

impl vstd::std_specs::convert::FromSpecImpl<Action> for ExecutorCommand {
    open spec fn obeys_from_spec() -> bool {
        true
    }

    open spec fn from_spec(action: Action) -> ExecutorCommand {
        spec_command_of(action)
    }
}

/// The command for `action`.
pub fn command_for(action: Action) -> (r: ExecutorCommand)
    ensures
        r == spec_command_of(action),
{
    ExecutorCommand::from(action)
}

#[derive(Clone, Copy, Debug, PartialEq, Eq)]
pub enum ControllerCompletion {
    Pd { operation: OperationId, port: PortId, slot_epoch: SlotEpoch, outcome: CompletionOutcome },
    Persist { revision: ConfigRevision, outcome: CompletionOutcome },
    PowerGate {
        operation: OperationId,
        port: PortId,
        slot_epoch: SlotEpoch,
        enabled: bool,
        outcome: CompletionOutcome,
    },
    PowerOutputs { operation: OperationId, kind: PowerOutputsActionKind, outcome: CompletionOutcome },
}

} // verus!
