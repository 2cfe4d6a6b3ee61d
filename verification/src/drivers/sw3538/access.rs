//! The register-bank protocol of the SW3538: the I2C transfers that a
//! register read or a protected write issues from the bank the driver
//! believes is selected, and the bank selected once they have all succeeded.
//! Whoever owns the bus issues the transfers in order and reports back.
use vstd::prelude::*;
use crate::drivers::sw3538::{Bank, Error, Sw3538};

verus! {

/// One I2C transfer to the controller.
#[derive(Clone, Copy, Debug, PartialEq, Eq, Structural)]
pub enum Transfer {
    /// Writes the two bytes `[wire_register, value]`.
    Write { wire_register: u8, value: u8 },
    /// Writes `[wire_register]` and reads one byte back.
    WriteRead { wire_register: u8 },
}

/// Why an access fails without a bus error.
#[derive(Clone, Copy, Debug, PartialEq, Eq, Structural)]
pub enum AccessFault {
    BankStateUnknown,
    UnsupportedRegister(u16),
}

impl AccessFault {
    pub fn to_error<E>(self) -> (r: Error<E>)
        ensures
            r == (match self {
                AccessFault::BankStateUnknown => Error::<E>::BankStateUnknown,
                AccessFault::UnsupportedRegister(register) => Error::<E>::UnsupportedRegister(register),
            }),
    {
        match self {
            AccessFault::BankStateUnknown => Error::BankStateUnknown,
            AccessFault::UnsupportedRegister(register) => Error::UnsupportedRegister(register),
        }
    }
}

/// The transfers of one register access, in the order they go on the bus.
/// The access stops at the first transfer that fails, and the bank is then
/// unknown. Once all of them have succeeded the access ends with `fault`,
/// if there is one, and `bank_after` is the bank selected.
pub struct RegisterAccess {
    pub transfers: Vec<Transfer>,
    pub fault: Option<AccessFault>,
    pub bank_after: Bank,
}

pub struct AccessModel {
    pub transfers: Seq<Transfer>,
    pub fault: Option<AccessFault>,
    pub bank_after: Bank,
}

impl View for RegisterAccess {
    type V = AccessModel;

    open spec fn view(&self) -> AccessModel {
        AccessModel { transfers: self.transfers@, fault: self.fault, bank_after: self.bank_after }
    }
}

/// The register number on the wire: its low byte.
pub open spec fn wire_register(register: u16) -> u8 {
    (register % 256) as u8
}

pub open spec fn unlock_transfers() -> Seq<Transfer> {
    seq![
        Transfer::Write { wire_register: 0x10, value: 0x20 },
        Transfer::Write { wire_register: 0x10, value: 0x40 },
        Transfer::Write { wire_register: 0x10, value: 0x80 },
    ]
}

pub open spec fn select_extended_transfer() -> Transfer {
    Transfer::Write { wire_register: 0x10, value: 0x81 }
}

pub open spec fn return_to_base_transfer() -> Transfer {
    Transfer::Write { wire_register: 0x80, value: 0 }
}

/// What returning to the base bank issues from `bank`; `None` where the
/// bank is unknown and nothing may be issued.
pub open spec fn return_transfers(bank: Bank) -> Option<Seq<Transfer>> {
    match bank {
        Bank::Base => Some(Seq::empty()),
        Bank::Extended => Some(seq![return_to_base_transfer()]),
        Bank::Unknown => None,
    }
}

pub open spec fn failed_access(bank: Bank, fault: AccessFault) -> AccessModel {
    AccessModel { transfers: Seq::empty(), fault: Some(fault), bank_after: bank }
}

/// A register read: bank selection, then one write-read of the register.
pub open spec fn spec_read_access(bank: Bank, register: u16) -> AccessModel {
    let read = Transfer::WriteRead { wire_register: wire_register(register) };
    if register <= 0x00FF {
        match return_transfers(bank) {
            Some(t) => AccessModel { transfers: t.push(read), fault: None, bank_after: Bank::Base },
            None => failed_access(bank, AccessFault::BankStateUnknown),
        }
    } else if register <= 0x014F {
        if bank == Bank::Extended {
            AccessModel { transfers: seq![read], fault: None, bank_after: Bank::Extended }
        } else {
            match return_transfers(bank) {
                Some(t) => AccessModel {
                    transfers: t + unlock_transfers() + seq![select_extended_transfer(), read],
                    fault: None,
                    bank_after: Bank::Extended,
                },
                None => failed_access(bank, AccessFault::BankStateUnknown),
            }
        }
    } else {
        failed_access(bank, AccessFault::UnsupportedRegister(register))
    }
}

/// A protected write: back to the base bank, the unlock sequence, the
/// extended bank where the register lies there, the value, and back to the
/// base bank again after an extended register.
pub open spec fn spec_write_access(bank: Bank, register: u16, value: u8) -> AccessModel {
    let write = Transfer::Write { wire_register: wire_register(register), value };
    match return_transfers(bank) {
        None => failed_access(bank, AccessFault::BankStateUnknown),
        Some(t) => if register >= 0x0100 {
            if register > 0x014F {
                AccessModel {
                    transfers: t + unlock_transfers(),
                    fault: Some(AccessFault::UnsupportedRegister(register)),
                    bank_after: Bank::Base,
                }
            } else {
                AccessModel {
                    transfers: t + unlock_transfers() + seq![
                        select_extended_transfer(),
                        write,
                        return_to_base_transfer(),
                    ],
                    fault: None,
                    bank_after: Bank::Base,
                }
            }
        } else {
            AccessModel {
                transfers: t + unlock_transfers() + seq![write],
                fault: None,
                bank_after: Bank::Base,
            }
        },
    }
}

fn push_unlock(transfers: &mut Vec<Transfer>)
    ensures
        final(transfers)@ == old(transfers)@ + unlock_transfers(),
{
    transfers.push(Transfer::Write { wire_register: 0x10, value: 0x20 });
    transfers.push(Transfer::Write { wire_register: 0x10, value: 0x40 });
    transfers.push(Transfer::Write { wire_register: 0x10, value: 0x80 });
}

/// Appends what returning to the base bank issues; `false` where the bank
/// is unknown.
fn push_return(transfers: &mut Vec<Transfer>, bank: Bank) -> (r: bool)
    ensures
        r == (return_transfers(bank) is Some),
        r ==> final(transfers)@ == old(transfers)@ + return_transfers(bank)->Some_0,
        !r ==> final(transfers)@ == old(transfers)@,
{
    match bank {
        Bank::Base => {
            assert(old(transfers)@ + Seq::<Transfer>::empty() =~= old(transfers)@);
            true
        },
        Bank::Extended => {
            transfers.push(Transfer::Write { wire_register: 0x80, value: 0 });
            true
        },
        Bank::Unknown => false,
    }
}

impl Sw3538 {
    /// The transfers that read `register`.
    pub fn read_access(&self, register: u16) -> (r: RegisterAccess)
        ensures
            r@ == spec_read_access(self.spec_bank(), register),
    {
        let read = Transfer::WriteRead { wire_register: (register % 256) as u8 };
        let mut transfers: Vec<Transfer> = Vec::new();
        if register <= 0x00FF {
            if !push_return(&mut transfers, self.bank) {
                return RegisterAccess {
                    transfers,
                    fault: Some(AccessFault::BankStateUnknown),
                    bank_after: self.bank,
                };
            }
            transfers.push(read);
            RegisterAccess { transfers, fault: None, bank_after: Bank::Base }
        } else if register <= 0x014F {
            if self.bank == Bank::Extended {
                transfers.push(read);
                assert(transfers@ =~= seq![read]);
                return RegisterAccess { transfers, fault: None, bank_after: Bank::Extended };
            }
            if !push_return(&mut transfers, self.bank) {
                return RegisterAccess {
                    transfers,
                    fault: Some(AccessFault::BankStateUnknown),
                    bank_after: self.bank,
                };
            }
            push_unlock(&mut transfers);
            transfers.push(Transfer::Write { wire_register: 0x10, value: 0x81 });
            transfers.push(read);
            proof {
                let t = return_transfers(self.spec_bank())->Some_0;
                assert(transfers@ =~= t + unlock_transfers() + seq![select_extended_transfer(), read]);
            }
            RegisterAccess { transfers, fault: None, bank_after: Bank::Extended }
        } else {
            RegisterAccess {
                transfers,
                fault: Some(AccessFault::UnsupportedRegister(register)),
                bank_after: self.bank,
            }
        }
    }

    /// The transfers that write `value` to `register` behind the unlock sequence.
    pub fn write_access(&self, register: u16, value: u8) -> (r: RegisterAccess)
        ensures
            r@ == spec_write_access(self.spec_bank(), register, value),
    {
        let write = Transfer::Write { wire_register: (register % 256) as u8, value };
        let mut transfers: Vec<Transfer> = Vec::new();
        if !push_return(&mut transfers, self.bank) {
            return RegisterAccess {
                transfers,
                fault: Some(AccessFault::BankStateUnknown),
                bank_after: self.bank,
            };
        }
        let ghost t = return_transfers(self.spec_bank())->Some_0;
        assert(transfers@ =~= t);
        push_unlock(&mut transfers);
        if register >= 0x0100 {
            if register > 0x014F {
                return RegisterAccess {
                    transfers,
                    fault: Some(AccessFault::UnsupportedRegister(register)),
                    bank_after: Bank::Base,
                };
            }
            transfers.push(Transfer::Write { wire_register: 0x10, value: 0x81 });
            transfers.push(write);
            transfers.push(Transfer::Write { wire_register: 0x80, value: 0 });
            assert(transfers@ =~= t + unlock_transfers() + seq![
                select_extended_transfer(),
                write,
                return_to_base_transfer(),
            ]);
        } else {
            transfers.push(write);
            assert(transfers@ =~= t + unlock_transfers() + seq![write]);
        }
        RegisterAccess { transfers, fault: None, bank_after: Bank::Base }
    }

    /// Records that every transfer of `access` succeeded.
    pub fn access_completed(&mut self, access: &RegisterAccess)
        ensures
            final(self).spec_address() == old(self).spec_address(),
            final(self).spec_bank() == access.bank_after,
    {
        self.bank = access.bank_after;
    }

    /// Records that a transfer failed: which bank is selected is no longer known.
    pub fn transfer_failed(&mut self)
        ensures
            final(self).spec_address() == old(self).spec_address(),
            final(self).spec_bank() == Bank::Unknown,
    {
        self.bank = Bank::Unknown;
    }
}

/// While the selected bank is unknown, no read and no write issues a
/// transfer, and each of them fails.
pub proof fn lemma_unknown_bank_issues_nothing(register: u16, value: u8)
    ensures
        spec_read_access(Bank::Unknown, register).transfers.len() == 0,
        spec_read_access(Bank::Unknown, register).fault is Some,
        spec_write_access(Bank::Unknown, register, value).transfers.len() == 0,
        spec_write_access(Bank::Unknown, register, value).fault is Some,
{
}

/// A protected write from a known bank to a supported register succeeds
/// with the unlock sequence right before the extended-bank selection or the
/// value, and leaves the base bank selected.
pub proof fn lemma_protected_write_restores_base_bank(bank: Bank, register: u16, value: u8)
    requires
        bank != Bank::Unknown,
        register <= 0x014F,
    ensures
        ({
            let a = spec_write_access(bank, register, value);
            let n = a.transfers.len();
            let tail: int = if register >= 0x0100 { 3 } else { 1 };
            &&& a.fault is None
            &&& a.bank_after == Bank::Base
            &&& n >= 3 + tail
            &&& a.transfers.subrange(n - tail - 3, n - tail) == unlock_transfers()
            &&& a.transfers[n - 1] == (if register >= 0x0100 {
                return_to_base_transfer()
            } else {
                Transfer::Write { wire_register: wire_register(register), value }
            })
        }),
{
    let a = spec_write_access(bank, register, value);
    let t = return_transfers(bank)->Some_0;
    let n = a.transfers.len();
    let tail: int = if register >= 0x0100 { 3 } else { 1 };
    assert(a.transfers.subrange(n - tail - 3, n - tail) =~= unlock_transfers());
}

/// Reading an extended register while the extended bank is selected issues
/// the read alone and keeps that bank.
pub proof fn lemma_extended_read_keeps_bank(register: u16)
    requires
        0x0100 <= register <= 0x014F,
    ensures
        spec_read_access(Bank::Extended, register).transfers == seq![
            Transfer::WriteRead { wire_register: wire_register(register) },
        ],
        spec_read_access(Bank::Extended, register).bank_after == Bank::Extended,
{
}

} // verus!
