//! PCA9554 I/O expander driving the carrier output enables, fail-closed.
//!
//! The device powers up with every port an input and its output latch high.
//! Initialization therefore writes the latch low before it turns the selected
//! ports into outputs. This module decides which register writes to make and
//! keeps the driver's view of the device; the application performs the
//! writes and reports back.
use vstd::prelude::*;

verus! {

pub const DEFAULT_ADDRESS: u8 = 0x20;
pub const OUTPUT_PORT_REGISTER: u8 = 0x01;
pub const CONFIGURATION_REGISTER: u8 = 0x03;

#[derive(Clone, Copy, Debug, PartialEq, Eq, Structural)]
pub enum ConfigurationError {
    NoOutputs,
    NotInitialized,
    InvalidOutputBit(u8),
    BitsOutsideOutputMask(u8),
}

#[derive(Clone, Copy, Debug, PartialEq, Eq)]
pub enum Error<E> {
    Bus(E),
    Configuration(ConfigurationError),
}

#[derive(Clone, Copy, Debug, PartialEq, Eq, Structural)]
pub struct Pca9554 {
    address: u8,
    output_mask: u8,
    output_shadow: u8,
    initialized: bool,
}

/// What a [`Pca9554`] holds.
pub struct Pca9554Model {
    pub address: u8,
    pub output_mask: u8,
    pub output_shadow: u8,
    pub initialized: bool,
}

impl View for Pca9554 {
    type V = Pca9554Model;

    closed spec fn view(&self) -> Pca9554Model {
        Pca9554Model {
            address: self.address,
            output_mask: self.output_mask,
            output_shadow: self.output_shadow,
            initialized: self.initialized,
        }
    }
}

/// The outputs after turning bit `output_bit` on or off and keeping the others.
pub open spec fn with_output(shadow: u8, output_bit: u8, enabled: bool) -> u8 {
    if enabled {
        shadow | (1u8 << output_bit)
    } else {
        shadow & !(1u8 << output_bit)
    }
}

impl Pca9554 {
    pub fn new(address: u8) -> (r: Self)
        ensures
            r@ == (Pca9554Model { address, output_mask: 0, output_shadow: 0, initialized: false }),
    {
        Pca9554 { address, output_mask: 0, output_shadow: 0, initialized: false }
    }

    pub fn default_address() -> (r: Self)
        ensures
            r@ == (Pca9554Model { address: 0x20, output_mask: 0, output_shadow: 0, initialized: false }),
    {
        Pca9554::new(DEFAULT_ADDRESS)
    }

    pub fn address(self) -> (r: u8)
        ensures
            r == self@.address,
    {
        self.address
    }

    pub fn initialized(self) -> (r: bool)
        ensures
            r == self@.initialized,
    {
        self.initialized
    }

    pub fn output_mask(self) -> (r: u8)
        ensures
            r == self@.output_mask,
    {
        self.output_mask
    }

    pub fn output_shadow(self) -> (r: u8)
        ensures
            r == self@.output_shadow,
    {
        self.output_shadow
    }

    /// Starts latching all outputs low and then making exactly the bits of
    /// `output_mask` push-pull outputs. The driver forgets any earlier
    /// configuration at once, so that it never reports initialized unless
    /// both writes, given in order as register and value, succeed and
    /// [`Self::finish_initialize`] follows.
    pub fn begin_initialize<E>(&mut self, output_mask: u8) -> (r: Result<[[u8; 2]; 2], Error<E>>)
        ensures
            output_mask == 0 ==> r == Err::<[[u8; 2]; 2], Error<E>>(
                Error::Configuration(ConfigurationError::NoOutputs),
            ) && final(self)@ == old(self)@,
            output_mask != 0 ==> {
                &&& r matches Ok(writes) && writes@ == seq![[0x01u8, 0u8], [0x03u8, !output_mask]]
                &&& final(self)@ == (Pca9554Model {
                    address: old(self)@.address,
                    output_mask: 0,
                    output_shadow: 0,
                    initialized: false,
                })
            },
    {
        if output_mask == 0 {
            return Err(Error::Configuration(ConfigurationError::NoOutputs));
        }
        self.initialized = false;
        self.output_mask = 0;
        self.output_shadow = 0;
        let writes = [[OUTPUT_PORT_REGISTER, 0u8], [CONFIGURATION_REGISTER, !output_mask]];
        assert(writes@ =~= seq![[0x01u8, 0u8], [0x03u8, !output_mask]]);
        Ok(writes)
    }

    /// Records that both initialization writes for `output_mask` succeeded.
    pub fn finish_initialize(&mut self, output_mask: u8)
        ensures
            final(self)@ == (Pca9554Model {
                address: old(self)@.address,
                output_mask,
                output_shadow: old(self)@.output_shadow,
                initialized: true,
            }),
    {
        self.output_mask = output_mask;
        self.initialized = true;
    }

    /// The write that requests the fail-closed state, available even before
    /// initialization: a low output latch.
    pub fn all_off_write(&self) -> (r: [u8; 2])
        ensures
            r@ == seq![0x01u8, 0u8],
    {
        let r = [OUTPUT_PORT_REGISTER, 0u8];
        assert(r@ =~= seq![0x01u8, 0u8]);
        r
    }

    /// The outputs to write to turn one controlled output on or off while
    /// keeping every other output as it is.
    pub fn output_update<E>(&self, output_bit: u8, enabled: bool) -> (r: Result<u8, Error<E>>)
        ensures
            !self@.initialized ==> r == Err::<u8, Error<E>>(
                Error::Configuration(ConfigurationError::NotInitialized),
            ),
            self@.initialized && (output_bit >= 8 || self@.output_mask & (1u8 << output_bit) == 0)
                ==> r == Err::<u8, Error<E>>(
                Error::Configuration(ConfigurationError::InvalidOutputBit(output_bit)),
            ),
            self@.initialized && output_bit < 8 && self@.output_mask & (1u8 << output_bit) != 0
                ==> r == Ok::<u8, Error<E>>(with_output(self@.output_shadow, output_bit, enabled)),
    {
        if !self.initialized {
            return Err(Error::Configuration(ConfigurationError::NotInitialized));
        }
        if output_bit >= 8 || self.output_mask & (1u8 << output_bit) == 0 {
            return Err(Error::Configuration(ConfigurationError::InvalidOutputBit(output_bit)));
        }
        let bit: u8 = 1u8 << output_bit;
        if enabled {
            Ok(self.output_shadow | bit)
        } else {
            Ok(self.output_shadow & !bit)
        }
    }

    /// The write that sets the controlled outputs to `outputs`; bits outside
    /// the output mask are refused before any bus transfer.
    pub fn outputs_write<E>(&self, outputs: u8) -> (r: Result<[u8; 2], Error<E>>)
        ensures
            !self@.initialized ==> r == Err::<[u8; 2], Error<E>>(
                Error::Configuration(ConfigurationError::NotInitialized),
            ),
            self@.initialized && outputs & !self@.output_mask != 0 ==> r == Err::<[u8; 2], Error<E>>(
                Error::Configuration(
                    ConfigurationError::BitsOutsideOutputMask(outputs & !self@.output_mask),
                ),
            ),
            self@.initialized && outputs & !self@.output_mask == 0 ==> (r matches Ok(w) && w@ == seq![
                0x01u8,
                outputs,
            ]),
    {
        if !self.initialized {
            return Err(Error::Configuration(ConfigurationError::NotInitialized));
        }
        let invalid = outputs & !self.output_mask;
        if invalid != 0 {
            return Err(Error::Configuration(ConfigurationError::BitsOutsideOutputMask(invalid)));
        }
        let w = [OUTPUT_PORT_REGISTER, outputs];
        assert(w@ =~= seq![0x01u8, outputs]);
        Ok(w)
    }

    /// Records that the output latch now holds `outputs`.
    pub fn outputs_written(&mut self, outputs: u8)
        ensures
            final(self)@ == (Pca9554Model { output_shadow: outputs, ..old(self)@ }),
    {
        self.output_shadow = outputs;
    }
}

/// Turning one output on or off leaves every other output bit as it was.
pub proof fn lemma_output_update_keeps_other_bits(shadow: u8, output_bit: u8, enabled: bool, other: u8)
    requires
        output_bit < 8,
        other < 8,
        other != output_bit,
    ensures
        (with_output(shadow, output_bit, enabled) >> other) & 1 == (shadow >> other) & 1,
        (with_output(shadow, output_bit, enabled) >> output_bit) & 1 == (if enabled {
            1u8
        } else {
            0u8
        }),
{
    assert(output_bit < 8 && other < 8 && other != output_bit ==> ((shadow | (1u8 << output_bit))
        >> other) & 1 == (shadow >> other) & 1) by (bit_vector);
    assert(output_bit < 8 && other < 8 && other != output_bit ==> ((shadow & !(1u8 << output_bit))
        >> other) & 1 == (shadow >> other) & 1) by (bit_vector);
    assert(output_bit < 8 ==> ((shadow | (1u8 << output_bit)) >> output_bit) & 1 == 1u8)
        by (bit_vector);
    assert(output_bit < 8 ==> ((shadow & !(1u8 << output_bit)) >> output_bit) & 1 == 0u8)
        by (bit_vector);
}

} // verus!
