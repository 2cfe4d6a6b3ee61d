//! TCA9548A I2C multiplexer: the control byte written to select at most
//! one downstream channel, and the check of the selection read back.
//! The bus owner issues the transfers.
use vstd::prelude::*;

use crate::port::model::{BoardDefinition, PortId};

verus! {

pub const DEFAULT_ADDRESS: u8 = 0x70;

/// The control byte that disconnects every channel.
pub const DESELECT_ALL: u8 = 0;

#[derive(Clone, Copy, Debug, PartialEq, Eq)]
pub enum Error<E> {
    Bus(E),
    /// A port that the board cannot route through the multiplexer.
    Selection(ChannelSelectionError),
    /// A selection that connects more than one channel.
    InvalidSelectionReadback(u8),
}

/// How many of the eight channels a control byte connects.
pub open spec fn channels_selected(selection: nat) -> nat
    decreases selection,
{
    if selection == 0 {
        0
    } else {
        (selection % 2) + channels_selected(selection / 2)
    }
}

fn count_channels(selection: u8) -> (r: u8)
    ensures
        r == channels_selected(selection as nat),
{
    let mut count: u8 = 0;
    let mut rest: u8 = selection;
    while rest > 0
        invariant
            count + channels_selected(rest as nat) == channels_selected(selection as nat),
            count + rest <= selection,
        decreases rest,
    {
        count = count + rest % 2;
        rest = rest / 2;
    }
    count
}

#[derive(Clone, Copy, Debug, PartialEq, Eq, Structural)]
pub struct Tca9548a {
    address: u8,
}

impl Tca9548a {
    pub closed spec fn spec_address(self) -> u8 {
        self.address
    }

    pub fn new(address: u8) -> (r: Self)
        ensures
            r.spec_address() == address,
    {
        Tca9548a { address }
    }

    pub fn default_address() -> (r: Self)
        ensures
            r.spec_address() == DEFAULT_ADDRESS,
    {
        Tca9548a::new(DEFAULT_ADDRESS)
    }

    pub fn address(self) -> (r: u8)
        ensures
            r == self.spec_address(),
    {
        self.address
    }

    /// The one-byte write that applies `selection`, refused where it would
    /// connect more than one channel.
    pub fn selection_write<E>(self, selection: u8) -> (r: Result<[u8; 1], Error<E>>)
        ensures
            channels_selected(selection as nat) > 1 ==> r == Err::<[u8; 1], Error<E>>(
                Error::InvalidSelectionReadback(selection),
            ),
            channels_selected(selection as nat) <= 1 ==> (r matches Ok(bytes) && bytes@ == seq![selection]),
    {
        if count_channels(selection) > 1 {
            return Err(Error::InvalidSelectionReadback(selection));
        }
        let bytes = [selection];
        assert(bytes@ =~= seq![selection]);
        Ok(bytes)
    }

    /// The write that disconnects every channel.
    pub fn deselect_all_write(self) -> (r: [u8; 1])
        ensures
            r@ == seq![0u8],
    {
        let bytes = [DESELECT_ALL];
        assert(bytes@ =~= seq![0u8]);
        bytes
    }

    /// A selection read back from the multiplexer, refused where it
    /// connects more than one channel.
    pub fn check_selection<E>(self, readback: u8) -> (r: Result<u8, Error<E>>)
        ensures
            r == (if channels_selected(readback as nat) > 1 {
                Err::<u8, Error<E>>(Error::InvalidSelectionReadback(readback))
            } else {
                Ok(readback)
            }),
    {
        if count_channels(readback) > 1 {
            Err(Error::InvalidSelectionReadback(readback))
        } else {
            Ok(readback)
        }
    }
}

/// The selection that connects exactly channel `channel` is accepted, and
/// so is the one that connects none.
pub proof fn lemma_single_channels_are_selectable(channel: u8)
    requires
        channel < 8,
    ensures
        channels_selected(pow2_u8(channel) as nat) == 1,
        channels_selected(0) == 0,
{
    reveal_with_fuel(channels_selected, 9);
}

pub open spec fn pow2_u8(channel: u8) -> u8 {
    if channel == 0 {
        1
    } else if channel == 1 {
        2
    } else if channel == 2 {
        4
    } else if channel == 3 {
        8
    } else if channel == 4 {
        16
    } else if channel == 5 {
        32
    } else if channel == 6 {
        64
    } else {
        128
    }
}

#[derive(Clone, Copy, Debug, PartialEq, Eq, Structural)]
pub enum ChannelSelectionError {
    UnsupportedPort(PortId),
    InvalidMuxChannel(u8),
}

/// The control byte that connects `port`'s multiplexer channel alone.
pub fn selection_for_port(board: BoardDefinition, port: PortId) -> (r: Result<u8, ChannelSelectionError>)
    ensures
        r == (match board.spec_mux_channel(port.spec_get() as int) {
            None => Err(ChannelSelectionError::UnsupportedPort(port)),
            Some(channel) => if channel >= 8 {
                Err(ChannelSelectionError::InvalidMuxChannel(channel))
            } else {
                Ok(pow2_u8(channel))
            },
        }),
{
    if !board.supports(port) {
        return Err(ChannelSelectionError::UnsupportedPort(port));
    }
    let channel = match board.mux_channel(port) {
        Some(channel) => channel,
        None => {
            return Err(ChannelSelectionError::UnsupportedPort(port));
        },
    };
    if channel >= 8 {
        return Err(ChannelSelectionError::InvalidMuxChannel(channel));
    }
    let r: u8 = 1u8 << channel;
    assert(r == pow2_u8(channel)) by (bit_vector)
        requires
            channel < 8,
            r == 1u8 << channel,
    ;
    Ok(r)
}

} // verus!
