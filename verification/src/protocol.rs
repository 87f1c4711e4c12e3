//! The per-device protocol state machine: it tracks the transaction phase,
//! interprets the register selected by the controller, and emits the
//! byte-exact response for each read request.

use vstd::prelude::*;

use crate::registers::{spec_register_from, spec_response, Register};

verus! {

/// The sentinel byte a desynchronized read answers with.
pub const DESYNC_BYTE: u8 = 0x00;

/// The transaction phase of one device: idle, or expecting the n-th read or
/// write byte of the transaction in progress.
#[derive(Clone, Copy, Debug, PartialEq, Eq, Structural)]
pub enum State {
    ExpectingConnect,
    ExpectingReadByte1,
    ExpectingReadByte2,
    ExpectingReadByte3,
    ExpectingReadByte4,
    ExpectingReadByte5,
    ExpectingReadByte6,
    ExpectingWriteByte1,
    ExpectingWriteByte2,
    ExpectingWriteByte3,
}

/// One emulated sensor device: the register its controller last selected and
/// the phase of the transaction in progress.
#[derive(Clone, Copy, Debug, PartialEq, Eq, Structural)]
pub struct Chip {
    pub internal_address: Register,
    pub state: State,
}

/// Which response byte a read phase asks for: phase `ExpectingReadByte(n+1)`
/// asks for byte `n`. A phase outside a read transaction asks for none.
pub open spec fn spec_read_position(state: State) -> Option<int> {
    match state {
        State::ExpectingReadByte1 => Some(0int),
        State::ExpectingReadByte2 => Some(1int),
        State::ExpectingReadByte3 => Some(2int),
        State::ExpectingReadByte4 => Some(3int),
        State::ExpectingReadByte5 => Some(4int),
        State::ExpectingReadByte6 => Some(5int),
        _ => None,
    }
}

/// The read phase that asks for byte `position` of a response.
pub open spec fn spec_read_state(position: int) -> State {
    if position == 0 {
        State::ExpectingReadByte1
    } else if position == 1 {
        State::ExpectingReadByte2
    } else if position == 2 {
        State::ExpectingReadByte3
    } else if position == 3 {
        State::ExpectingReadByte4
    } else if position == 4 {
        State::ExpectingReadByte5
    } else {
        State::ExpectingReadByte6
    }
}

/// The outcome of one read request: the device after it and the byte it
/// answers with.
///
/// In a read phase that asks for a byte the selected register's response
/// holds, the device emits that byte; after the last byte of the response it
/// returns to idle. Every other combination of phase and register is a
/// protocol desynchronization: the device resets to idle and answers with
/// the sentinel byte.
pub open spec fn spec_read_result(chip: Chip) -> (Chip, u8) {
    match spec_read_position(chip.state) {
        Some(position) => {
            let response = spec_response(chip.internal_address);
            if position < response.len() {
                let next_state = if position + 1 == response.len() {
                    State::ExpectingConnect
                } else {
                    spec_read_state(position + 1)
                };
                (Chip { internal_address: chip.internal_address, state: next_state },
                response[position])
            } else {
                (Chip { internal_address: chip.internal_address, state: State::ExpectingConnect },
                DESYNC_BYTE)
            }
        },
        None => (
            Chip { internal_address: chip.internal_address, state: State::ExpectingConnect },
            DESYNC_BYTE,
        ),
    }
}

/// The phase after one write byte: the write counter advances, and after the
/// third byte — or from any phase outside a write transaction — the device
/// returns to idle.
pub open spec fn spec_write_next(state: State) -> State {
    match state {
        State::ExpectingWriteByte1 => State::ExpectingWriteByte2,
        State::ExpectingWriteByte2 => State::ExpectingWriteByte3,
        _ => State::ExpectingConnect,
    }
}

/// The device after one write byte: the byte is reinterpreted as a register
/// selector and stored, overwriting any previous selection, and the write
/// counter advances.
pub open spec fn spec_write_result(chip: Chip, data: u8) -> Chip {
    Chip { internal_address: spec_register_from(data), state: spec_write_next(chip.state) }
}

/// The bytes that `count` consecutive read requests answer with, starting
/// from `chip`.
pub open spec fn spec_read_sequence(chip: Chip, count: nat) -> Seq<u8>
    decreases count,
{
    if count == 0 {
        Seq::empty()
    } else {
        seq![spec_read_result(chip).1] + spec_read_sequence(
            spec_read_result(chip).0,
            (count - 1) as nat,
        )
    }
}

/// The device after `count` consecutive read requests.
pub open spec fn spec_chip_after_reads(chip: Chip, count: nat) -> Chip
    decreases count,
{
    if count == 0 {
        chip
    } else {
        spec_chip_after_reads(spec_read_result(chip).0, (count - 1) as nat)
    }
}

/// Law: a device in the first read phase answers a full transaction's worth
/// of read requests with exactly the selected register's response, byte for
/// byte, and is idle again after the last one.
pub proof fn lemma_full_read_cycle(register: Register)
    requires
        register != Register::Uninitialized,
    ensures
        spec_read_sequence(
            (Chip { internal_address: register, state: State::ExpectingReadByte1 }),
            spec_response(register).len(),
        ) == spec_response(register),
        spec_chip_after_reads(
            (Chip { internal_address: register, state: State::ExpectingReadByte1 }),
            spec_response(register).len(),
        ) == (Chip { internal_address: register, state: State::ExpectingConnect }),
{
    reveal_with_fuel(spec_read_sequence, 8);
    reveal_with_fuel(spec_chip_after_reads, 8);
    let chip = Chip { internal_address: register, state: State::ExpectingReadByte1 };
    let count = spec_response(register).len();
    assert(spec_read_sequence(chip, count) =~= spec_response(register));
}

/// Law: a read request delivered to an idle device — for instance a fourth
/// consecutive read after a completed Product ID cycle — answers the
/// sentinel byte and leaves the device idle, its selection kept.
pub proof fn lemma_read_when_idle(chip: Chip)
    requires
        chip.state == State::ExpectingConnect,
    ensures
        spec_read_result(chip).1 == DESYNC_BYTE,
        spec_read_result(chip).0 == chip,
{
}

/// Law: every write byte reassigns the register selection, so of two
/// consecutive write bytes — within one write transaction or across two —
/// the second selector is the one left in effect.
pub proof fn lemma_last_write_wins(chip: Chip, first: u8, second: u8)
    ensures
        spec_write_result(spec_write_result(chip, first), second).internal_address
            == spec_register_from(second),
{
}

impl Chip {
    /// A fresh device: idle, with no register selected.
    pub fn new() -> (chip: Chip)
        ensures
            chip.state == State::ExpectingConnect,
            chip.internal_address == Register::Uninitialized,
    {
        Chip { internal_address: Register::Uninitialized, state: State::ExpectingConnect }
    }

    /// A transaction start addressed to this device. The direction flag picks
    /// the first read or write phase; the device accepts every transaction
    /// addressed to it. The bus address carried by the event plays no part in
    /// the protocol.
    pub fn on_i2c_connect(&mut self, _address: u32, read: bool) -> (accepted: bool)
        ensures
            accepted,
            final(self).internal_address == old(self).internal_address,
            final(self).state == if read {
                State::ExpectingReadByte1
            } else {
                State::ExpectingWriteByte1
            },
    {
        if read {
            self.state = State::ExpectingReadByte1;
        } else {
            self.state = State::ExpectingWriteByte1;
        }
        true
    }

    /// A read request: answers with the next byte of the selected register's
    /// response, or recovers from a desynchronized read by resetting to idle
    /// and answering with the sentinel byte.
    pub fn on_i2c_read(&mut self) -> (byte: u8)
        ensures
            *final(self) == spec_read_result(*old(self)).0,
            byte == spec_read_result(*old(self)).1,
            final(self).internal_address == old(self).internal_address,
    {
        match self.state {
            State::ExpectingReadByte1 => match self.internal_address {
                Register::ProductId => {
                    self.state = State::ExpectingReadByte2;
                    return 0x08;
                },
                Register::Measurement => {
                    self.state = State::ExpectingReadByte2;
                    return 0x65;
                },
                _ => {
                    self.state = State::ExpectingConnect;
                },
            },
            State::ExpectingReadByte2 => match self.internal_address {
                Register::ProductId => {
                    self.state = State::ExpectingReadByte3;
                    return 0x87;
                },
                Register::Measurement => {
                    self.state = State::ExpectingReadByte3;
                    return 0xD5;
                },
                _ => {
                    self.state = State::ExpectingConnect;
                },
            },
            State::ExpectingReadByte3 => match self.internal_address {
                Register::ProductId => {
                    self.state = State::ExpectingConnect;
                    return 0x5B;
                },
                Register::Measurement => {
                    self.state = State::ExpectingReadByte4;
                    return 0x52;
                },
                _ => {
                    self.state = State::ExpectingConnect;
                },
            },
            State::ExpectingReadByte4 => match self.internal_address {
                Register::Measurement => {
                    self.state = State::ExpectingReadByte5;
                    return 0x5D;
                },
                _ => {
                    self.state = State::ExpectingConnect;
                },
            },
            State::ExpectingReadByte5 => match self.internal_address {
                Register::Measurement => {
                    self.state = State::ExpectingReadByte6;
                    return 0xD1;
                },
                _ => {
                    self.state = State::ExpectingConnect;
                },
            },
            State::ExpectingReadByte6 => match self.internal_address {
                Register::Measurement => {
                    self.state = State::ExpectingConnect;
                    return 0x13;
                },
                _ => {
                    self.state = State::ExpectingConnect;
                },
            },
            _ => {
                self.state = State::ExpectingConnect;
            },
        }
        DESYNC_BYTE
    }

    /// A write byte: the byte is stored as the new register selector —
    /// every write byte reassigns the selection, so the last one wins — and
    /// the write counter advances. The byte is always accepted.
    pub fn on_i2c_write(&mut self, data: u8) -> (accepted: bool)
        ensures
            accepted,
            *final(self) == spec_write_result(*old(self), data),
    {
        self.internal_address = Register::from_address(data);
        match self.state {
            State::ExpectingWriteByte1 => {
                self.state = State::ExpectingWriteByte2;
            },
            State::ExpectingWriteByte2 => {
                self.state = State::ExpectingWriteByte3;
            },
            _ => {
                self.state = State::ExpectingConnect;
            },
        }
        true
    }

    /// A bus disconnect: a notification the device ignores, in any phase.
    pub fn on_i2c_disconnect(&mut self, _data: u8)
        ensures
            *final(self) == *old(self),
    {
    }
}

} // verus!
