//! The device registry: it owns every device instance for the process
//! lifetime, hands out stable integer handles, and dispatches bus events to
//! the device a handle names.

use vstd::prelude::*;

use crate::protocol::{spec_read_result, spec_write_result, Chip, State};
use crate::registers::Register;

verus! {

/// An append-only collection of devices, each addressable by the handle
/// issued when it was created: its position in the registry.
///
/// An event delivered with a handle that no creation ever returned is a
/// host-integration fault, answered with `None` and no state change — never
/// with a defaulted device.
pub struct Registry {
    devices: Vec<Chip>,
}

impl Registry {
    /// The devices the registry holds, in order of creation.
    pub closed spec fn view(self) -> Seq<Chip> {
        self.devices@
    }

    /// A handle names a device exactly when some creation returned it.
    pub open spec fn spec_valid_handle(self, handle: usize) -> bool {
        handle < self@.len()
    }

    /// An empty registry, holding no devices.
    pub fn new() -> (registry: Registry)
        ensures
            registry@ == Seq::<Chip>::empty(),
    {
        Registry { devices: Vec::new() }
    }

    /// Appends a fresh idle device and returns its handle, stable for the
    /// registry's lifetime.
    pub fn create_device(&mut self) -> (handle: usize)
        ensures
            handle == old(self)@.len(),
            final(self)@ == old(self)@.push(
                Chip { internal_address: Register::Uninitialized, state: State::ExpectingConnect },
            ),
            final(self).spec_valid_handle(handle),
    {
        let handle = self.devices.len();
        self.devices.push(Chip::new());
        handle
    }

    /// Delivers a transaction start to the device `handle` names; `None` for
    /// an unknown handle.
    pub fn on_i2c_connect(&mut self, handle: usize, address: u32, read: bool) -> (accepted: Option<
        bool,
    >)
        ensures
            accepted is Some <==> old(self).spec_valid_handle(handle),
            !old(self).spec_valid_handle(handle) ==> *final(self) == *old(self),
            old(self).spec_valid_handle(handle) ==> ({
                &&& accepted == Some(true)
                &&& final(self)@ == old(self)@.update(
                    handle as int,
                    (Chip {
                        internal_address: old(self)@[handle as int].internal_address,
                        state: if read {
                            State::ExpectingReadByte1
                        } else {
                            State::ExpectingWriteByte1
                        },
                    }),
                )
            }),
    {
        if handle < self.devices.len() {
            let chip = &mut self.devices[handle];
            Some(chip.on_i2c_connect(address, read))
        } else {
            None
        }
    }

    /// Delivers a read request to the device `handle` names and returns its
    /// response byte; `None` for an unknown handle.
    pub fn on_i2c_read(&mut self, handle: usize) -> (byte: Option<u8>)
        ensures
            byte is Some <==> old(self).spec_valid_handle(handle),
            !old(self).spec_valid_handle(handle) ==> *final(self) == *old(self),
            old(self).spec_valid_handle(handle) ==> ({
                &&& byte == Some(spec_read_result(old(self)@[handle as int]).1)
                &&& final(self)@ == old(self)@.update(
                    handle as int,
                    spec_read_result(old(self)@[handle as int]).0,
                )
            }),
    {
        if handle < self.devices.len() {
            let chip = &mut self.devices[handle];
            Some(chip.on_i2c_read())
        } else {
            None
        }
    }

    /// Delivers a write byte to the device `handle` names; `None` for an
    /// unknown handle.
    pub fn on_i2c_write(&mut self, handle: usize, data: u8) -> (accepted: Option<bool>)
        ensures
            accepted is Some <==> old(self).spec_valid_handle(handle),
            !old(self).spec_valid_handle(handle) ==> *final(self) == *old(self),
            old(self).spec_valid_handle(handle) ==> ({
                &&& accepted == Some(true)
                &&& final(self)@ == old(self)@.update(
                    handle as int,
                    spec_write_result(old(self)@[handle as int], data),
                )
            }),
    {
        if handle < self.devices.len() {
            let chip = &mut self.devices[handle];
            Some(chip.on_i2c_write(data))
        } else {
            None
        }
    }

    /// Delivers a bus disconnect to the device `handle` names. The device
    /// ignores it in every phase, so the registry never changes; the result
    /// only tells an unknown handle apart from a delivered event.
    pub fn on_i2c_disconnect(&mut self, handle: usize, data: u8) -> (delivered: Option<()>)
        ensures
            delivered is Some <==> old(self).spec_valid_handle(handle),
            final(self)@ == old(self)@,
    {
        if handle < self.devices.len() {
            let chip = &mut self.devices[handle];
            chip.on_i2c_disconnect(data);
            proof {
                assert(self.devices@ =~= old(self).devices@);
            }
            Some(())
        } else {
            None
        }
    }
}

} // verus!
