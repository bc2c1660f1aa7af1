//! Force-feedback writes: a lightweight handle sharing the adapter's
//! device, issuing one full four-port motor command per call.

use vstd::prelude::*;
use crate::adapter::DriverError;
use crate::usb::{self, UsbHandle, ALLOWED_TIMEOUT_MS};

verus! {

/// Leading byte of the rumble command.
pub const RUMBLE_COMMAND: u8 = 0x11;

/// The status byte one motor's desired state encodes.
pub open spec fn spec_motor_byte(on: bool) -> u8 {
    if on {
        1u8
    } else {
        0u8
    }
}

/// The full four-port rumble command: the command byte, then one
/// status byte per port in channel order.
pub open spec fn spec_rumble_command(states: [bool; 4]) -> Seq<u8> {
    seq![
        RUMBLE_COMMAND,
        spec_motor_byte(states[0]),
        spec_motor_byte(states[1]),
        spec_motor_byte(states[2]),
        spec_motor_byte(states[3]),
    ]
}

/// A handle for force-feedback writes, sharing the adapter's device
/// handle and OUT endpoint.  It keeps no state of its own: every call
/// carries all four ports' desired motor state.
pub struct Rumbler {
    handle: UsbHandle,
    endpoint_out: u8,
}

impl Rumbler {
    pub closed spec fn spec_handle(self) -> UsbHandle {
        self.handle
    }

    pub closed spec fn spec_endpoint_out(self) -> u8 {
        self.endpoint_out
    }

    pub(crate) fn new(handle: UsbHandle, endpoint_out: u8) -> (r: Rumbler)
        ensures
            r.spec_handle() == handle,
            r.spec_endpoint_out() == endpoint_out,
    {
        Rumbler { handle, endpoint_out }
    }

    /// Builds the command buffer for the four desired motor states.
    pub fn command(states: [bool; 4]) -> (r: [u8; 5])
        ensures
            r@ == spec_rumble_command(states),
    {
        let r: [u8; 5] = [
            RUMBLE_COMMAND,
            if states[0] { 1 } else { 0 },
            if states[1] { 1 } else { 0 },
            if states[2] { 1 } else { 0 },
            if states[3] { 1 } else { 0 },
        ];
        proof {
            assert(r@ =~= spec_rumble_command(states));
        }
        r
    }

    /// Sets all four ports' rumble motors in one interrupt-OUT write;
    /// any failure is a transport error.
    pub fn set_rumble(&self, states: [bool; 4]) -> (r: Result<(), DriverError>)
        ensures
            r is Err ==> r matches Err(DriverError::Rusb(_)),
    {
        let command = Self::command(states);
        match usb::write_interrupt(&self.handle, self.endpoint_out, &command, ALLOWED_TIMEOUT_MS) {
            Ok(_) => Ok(()),
            Err(e) => Err(DriverError::Rusb(e)),
        }
    }

    /// Turns all four motors off.
    pub fn reset_rumble(&self) -> (r: Result<(), DriverError>)
        ensures
            r is Err ==> r matches Err(DriverError::Rusb(_)),
    {
        self.set_rumble([false, false, false, false])
    }
}

} // verus!
