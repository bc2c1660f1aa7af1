//! The fixed-layout report codec: decoding one port's slice of the raw
//! 37-byte report into digital and analog controller state.

use vstd::prelude::*;
use crate::port::Port;
use crate::range::STICK_CENTER;

verus! {

/// Length of one raw interrupt report.
pub const PAYLOAD_SIZE: usize = 37;

/// Value the report's leading type byte must carry.
pub const REPORT_TAG: u8 = 0x21;

/// Decoded per-port controller state: twelve button flags and six
/// unsigned analog channels.
#[derive(Debug, Copy, Clone, PartialEq, Eq, Structural)]
pub struct Input {
    pub button_a: bool,
    pub button_b: bool,
    pub button_x: bool,
    pub button_y: bool,

    pub button_left: bool,
    pub button_right: bool,
    pub button_down: bool,
    pub button_up: bool,

    pub button_start: bool,
    pub button_z: bool,
    pub button_r: bool,
    pub button_l: bool,

    pub stick_x: u8,
    pub stick_y: u8,
    pub substick_x: u8,
    pub substick_y: u8,
    pub trigger_left: u8,
    pub trigger_right: u8,
}

/// Offset of a port's nine-byte slice within the report: one tag byte,
/// then a fixed stride per channel.
pub open spec fn spec_port_base(chan: int) -> int {
    1 + 9 * chan
}

/// The high nibble of a port's status byte: 0 when nothing is plugged,
/// 1 for a wired and 2 for a wireless controller.
pub open spec fn spec_status_nibble(payload: Seq<u8>, chan: int) -> u8 {
    payload[spec_port_base(chan)] >> 4
}

/// Whether the report shows a controller on the channel.
pub open spec fn spec_connected(payload: Seq<u8>, chan: int) -> bool {
    spec_status_nibble(payload, chan) != 0
}

/// The uncalibrated state a port's slice of the report encodes.
pub open spec fn spec_decode(payload: Seq<u8>, chan: int) -> Input {
    let b1 = payload[spec_port_base(chan) + 1];
    let b2 = payload[spec_port_base(chan) + 2];
    Input {
        button_a: b1 & 0x01 != 0,
        button_b: b1 & 0x02 != 0,
        button_x: b1 & 0x04 != 0,
        button_y: b1 & 0x08 != 0,

        button_left: b1 & 0x10 != 0,
        button_right: b1 & 0x20 != 0,
        button_down: b1 & 0x40 != 0,
        button_up: b1 & 0x80 != 0,

        button_start: b2 & 0x01 != 0,
        button_z: b2 & 0x02 != 0,
        button_r: b2 & 0x04 != 0,
        button_l: b2 & 0x08 != 0,

        stick_x: payload[spec_port_base(chan) + 3],
        stick_y: payload[spec_port_base(chan) + 4],
        substick_x: payload[spec_port_base(chan) + 5],
        substick_y: payload[spec_port_base(chan) + 6],
        trigger_left: payload[spec_port_base(chan) + 7],
        trigger_right: payload[spec_port_base(chan) + 8],
    }
}

impl Input {
    /// Decodes one port's slice of a raw report.  The result depends on
    /// the report bytes and the port alone.
    pub fn parse(payload: &[u8; PAYLOAD_SIZE], port: Port) -> (r: Input)
        ensures
            r == spec_decode(payload@, port.spec_channel()),
    {
        let chan = port.channel();
        let base: usize = 1 + 9 * chan;
        let b1 = payload[base + 1];
        let b2 = payload[base + 2];

        Input {
            button_a: b1 & 0x01 != 0,
            button_b: b1 & 0x02 != 0,
            button_x: b1 & 0x04 != 0,
            button_y: b1 & 0x08 != 0,

            button_left: b1 & 0x10 != 0,
            button_right: b1 & 0x20 != 0,
            button_down: b1 & 0x40 != 0,
            button_up: b1 & 0x80 != 0,

            button_start: b2 & 0x01 != 0,
            button_z: b2 & 0x02 != 0,
            button_r: b2 & 0x04 != 0,
            button_l: b2 & 0x08 != 0,

            stick_x: payload[base + 3],
            stick_y: payload[base + 4],
            substick_x: payload[base + 5],
            substick_y: payload[base + 6],
            trigger_left: payload[base + 7],
            trigger_right: payload[base + 8],
        }
    }

    /// The resting state: sticks centered, triggers released, no
    /// buttons pressed.
    pub open spec fn spec_default() -> Input {
        Input {
            button_a: false,
            button_b: false,
            button_x: false,
            button_y: false,

            button_left: false,
            button_right: false,
            button_down: false,
            button_up: false,

            button_start: false,
            button_z: false,
            button_r: false,
            button_l: false,

            stick_x: STICK_CENTER,
            stick_y: STICK_CENTER,
            substick_x: STICK_CENTER,
            substick_y: STICK_CENTER,
            trigger_left: 0,
            trigger_right: 0,
        }
    }
}

impl Default for Input {
    fn default() -> (r: Input)
        ensures
            r == Input::spec_default(),
    {
        Input {
            button_a: false,
            button_b: false,
            button_x: false,
            button_y: false,

            button_left: false,
            button_right: false,
            button_down: false,
            button_up: false,

            button_start: false,
            button_z: false,
            button_r: false,
            button_l: false,

            stick_x: STICK_CENTER,
            stick_y: STICK_CENTER,
            substick_x: STICK_CENTER,
            substick_y: STICK_CENTER,
            trigger_left: 0,
            trigger_right: 0,
        }
    }
}

} // verus!
