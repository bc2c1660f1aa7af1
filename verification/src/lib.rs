//! Driver core for a four-port USB game-controller adapter.
//!
//! The crate decodes the adapter's fixed 37-byte interrupt report into
//! per-port button and axis state, maintains a per-port calibration
//! baseline that is established on connection and dropped on
//! disconnection, and clamps corrected axis values back into the
//! hardware's valid domains.  The USB transport itself (device lookup,
//! interface claim, interrupt transfers) is reached through a small set
//! of trusted wrappers around `rusb`.

pub mod adapter;
pub mod calibration;
pub mod input;
pub mod port;
pub mod range;
pub mod rumble;
pub mod slots;
pub mod usb;
