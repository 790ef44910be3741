//! Resource-coordination core for a small networked camera device.
//!
//! The crate verifies the logic that coordinates a camera sensor, a
//! strobe/flash output line, removable storage and a Wi-Fi radio behind an
//! HTTP interface: the bounded connectivity bringup, the scoped actuator
//! guard that can never leave the flash lit, the exclusive registry slot
//! that serializes snapshot operations, the request dispatcher, and the
//! storage-browse and time-service payload logic.  Hardware and transport
//! collaborators are modelled at their interface boundary as plain values.

pub mod bytes;
pub mod wifi;
pub mod flash;
pub mod camera;
pub mod registry;
pub mod storage;
pub mod snapshot;
pub mod timesvc;
pub mod dispatch;
