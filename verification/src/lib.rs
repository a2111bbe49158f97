//! Core of a bridge that exposes a media-playback daemon as a remotely
//! observable and controllable thing.
//!
//! The library holds the verified logic: the property store with its
//! diff-and-publish rule, command validation and the idempotent transition
//! table, planning of random enqueues, playlist snapshot formatting, and the
//! poller cycle that turns device readings into notifications.  All device
//! I/O and the exposure protocol live outside, handing the library plain
//! values and carrying its decisions back to the device.

pub mod model;
pub mod store;
pub mod command;
pub mod playlist;
pub mod poller;
