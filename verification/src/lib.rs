//! Mapping of Steam Deck controller events to a virtual keyboard and a
//! virtual trackpad.
//!
//! The library works on plain values: events are `(type, code, value)`
//! triples, axis descriptions are the six numbers of `input_absinfo`, and
//! the controller's cached state is the list of keys held and the value of
//! each axis. Opening devices, reading and sending events stays with the
//! caller, which hands each batch of events to `Sdmapd::handle_batch` and
//! carries out what it returns.

pub mod codes;
pub mod event;
pub mod grimoire;
pub mod laws;
pub mod layout;
pub mod sdmapd;
pub mod tables;

pub use event::{AbsInfo, InputEvent};
pub use layout::VkbdLayout;
pub use sdmapd::{BatchOutput, DeviceSnapshot, Sdmapd};
