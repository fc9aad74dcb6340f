//! Automounter core for a family of USB devices.
//!
//! The library holds the verified logic of a hotplug automount daemon:
//! deciding which devices belong to the managed family, tracking which
//! physical device slots are currently mounted, deriving mount-point paths,
//! and turning the outcomes of the external mount/unmount tool into
//! structured results. All I/O (USB enumeration, process spawning,
//! filesystem calls) lives in the surrounding application, which feeds this
//! library plain values and carries out the actions it decides on.

pub mod device;
pub mod error;
pub mod handler;
pub mod lifecycle;
