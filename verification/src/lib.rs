//! Driver core for the Asix AX88772A Ethernet PHY.
//!
//! The host environment owns each transceiver and hands the driver a handle
//! for the duration of one operation.  `device` models that handle: its
//! registers, its resolved link state, and the fallible management bus,
//! together with a log of every bus operation the driver issues.  `ax88772a`
//! holds the driver itself: the device matcher and the status, reset, power
//! and link-change operations, each with an exact contract over the model.
//! `laws` states the properties that relate those operations.

pub mod ax88772a;
pub mod device;
pub mod laws;
