//! Device-control library for embedded hardware: battery telemetry records,
//! gyroscope axis configuration, and a wireless-network session manager.
//!
//! The wireless part is the core: [`session::Session`] drives one
//! scan / list / connect / remove workflow as a state machine from supplicant
//! events to supplicant requests, and guarantees that the control channel is
//! torn down on every exit path.  The surrounding process performs the actual
//! socket I/O and feeds the machine plain events.

pub mod battery;
pub mod battery_module;
pub mod gyroscope_module;
pub mod session;
pub mod wifi;
