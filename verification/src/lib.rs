//! Core of a kernel-resident temperature-sensor driver: a capability-safe
//! upcall registration and delivery mechanism, and a periodic sequencer that
//! polls the device over an abstract bus and publishes readings to one
//! registered process.

pub mod callback;
pub mod fakes;
pub mod hil;
pub mod laws;
pub mod tmp006;
pub mod uart;
