//! Exclusive-access and identity model for hardware peripherals.
//!
//! Firmware obtains every peripheral identity once through the guarded
//! registry, wraps identities in exclusive handles to hand them to drivers,
//! and binds interrupt handlers through an explicit controller whose
//! registration table is observable.

pub mod gpio;
pub mod interrupt;
pub mod peripheral;
pub mod peripherals;
mod private;
