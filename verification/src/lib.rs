//! Firmware core for a periodic motion-sensor reporter.
//!
//! A hardware timer fires once per second; each firing reads a seven-field
//! snapshot from a six-axis motion sensor over a two-wire bus, sends a header
//! line and a formatted report over a serial link, and flashes a status pin.
//! The hardware-owning resources are created by the initialization context and
//! handed off, exactly once, to the interrupt context through guarded slots.
//!
//! Everything the cycle decides or computes is here, verified: the snapshot
//! acquisition order, the report layout, the one-time ownership handoff, and
//! the per-firing sequence. The platform layer (bus transactions, serial
//! transmission, pin voltages, the timer itself) sits outside and exchanges
//! plain values with this crate.

pub mod channel;
pub mod cycle;
pub mod format;
pub mod handoff;
pub mod indicator;
pub mod sensor;
