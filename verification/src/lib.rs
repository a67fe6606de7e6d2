//! Telemetry report encoding and connection management for a small HID meter
//! display.
//!
//! The library turns a point-in-time snapshot of host metrics into one of two
//! fixed 64-byte report buffers, and models the retry state machine that keeps
//! a device session alive across disconnects. All I/O (reading OS metrics,
//! opening and writing the device) is left to the surrounding program, which
//! hands the library plain values.

pub mod acquisition;
pub mod metrics;
pub mod report;
