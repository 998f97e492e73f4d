//! Event-driven management of USB HID devices and Bluetooth Low Energy
//! peripherals behind one API: discovery and removal events, a stable
//! 128-bit identity space over two native addressing schemes, byte-oriented
//! read/write, and a correlated request/response primitive for BLE.
//!
//! The asynchronous transport adapters themselves live outside this crate;
//! every decision the manager and the peripheral handles make — filtering,
//! validation, identity derivation, metadata extraction, event broadcast and
//! request correlation — is implemented and verified here on plain values.

pub mod bus;
pub mod enums;
pub mod manager;
pub mod peripheral;
