//! Hardware control core for ASUS laptops: the settings model, capability
//! detection, the hardware surface encodings, the gated controller, the
//! profile store and the profile application protocol.
//!
//! Everything here is pure: reading and writing the sysfs tree, running
//! helper programs and serving requests over D-Bus happen in the daemon,
//! which hands this library plain values and performs the writes it plans.

pub mod config;
pub mod controller;
pub mod error;
pub mod helper;
pub mod profiles;
pub mod service;
pub mod surface;
pub mod text;
pub mod types;
