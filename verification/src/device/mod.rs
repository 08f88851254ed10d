//! The provisioning device: what it stores, what it answers over GATT, and how it
//! decides each step of scanning, connecting and testing.

pub mod models;
pub mod runner;
pub mod gatt;
pub mod wifi;
