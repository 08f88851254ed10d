//! The provisioning client: how it reads the device's answers and decides what to
//! send and show next.

pub mod models;
pub mod utils;
pub mod services;
pub mod app;
