//! Wi-Fi provisioning over Bluetooth Low Energy: the wire formats shared by
//! the provisioning device and its client, and the decision logic of both.

pub mod protocol;
pub mod text;
pub mod device;
pub mod client;
pub mod exchange;
pub mod errors;
