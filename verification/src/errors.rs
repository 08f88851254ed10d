//! Errors of the device's Bluetooth, storage and network layers.

use vstd::prelude::*;

verus! {

/// Errors of the Bluetooth layer.
#[derive(Debug, Clone, Copy)]
pub enum BleError {
    InvalidUuid,
    ConnectionFailed,
    DisconnectionFailed,
    WriteFailed,
    ReadFailed,
    NotificationFailed,
    ServerInitializationFailed(&'static str),
    UnknownError(&'static str),
}

impl BleError {
    /// The error reported for any failure of the BLE host stack.
    pub fn from_host_error() -> (res: BleError)
        ensures
            res matches BleError::UnknownError(message) && message@
                == "An unknown BLE error occurred from touble-host"@,
    {
        BleError::UnknownError("An unknown BLE error occurred from touble-host")
    }
}

/// Kinds of flash storage failures.
#[derive(Debug, Clone, Copy, PartialEq, Eq, Structural)]
pub enum FlashErrorKind {
    NotAligned,
    OutOfBounds,
    Other,
    /// A kind this library does not know.
    Unknown,
}

/// Errors of the credential storage.
#[derive(Debug, Clone, Copy)]
pub enum StorageError {
    Other(&'static str),
    OutOfBounds(&'static str),
}

impl StorageError {
    /// The storage error for a flash failure of the given kind: out-of-bounds
    /// accesses are reported as such, every other kind as `Other` with its description.
    pub fn from_flash_error_kind(kind: FlashErrorKind) -> (res: StorageError)
        ensures
            kind is NotAligned ==> (res matches StorageError::Other(m) && m@
                == "Flash storage error: Not aligned"@),
            kind is OutOfBounds ==> (res matches StorageError::OutOfBounds(m) && m@
                == "Flash storage error: Out of bounds"@),
            kind is Other ==> (res matches StorageError::Other(m) && m@
                == "Flash storage error: Other"@),
            kind is Unknown ==> (res matches StorageError::Other(m) && m@
                == "Flash storage error: Unknown"@),
    {
        match kind {
            FlashErrorKind::NotAligned => StorageError::Other("Flash storage error: Not aligned"),
            FlashErrorKind::OutOfBounds => StorageError::OutOfBounds(
                "Flash storage error: Out of bounds",
            ),
            FlashErrorKind::Other => StorageError::Other("Flash storage error: Other"),
            FlashErrorKind::Unknown => StorageError::Other("Flash storage error: Unknown"),
        }
    }
}

/// Failures of a DNS query.
#[derive(Debug, Clone, Copy, PartialEq, Eq, Structural)]
pub enum DnsQueryError {
    InvalidName,
    NameTooLong,
    Failed,
}

/// DNS errors of the Wi-Fi layer.
#[derive(Debug, Clone, Copy, PartialEq, Eq, Structural)]
pub enum DNSError {
    InvalidName,
    NameTooLong,
    Failed,
    NotFound,
}

/// Errors of the Wi-Fi layer.
#[derive(Debug, Clone, Copy, PartialEq, Eq, Structural)]
pub enum WifiError {
    DNSError(DNSError),
    Other,
}

/// The Wi-Fi error for a failed DNS query: the DNS error of the same kind.
pub open spec fn spec_wifi_error_from_dns(e: DnsQueryError) -> WifiError {
    match e {
        DnsQueryError::InvalidName => WifiError::DNSError(DNSError::InvalidName),
        DnsQueryError::NameTooLong => WifiError::DNSError(DNSError::NameTooLong),
        DnsQueryError::Failed => WifiError::DNSError(DNSError::Failed),
    }
}

impl WifiError {
    /// The Wi-Fi error for a failed DNS query: the DNS error of the same kind.
    pub fn from_dns_error(e: DnsQueryError) -> (res: WifiError)
        ensures
            res == spec_wifi_error_from_dns(e),
    {
        match e {
            DnsQueryError::InvalidName => WifiError::DNSError(DNSError::InvalidName),
            DnsQueryError::NameTooLong => WifiError::DNSError(DNSError::NameTooLong),
            DnsQueryError::Failed => WifiError::DNSError(DNSError::Failed),
        }
    }
}

} // verus!
