//! Wire formats shared by the device and the client: authentication method codes,
//! the serialized connection type, the characteristic UUIDs and the status codes.

use vstd::prelude::*;
use vstd::slice::slice_to_vec;

verus! {

/// Bytes of an SSID that fit into one serialized scan entry.
pub const SHORT_SSID_LEN: usize = 16;
/// One serialized scan entry: SSID bytes, RSSI byte, authentication byte.
pub const SERIALIZED_SSID_LEN: usize = 18;
/// Scan entries carried by one page.
pub const MAX_SSID_PER_PAGE: usize = 5;
/// Size in bytes of one page of scan entries.
pub const ENTIRE_SSID_PAGE_SIZE: usize = 90;
/// Largest SSID the device stores, in bytes.
pub const MAX_SSID_LEN: usize = 64;
/// Largest password the device stores, in bytes.
pub const MAX_PASSWORD_LEN: usize = 64;
/// Largest number of scanned networks the device keeps.
pub const MAX_NETWORKS_ON_DEVICE: usize = 24;
/// Size of the buffer that carries a serialized connection type:
/// one type byte, a 16-byte IPv6 address, a prefix byte and a 16-byte gateway.
pub const MAX_WIFI_CONNECTION_TYPE_SIZE: usize = 34;

/// Authentication method of a Wi-Fi network.
#[derive(Debug, Clone, Copy, PartialEq, Eq, Structural)]
pub enum AuthMethod {
    Open,
    Wep,
    Wpa,
    Wpa2Personal,
    WpaWpa2Personal,
    Wpa2Enterprise,
    Wpa3Personal,
    Wpa2Wpa3Personal,
    WapiPersonal,
}

/// The method that a wire code stands for; unknown codes mean an open network.
pub open spec fn spec_auth_method_from_u8(code: u8) -> AuthMethod {
    if code == 0 {
        AuthMethod::Open
    } else if code == 1 {
        AuthMethod::Wep
    } else if code == 2 {
        AuthMethod::Wpa
    } else if code == 3 {
        AuthMethod::Wpa2Personal
    } else if code == 4 {
        AuthMethod::WpaWpa2Personal
    } else if code == 5 {
        AuthMethod::Wpa2Enterprise
    } else if code == 6 {
        AuthMethod::Wpa3Personal
    } else if code == 7 {
        AuthMethod::Wpa2Wpa3Personal
    } else if code == 8 {
        AuthMethod::WapiPersonal
    } else {
        AuthMethod::Open
    }
}

/// The wire code of a method.
pub open spec fn spec_auth_method_to_u8(method: AuthMethod) -> u8 {
    match method {
        AuthMethod::Open => 0,
        AuthMethod::Wep => 1,
        AuthMethod::Wpa => 2,
        AuthMethod::Wpa2Personal => 3,
        AuthMethod::WpaWpa2Personal => 4,
        AuthMethod::Wpa2Enterprise => 5,
        AuthMethod::Wpa3Personal => 6,
        AuthMethod::Wpa2Wpa3Personal => 7,
        AuthMethod::WapiPersonal => 8,
    }
}

/// Decodes an authentication method from its wire code.
pub fn auth_method_from_u8(auth_method: u8) -> (res: AuthMethod)
    ensures
        res == spec_auth_method_from_u8(auth_method),
{
    match auth_method {
        0 => AuthMethod::Open,
        1 => AuthMethod::Wep,
        2 => AuthMethod::Wpa,
        3 => AuthMethod::Wpa2Personal,
        4 => AuthMethod::WpaWpa2Personal,
        5 => AuthMethod::Wpa2Enterprise,
        6 => AuthMethod::Wpa3Personal,
        7 => AuthMethod::Wpa2Wpa3Personal,
        8 => AuthMethod::WapiPersonal,
        _ => AuthMethod::Open,
    }
}

/// Encodes an authentication method as its wire code.
pub fn auth_method_to_u8(auth_method: AuthMethod) -> (res: u8)
    ensures
        res == spec_auth_method_to_u8(auth_method),
        res <= 8,
{
    match auth_method {
        AuthMethod::Open => 0,
        AuthMethod::Wep => 1,
        AuthMethod::Wpa => 2,
        AuthMethod::Wpa2Personal => 3,
        AuthMethod::WpaWpa2Personal => 4,
        AuthMethod::Wpa2Enterprise => 5,
        AuthMethod::Wpa3Personal => 6,
        AuthMethod::Wpa2Wpa3Personal => 7,
        AuthMethod::WapiPersonal => 8,
    }
}

/// Decoding the code of a method gives the method back.
pub proof fn lemma_auth_method_code_roundtrip(method: AuthMethod)
    ensures
        spec_auth_method_from_u8(spec_auth_method_to_u8(method)) == method,
{
}

/// Every code up to 8 names exactly one method, and encoding it gives the code back;
/// every larger code decodes as an open network.
pub proof fn lemma_auth_code_method_roundtrip(code: u8)
    ensures
        code <= 8 ==> spec_auth_method_to_u8(spec_auth_method_from_u8(code)) == code,
        code > 8 ==> spec_auth_method_from_u8(code) == AuthMethod::Open,
{
}


/// How the device obtains its IP configuration after joining a network.
#[allow(inconsistent_fields)]
#[derive(Debug, Clone, Copy, PartialEq, Eq)]
pub enum WifiConnectionType {
    DHCP,
    Static { ip: [u8; 4], subnet_mask: u8, gateway: [u8; 4] },
    DHCPv6,
    StaticV6 { ip: [u8; 16], prefix_length: u8, gateway: [u8; 16] },
}

/// `value` held to the range `[lo, hi]`.
pub open spec fn clamp(value: u8, lo: u8, hi: u8) -> u8 {
    if value > hi {
        hi
    } else if value < lo {
        lo
    } else {
        value
    }
}

/// The serialized form of a connection type:
/// `[0]`, `[1, ip(4), mask, gateway(4)]`, `[2]` or `[3, ip(16), prefix, gateway(16)]`.
pub open spec fn spec_connection_type_bytes(t: WifiConnectionType) -> Seq<u8> {
    match t {
        WifiConnectionType::DHCP => seq![0u8],
        WifiConnectionType::Static { ip, subnet_mask, gateway } => seq![1u8] + ip@ + seq![
            subnet_mask,
        ] + gateway@,
        WifiConnectionType::DHCPv6 => seq![2u8],
        WifiConnectionType::StaticV6 { ip, prefix_length, gateway } => seq![3u8] + ip@ + seq![
            prefix_length,
        ] + gateway@,
    }
}

/// `t` is what the device reads from the buffer `bytes`: the first byte picks the
/// variant (an unknown one means DHCP), the IPv4 mask is held to `[1, 32]` and the
/// IPv6 prefix length to `[1, 128]`.
pub open spec fn connection_type_decodes(bytes: Seq<u8>, t: WifiConnectionType) -> bool {
    let kind = bytes[0];
    if kind == 1 {
        &&& t matches WifiConnectionType::Static { ip, subnet_mask, gateway }
        &&& ip@ == bytes.subrange(1, 5)
        &&& subnet_mask == clamp(bytes[5], 1, 32)
        &&& gateway@ == bytes.subrange(6, 10)
    } else if kind == 2 {
        t is DHCPv6
    } else if kind == 3 {
        &&& t matches WifiConnectionType::StaticV6 { ip, prefix_length, gateway }
        &&& ip@ == bytes.subrange(1, 17)
        &&& prefix_length == clamp(bytes[17], 1, 128)
        &&& gateway@ == bytes.subrange(18, 34)
    } else {
        t is DHCP
    }
}

/// The parameters of `t` lie in the ranges that the device accepts unchanged.
pub open spec fn connection_type_in_range(t: WifiConnectionType) -> bool {
    match t {
        WifiConnectionType::Static { subnet_mask, .. } => 1 <= subnet_mask <= 32,
        WifiConnectionType::StaticV6 { prefix_length, .. } => 1 <= prefix_length <= 128,
        _ => true,
    }
}

impl WifiConnectionType {
    /// Serializes the connection type for the device.
    pub fn as_bytes(&self) -> (res: Vec<u8>)
        ensures
            res@ == spec_connection_type_bytes(*self),
            res@.len() <= MAX_WIFI_CONNECTION_TYPE_SIZE,
    {
        let mut bytes: Vec<u8> = Vec::new();
        match self {
            WifiConnectionType::DHCP => {
                bytes.push(0);
            },
            WifiConnectionType::Static { ip, subnet_mask, gateway } => {
                bytes.push(1);
                let mut address = slice_to_vec(ip);
                let mut router = slice_to_vec(gateway);
                bytes.append(&mut address);
                bytes.push(*subnet_mask);
                bytes.append(&mut router);
            },
            WifiConnectionType::DHCPv6 => {
                bytes.push(2);
            },
            WifiConnectionType::StaticV6 { ip, prefix_length, gateway } => {
                bytes.push(3);
                let mut address = slice_to_vec(ip);
                let mut router = slice_to_vec(gateway);
                bytes.append(&mut address);
                bytes.push(*prefix_length);
                bytes.append(&mut router);
            },
        }
        assert(bytes@ =~= spec_connection_type_bytes(*self));
        bytes
    }

    /// Reads a connection type from the fixed-size buffer that the device receives.
    pub fn from_bytes(bytes: [u8; 34]) -> (res: Self)
        ensures
            connection_type_decodes(bytes@, res),
            connection_type_in_range(res),
    {
        let connection_type = bytes[0];
        match connection_type {
            1 => {
                let ip = [bytes[1], bytes[2], bytes[3], bytes[4]];
                let gateway = [bytes[6], bytes[7], bytes[8], bytes[9]];
                let mask = if bytes[5] > 32 {
                    32
                } else if bytes[5] < 1 {
                    1
                } else {
                    bytes[5]
                };
                assert(ip@ =~= bytes@.subrange(1, 5));
                assert(gateway@ =~= bytes@.subrange(6, 10));
                WifiConnectionType::Static { ip, subnet_mask: mask, gateway }
            },
            2 => WifiConnectionType::DHCPv6,
            3 => {
                let ip = [
                    bytes[1],
                    bytes[2],
                    bytes[3],
                    bytes[4],
                    bytes[5],
                    bytes[6],
                    bytes[7],
                    bytes[8],
                    bytes[9],
                    bytes[10],
                    bytes[11],
                    bytes[12],
                    bytes[13],
                    bytes[14],
                    bytes[15],
                    bytes[16],
                ];
                let gateway = [
                    bytes[18],
                    bytes[19],
                    bytes[20],
                    bytes[21],
                    bytes[22],
                    bytes[23],
                    bytes[24],
                    bytes[25],
                    bytes[26],
                    bytes[27],
                    bytes[28],
                    bytes[29],
                    bytes[30],
                    bytes[31],
                    bytes[32],
                    bytes[33],
                ];
                let prefix = if bytes[17] > 128 {
                    128
                } else if bytes[17] < 1 {
                    1
                } else {
                    bytes[17]
                };
                assert(ip@ =~= bytes@.subrange(1, 17));
                assert(gateway@ =~= bytes@.subrange(18, 34));
                WifiConnectionType::StaticV6 { ip, prefix_length: prefix, gateway }
            },
            _ => WifiConnectionType::DHCP,
        }
    }
}

/// A buffer of the device's size that begins with the serialization of `t` decodes
/// to `t` itself, whatever follows, when the parameters of `t` lie in range.
pub proof fn lemma_connection_type_roundtrip(t: WifiConnectionType, buffer: Seq<u8>)
    requires
        connection_type_in_range(t),
        buffer.len() == MAX_WIFI_CONNECTION_TYPE_SIZE,
        buffer.subrange(0, spec_connection_type_bytes(t).len() as int)
            == spec_connection_type_bytes(t),
    ensures
        connection_type_decodes(buffer, t),
{
    let enc = spec_connection_type_bytes(t);
    assert(buffer[0] == enc[0]);
    match t {
        WifiConnectionType::Static { ip, subnet_mask, gateway } => {
            assert(buffer.subrange(1, 5) =~= enc.subrange(1, 5));
            assert(enc.subrange(1, 5) =~= ip@);
            assert(buffer[5] == enc[5]);
            assert(buffer.subrange(6, 10) =~= enc.subrange(6, 10));
            assert(enc.subrange(6, 10) =~= gateway@);
        },
        WifiConnectionType::StaticV6 { ip, prefix_length, gateway } => {
            assert(buffer.subrange(1, 17) =~= enc.subrange(1, 17));
            assert(enc.subrange(1, 17) =~= ip@);
            assert(buffer[17] == enc[17]);
            assert(buffer.subrange(18, 34) =~= enc.subrange(18, 34));
            assert(enc.subrange(18, 34) =~= gateway@);
        },
        _ => {},
    }
}

/// Two connection types that the same buffer decodes to are equal: reading a buffer
/// has one outcome.
pub proof fn lemma_connection_type_decoding_unique(
    bytes: Seq<u8>,
    t1: WifiConnectionType,
    t2: WifiConnectionType,
)
    requires
        bytes.len() == MAX_WIFI_CONNECTION_TYPE_SIZE,
        connection_type_decodes(bytes, t1),
        connection_type_decodes(bytes, t2),
    ensures
        t1 == t2,
{
    broadcast use vstd::array::group_array_axioms;

    match t1 {
        WifiConnectionType::Static { ip, gateway, .. } => {
            if let WifiConnectionType::Static { ip: ip2, gateway: gateway2, .. } = t2 {
                assert(ip@ =~= ip2@);
                assert(gateway@ =~= gateway2@);
                assert(ip == ip2);
                assert(gateway == gateway2);
            }
        },
        WifiConnectionType::StaticV6 { ip, gateway, .. } => {
            if let WifiConnectionType::StaticV6 { ip: ip2, gateway: gateway2, .. } = t2 {
                assert(ip == ip2);
                assert(gateway == gateway2);
            }
        },
        _ => {},
    }
}

/// UUID of the provisioning GATT service.
pub const SERVICE_UUID: u128 = 0x5f435fa5_adee_4e9a_b9a3_b812d2628906u128;

/// The characteristics of the provisioning service.
#[derive(Debug, Clone, Copy, PartialEq, Eq, Structural)]
pub enum Characteristic {
    /// Write: start a scan.
    WifiScanCmd,
    /// Read/notify: the status code.
    WifiGetStatus,
    /// Read: number of pages of scan results.
    WifiGetPagesCount,
    /// Write: page to load into the page-data characteristic.
    WifiSelectPage,
    /// Read: the selected page of scan results.
    WifiGetPageData,
    /// Write: index of the network to join.
    WifiSetSsidIndex,
    /// Write: password of the network to join.
    WifiSetPassword,
    /// Write: serialized connection type.
    WifiSetConnectionType,
    /// Write: join the configured network.
    WifiConnect,
    /// Write: leave the network.
    WifiDisconnect,
    /// Write: ping the gateway.
    WifiLocalTest,
    /// Write: test the Internet connection.
    WifiGlobalTest,
    /// Read/notify: system status code.
    StatusCode,
}

/// The UUID of each characteristic.
pub open spec fn spec_characteristic_uuid(c: Characteristic) -> u128 {
    match c {
        Characteristic::WifiScanCmd => 0xd88a7d46_9313_4240_915a_a2320fa3a6e5u128,
        Characteristic::WifiGetStatus => 0x878b58f2_4d44_4178_ae8f_a9e56d607e9eu128,
        Characteristic::WifiGetPagesCount => 0x0ce70db8_be92_4160_a2d3_588e8b248b95u128,
        Characteristic::WifiSelectPage => 0x6839a19d_8a4b_4691_89cc_7a312c1efe54u128,
        Characteristic::WifiGetPageData => 0x9c0c07d7_0435_4a9d_b999_369c8f646252u128,
        Characteristic::WifiSetSsidIndex => 0x824f9460_5d76_4498_a549_0020100907bcu128,
        Characteristic::WifiSetPassword => 0x273d7528_c072_4fe6_b29b_c1e468f039f2u128,
        Characteristic::WifiSetConnectionType => 0x25422a9b_558d_49f1_8db9_30bbfe8b1c2cu128,
        Characteristic::WifiConnect => 0x2c1f2d97_5c53_435b_940c_c36cf349ca53u128,
        Characteristic::WifiDisconnect => 0x61cd3e5f_0a78_4318_9891_f1ef74a522e3u128,
        Characteristic::WifiLocalTest => 0x54477984_44ea_4dbb_8740_b597f3532d9bu128,
        Characteristic::WifiGlobalTest => 0x24b71d12_4637_4bd1_b408_e784789544f9u128,
        Characteristic::StatusCode => 0x7df744c9_3a9b_4df6_80f3_ec8c3b77338eu128,
    }
}

impl Characteristic {
    /// The 128-bit UUID under which the device exposes this characteristic.
    pub fn uuid(self) -> (res: u128)
        ensures
            res == spec_characteristic_uuid(self),
    {
        match self {
            Characteristic::WifiScanCmd => 0xd88a7d46_9313_4240_915a_a2320fa3a6e5u128,
            Characteristic::WifiGetStatus => 0x878b58f2_4d44_4178_ae8f_a9e56d607e9eu128,
            Characteristic::WifiGetPagesCount => 0x0ce70db8_be92_4160_a2d3_588e8b248b95u128,
            Characteristic::WifiSelectPage => 0x6839a19d_8a4b_4691_89cc_7a312c1efe54u128,
            Characteristic::WifiGetPageData => 0x9c0c07d7_0435_4a9d_b999_369c8f646252u128,
            Characteristic::WifiSetSsidIndex => 0x824f9460_5d76_4498_a549_0020100907bcu128,
            Characteristic::WifiSetPassword => 0x273d7528_c072_4fe6_b29b_c1e468f039f2u128,
            Characteristic::WifiSetConnectionType => 0x25422a9b_558d_49f1_8db9_30bbfe8b1c2cu128,
            Characteristic::WifiConnect => 0x2c1f2d97_5c53_435b_940c_c36cf349ca53u128,
            Characteristic::WifiDisconnect => 0x61cd3e5f_0a78_4318_9891_f1ef74a522e3u128,
            Characteristic::WifiLocalTest => 0x54477984_44ea_4dbb_8740_b597f3532d9bu128,
            Characteristic::WifiGlobalTest => 0x24b71d12_4637_4bd1_b408_e784789544f9u128,
            Characteristic::StatusCode => 0x7df744c9_3a9b_4df6_80f3_ec8c3b77338eu128,
        }
    }
}

/// UUID law: each characteristic is reached under the UUID that the service table
/// gives it.
pub proof fn lemma_characteristic_uuid_table()
    ensures
        spec_characteristic_uuid(Characteristic::WifiScanCmd)
            == 0xd88a7d46_9313_4240_915a_a2320fa3a6e5u128,
        spec_characteristic_uuid(Characteristic::WifiGetStatus)
            == 0x878b58f2_4d44_4178_ae8f_a9e56d607e9eu128,
        spec_characteristic_uuid(Characteristic::WifiGetPagesCount)
            == 0x0ce70db8_be92_4160_a2d3_588e8b248b95u128,
        spec_characteristic_uuid(Characteristic::WifiSelectPage)
            == 0x6839a19d_8a4b_4691_89cc_7a312c1efe54u128,
        spec_characteristic_uuid(Characteristic::WifiGetPageData)
            == 0x9c0c07d7_0435_4a9d_b999_369c8f646252u128,
        spec_characteristic_uuid(Characteristic::WifiSetSsidIndex)
            == 0x824f9460_5d76_4498_a549_0020100907bcu128,
        spec_characteristic_uuid(Characteristic::WifiSetPassword)
            == 0x273d7528_c072_4fe6_b29b_c1e468f039f2u128,
        spec_characteristic_uuid(Characteristic::WifiSetConnectionType)
            == 0x25422a9b_558d_49f1_8db9_30bbfe8b1c2cu128,
        spec_characteristic_uuid(Characteristic::WifiConnect)
            == 0x2c1f2d97_5c53_435b_940c_c36cf349ca53u128,
        spec_characteristic_uuid(Characteristic::WifiDisconnect)
            == 0x61cd3e5f_0a78_4318_9891_f1ef74a522e3u128,
        spec_characteristic_uuid(Characteristic::WifiLocalTest)
            == 0x54477984_44ea_4dbb_8740_b597f3532d9bu128,
        spec_characteristic_uuid(Characteristic::WifiGlobalTest)
            == 0x24b71d12_4637_4bd1_b408_e784789544f9u128,
        spec_characteristic_uuid(Characteristic::StatusCode)
            == 0x7df744c9_3a9b_4df6_80f3_ec8c3b77338eu128,
{
}

/// Distinct characteristics have distinct UUIDs, none of them the service's.
pub proof fn lemma_characteristic_uuids_distinct(a: Characteristic, b: Characteristic)
    ensures
        spec_characteristic_uuid(a) == spec_characteristic_uuid(b) ==> a == b,
        spec_characteristic_uuid(a) != SERVICE_UUID,
{
}

/// Status codes that the device stores in its status characteristic and the
/// client polls.
/// Codes 1 to 50 mean an operation in progress, 51 to 100 a success,
/// 201 to 250 an error, and 255 a general error.
#[derive(Debug, Clone, Copy, PartialEq, Eq, Structural)]
pub enum WifiStatus {
    Idle,
    Scanning,
    Connecting,
    Disconnecting,
    SendingLocalTest,
    SendingGlobalTest,
    ScannedSuccessfully,
    Connected,
    Disconnected,
    LocalTestSuccess,
    GlobalTestSuccess,
    ErrorWhileScanning,
    ErrorWhileConnecting,
    ErrorWhileDisconnecting,
    ErrorWithLocalTest,
    ErrorWithGlobalTest,
    ErrorNoScannedNetworks,
    Error,
}

/// The code of each status.
pub open spec fn spec_status_code(status: WifiStatus) -> u8 {
    match status {
        WifiStatus::Idle => 0,
        WifiStatus::Scanning => 1,
        WifiStatus::Connecting => 2,
        WifiStatus::Disconnecting => 3,
        WifiStatus::SendingLocalTest => 4,
        WifiStatus::SendingGlobalTest => 5,
        WifiStatus::ScannedSuccessfully => 51,
        WifiStatus::Connected => 52,
        WifiStatus::Disconnected => 53,
        WifiStatus::LocalTestSuccess => 54,
        WifiStatus::GlobalTestSuccess => 55,
        WifiStatus::ErrorWhileScanning => 201,
        WifiStatus::ErrorWhileConnecting => 202,
        WifiStatus::ErrorWhileDisconnecting => 203,
        WifiStatus::ErrorWithLocalTest => 204,
        WifiStatus::ErrorWithGlobalTest => 205,
        WifiStatus::ErrorNoScannedNetworks => 206,
        WifiStatus::Error => 255,
    }
}

/// The status that a code stands for; codes that name no status mean `Error`.
pub open spec fn spec_status_from_code(code: u8) -> WifiStatus {
    if code == 0 {
        WifiStatus::Idle
    } else if code == 1 {
        WifiStatus::Scanning
    } else if code == 2 {
        WifiStatus::Connecting
    } else if code == 3 {
        WifiStatus::Disconnecting
    } else if code == 4 {
        WifiStatus::SendingLocalTest
    } else if code == 5 {
        WifiStatus::SendingGlobalTest
    } else if code == 51 {
        WifiStatus::ScannedSuccessfully
    } else if code == 52 {
        WifiStatus::Connected
    } else if code == 53 {
        WifiStatus::Disconnected
    } else if code == 54 {
        WifiStatus::LocalTestSuccess
    } else if code == 55 {
        WifiStatus::GlobalTestSuccess
    } else if code == 201 {
        WifiStatus::ErrorWhileScanning
    } else if code == 202 {
        WifiStatus::ErrorWhileConnecting
    } else if code == 203 {
        WifiStatus::ErrorWhileDisconnecting
    } else if code == 204 {
        WifiStatus::ErrorWithLocalTest
    } else if code == 205 {
        WifiStatus::ErrorWithGlobalTest
    } else if code == 206 {
        WifiStatus::ErrorNoScannedNetworks
    } else {
        WifiStatus::Error
    }
}

impl WifiStatus {
    /// The code of this status.
    pub fn code(self) -> (res: u8)
        ensures
            res == spec_status_code(self),
    {
        match self {
            WifiStatus::Idle => 0,
            WifiStatus::Scanning => 1,
            WifiStatus::Connecting => 2,
            WifiStatus::Disconnecting => 3,
            WifiStatus::SendingLocalTest => 4,
            WifiStatus::SendingGlobalTest => 5,
            WifiStatus::ScannedSuccessfully => 51,
            WifiStatus::Connected => 52,
            WifiStatus::Disconnected => 53,
            WifiStatus::LocalTestSuccess => 54,
            WifiStatus::GlobalTestSuccess => 55,
            WifiStatus::ErrorWhileScanning => 201,
            WifiStatus::ErrorWhileConnecting => 202,
            WifiStatus::ErrorWhileDisconnecting => 203,
            WifiStatus::ErrorWithLocalTest => 204,
            WifiStatus::ErrorWithGlobalTest => 205,
            WifiStatus::ErrorNoScannedNetworks => 206,
            WifiStatus::Error => 255,
        }
    }
}

impl From<u8> for WifiStatus {
    fn from(val: u8) -> (res: Self) {
        match val {
            0 => WifiStatus::Idle,
            1 => WifiStatus::Scanning,
            2 => WifiStatus::Connecting,
            3 => WifiStatus::Disconnecting,
            4 => WifiStatus::SendingLocalTest,
            5 => WifiStatus::SendingGlobalTest,
            51 => WifiStatus::ScannedSuccessfully,
            52 => WifiStatus::Connected,
            53 => WifiStatus::Disconnected,
            54 => WifiStatus::LocalTestSuccess,
            55 => WifiStatus::GlobalTestSuccess,
            201 => WifiStatus::ErrorWhileScanning,
            202 => WifiStatus::ErrorWhileConnecting,
            203 => WifiStatus::ErrorWhileDisconnecting,
            204 => WifiStatus::ErrorWithLocalTest,
            205 => WifiStatus::ErrorWithGlobalTest,
            206 => WifiStatus::ErrorNoScannedNetworks,
            _ => WifiStatus::Error,
        }
    }
}

impl vstd::std_specs::convert::FromSpecImpl<u8> for WifiStatus {
    open spec fn obeys_from_spec() -> bool {
        true
    }

    open spec fn from_spec(v: u8) -> WifiStatus {
        spec_status_from_code(v)
    }
}

/// The status reports an operation in progress.
pub open spec fn status_in_progress(s: WifiStatus) -> bool {
    s is Scanning || s is Connecting || s is Disconnecting || s is SendingLocalTest
        || s is SendingGlobalTest
}

/// The status reports a completed operation.
pub open spec fn status_success(s: WifiStatus) -> bool {
    s is ScannedSuccessfully || s is Connected || s is Disconnected || s is LocalTestSuccess
        || s is GlobalTestSuccess
}

/// The status reports a failure.
pub open spec fn status_error(s: WifiStatus) -> bool {
    s is ErrorWhileScanning || s is ErrorWhileConnecting || s is ErrorWhileDisconnecting
        || s is ErrorWithLocalTest || s is ErrorWithGlobalTest || s is ErrorNoScannedNetworks
        || s is Error
}

/// The code ranges of the status table: 0 for idle, 1 to 50 for operations in
/// progress, 51 to 100 for successes, 201 and above for errors.
pub proof fn lemma_status_code_ranges(s: WifiStatus)
    ensures
        (s is Idle) <==> spec_status_code(s) == 0,
        status_in_progress(s) <==> 1 <= spec_status_code(s) <= 50,
        status_success(s) <==> 51 <= spec_status_code(s) <= 100,
        status_error(s) <==> 201 <= spec_status_code(s),
{
}

/// Reading the code of a status gives the status back.
pub proof fn lemma_status_code_roundtrip(status: WifiStatus)
    ensures
        spec_status_from_code(spec_status_code(status)) == status,
{
}

/// A code that names a status is the code of the status it is read as; every other
/// code is read as `Error`.
pub proof fn lemma_code_status_roundtrip(code: u8)
    ensures
        spec_status_code(spec_status_from_code(code)) == code || spec_status_from_code(code)
            == WifiStatus::Error,
{
}

} // verus!
