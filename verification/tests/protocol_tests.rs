use wifi_provisioner::protocol::{
    auth_method_from_u8, auth_method_to_u8, AuthMethod, Characteristic, WifiConnectionType,
    MAX_WIFI_CONNECTION_TYPE_SIZE, SERVICE_UUID,
};

fn padded(bytes: &[u8]) -> [u8; MAX_WIFI_CONNECTION_TYPE_SIZE] {
    let mut buf = [0u8; MAX_WIFI_CONNECTION_TYPE_SIZE];
    buf[..bytes.len()].copy_from_slice(bytes);
    buf
}

#[test]
fn static_connection_type_from_documented_bytes() {
    let connection_type = WifiConnectionType::Static {
        ip: [192, 168, 1, 100],
        subnet_mask: 24,
        gateway: [192, 168, 1, 1],
    };
    let bytes = padded(&[1, 192, 168, 1, 100, 24, 192, 168, 1, 1]);
    assert_eq!(WifiConnectionType::from_bytes(bytes), connection_type);
}

#[test]
fn connection_type_serialization_layouts() {
    assert_eq!(WifiConnectionType::DHCP.as_bytes(), vec![0]);
    assert_eq!(WifiConnectionType::DHCPv6.as_bytes(), vec![2]);
    let v4 = WifiConnectionType::Static { ip: [10, 0, 0, 2], subnet_mask: 8, gateway: [10, 0, 0, 1] };
    assert_eq!(v4.as_bytes(), vec![1, 10, 0, 0, 2, 8, 10, 0, 0, 1]);
    let mut ip = [0u8; 16];
    ip[0] = 0xfe;
    ip[1] = 0x80;
    ip[15] = 1;
    let mut gw = [0u8; 16];
    gw[15] = 0xff;
    let v6 = WifiConnectionType::StaticV6 { ip, prefix_length: 64, gateway: gw };
    let bytes = v6.as_bytes();
    assert_eq!(bytes.len(), MAX_WIFI_CONNECTION_TYPE_SIZE);
    assert_eq!(bytes[0], 3);
    assert_eq!(&bytes[1..17], &ip[..]);
    assert_eq!(bytes[17], 64);
    assert_eq!(&bytes[18..34], &gw[..]);
}

#[test]
fn connection_type_roundtrip_on_concrete_values() {
    let mut ip = [0u8; 16];
    ip[0] = 0x20;
    ip[1] = 0x01;
    let types = [
        WifiConnectionType::DHCP,
        WifiConnectionType::DHCPv6,
        WifiConnectionType::Static { ip: [172, 16, 0, 9], subnet_mask: 32, gateway: [172, 16, 0, 1] },
        WifiConnectionType::Static { ip: [1, 2, 3, 4], subnet_mask: 1, gateway: [4, 3, 2, 1] },
        WifiConnectionType::StaticV6 { ip, prefix_length: 128, gateway: ip },
    ];
    for t in types {
        assert_eq!(WifiConnectionType::from_bytes(padded(&t.as_bytes())), t);
    }
}

#[test]
fn connection_type_parameters_are_clamped() {
    let zero_mask = WifiConnectionType::from_bytes(padded(&[1, 1, 1, 1, 1, 0, 2, 2, 2, 2]));
    assert_eq!(zero_mask, WifiConnectionType::Static { ip: [1, 1, 1, 1], subnet_mask: 1, gateway: [2, 2, 2, 2] });
    let big_mask = WifiConnectionType::from_bytes(padded(&[1, 1, 1, 1, 1, 40, 2, 2, 2, 2]));
    assert_eq!(big_mask, WifiConnectionType::Static { ip: [1, 1, 1, 1], subnet_mask: 32, gateway: [2, 2, 2, 2] });
    let mut v6 = [0u8; MAX_WIFI_CONNECTION_TYPE_SIZE];
    v6[0] = 3;
    v6[17] = 200;
    match WifiConnectionType::from_bytes(v6) {
        WifiConnectionType::StaticV6 { prefix_length, .. } => assert_eq!(prefix_length, 128),
        other => panic!("unexpected {:?}", other),
    }
    v6[17] = 0;
    match WifiConnectionType::from_bytes(v6) {
        WifiConnectionType::StaticV6 { prefix_length, .. } => assert_eq!(prefix_length, 1),
        other => panic!("unexpected {:?}", other),
    }
}

#[test]
fn unknown_connection_kind_means_dhcp() {
    let mut buf = [0u8; MAX_WIFI_CONNECTION_TYPE_SIZE];
    buf[0] = 9;
    assert_eq!(WifiConnectionType::from_bytes(buf), WifiConnectionType::DHCP);
    buf[0] = 2;
    assert_eq!(WifiConnectionType::from_bytes(buf), WifiConnectionType::DHCPv6);
}

#[test]
fn auth_method_codes_roundtrip() {
    for code in 0u8..=8 {
        assert_eq!(auth_method_to_u8(auth_method_from_u8(code)), code);
    }
    assert_eq!(auth_method_from_u8(3), AuthMethod::Wpa2Personal);
    assert_eq!(auth_method_from_u8(8), AuthMethod::WapiPersonal);
    assert_eq!(auth_method_from_u8(9), AuthMethod::Open);
    assert_eq!(auth_method_from_u8(255), AuthMethod::Open);
    assert_eq!(auth_method_to_u8(AuthMethod::Wpa3Personal), 6);
}

#[test]
fn characteristic_uuids_match_the_service_table() {
    assert_eq!(SERVICE_UUID, 0x5f435fa5_adee_4e9a_b9a3_b812d2628906);
    assert_eq!(Characteristic::WifiScanCmd.uuid(), 0xd88a7d46_9313_4240_915a_a2320fa3a6e5);
    assert_eq!(Characteristic::WifiSetConnectionType.uuid(), 0x25422a9b_558d_49f1_8db9_30bbfe8b1c2c);
    assert_eq!(Characteristic::StatusCode.uuid(), 0x7df744c9_3a9b_4df6_80f3_ec8c3b77338e);
    assert_ne!(Characteristic::WifiConnect.uuid(), Characteristic::WifiDisconnect.uuid());
}
