use wifi_provisioner::client::app::{
    parse_ipv4, apply_network_menu_event, credentials_for_network, NetworkMenuEvent, NetworkMenuOutcome,
    connection_kind_from_selection, main_menu_action, network_menu_action, network_menu_items,
    parse_u8, scan_menu_choice, static_v4_from_input, static_v6_from_input, ConnectionInputError,
    ConnectionKind, MenuAction, NetworkMenuAction, ScanMenuChoice,
};
use wifi_provisioner::client::models::{WifiCredentials, WifiScanResult, WifiStatus};
use wifi_provisioner::client::services::{
    collect_networks, connect_writes, disconnect_command, global_test_command, local_test_command,
    poll_step, scan_command, select_page_command, status_from_reading, PollStep,
};
use wifi_provisioner::client::utils::{auth_method_from_u8, format_rssi_level};
use wifi_provisioner::device::models::{build_page_data, WifiScanResult as DeviceScanResult};
use wifi_provisioner::protocol::{AuthMethod, Characteristic, WifiConnectionType};

fn entry(ssid: &[u8], rssi: i8, auth: u8) -> Vec<u8> {
    let mut e = vec![0u8; 18];
    e[..ssid.len()].copy_from_slice(ssid);
    e[16] = rssi as u8;
    e[17] = auth;
    e
}

#[test]
fn page_entries_are_read_until_an_empty_ssid() {
    let mut data = entry(b"Home", -45, 3);
    data.extend(entry(b"Office\n", -70, 6));
    data.extend(entry(b"", -1, 1));
    data.extend(entry(b"Ignored", -1, 1));
    let res = WifiScanResult::from_bytes(&data);
    assert_eq!(res.len(), 2);
    assert_eq!(res[0].ssid, "Home");
    assert_eq!(res[0].rssi, -45);
    assert_eq!(res[0].auth_method, AuthMethod::Wpa2Personal);
    assert_eq!(res[1].ssid, "Office");
    assert_eq!(res[1].auth_method, AuthMethod::Wpa3Personal);
}

#[test]
fn page_entries_decode_lossily() {
    let data = entry(&[b'A', 0xff, b'B'], 0, 0);
    let res = WifiScanResult::from_bytes(&data);
    assert_eq!(res.len(), 1);
    assert_eq!(res[0].ssid, "A\u{FFFD}B");
    assert!(WifiScanResult::from_bytes(&[]).is_empty());
    let unicode = entry("Café".as_bytes(), 10, 9);
    let res = WifiScanResult::from_bytes(&unicode);
    assert_eq!(res[0].ssid, "Café");
    assert_eq!(res[0].auth_method, AuthMethod::Open);
}

#[test]
fn device_page_reaches_client() {
    let networks: Vec<DeviceScanResult> = (0..7)
        .map(|i| DeviceScanResult::new(format!("network-number-{}", i).into_bytes(), -(i as i8) * 10, auth_method_from_u8(i as u8)))
        .collect();
    let page0 = WifiScanResult::from_bytes(&build_page_data(&networks, 0));
    assert_eq!(page0.len(), 5);
    assert_eq!(page0[0].ssid, "network-number-0");
    assert_eq!(page0[4].rssi, -40);
    assert_eq!(page0[4].auth_method, AuthMethod::WpaWpa2Personal);
    let page1 = WifiScanResult::from_bytes(&build_page_data(&networks, 1));
    assert_eq!(page1.len(), 2);
    assert_eq!(page1[1].ssid, "network-number-6");
    let long = vec![DeviceScanResult::new(b"a-very-long-network-name".to_vec(), -33, AuthMethod::Wpa)];
    let read = WifiScanResult::from_bytes(&build_page_data(&long, 0));
    assert_eq!(read[0].ssid, "a-very-long-netw");
    assert_eq!(read[0].rssi, -33);
}

#[test]
fn pages_are_collected_in_order() {
    let mut p0 = entry(b"one", -1, 0);
    p0.extend(entry(b"two", -2, 0));
    let p1 = entry(b"three", -3, 0);
    let all = collect_networks(&vec![p0, p1]);
    let names: Vec<&str> = all.iter().map(|r| r.ssid.as_str()).collect();
    assert_eq!(names, vec!["one", "two", "three"]);
}

#[test]
fn status_codes_are_read() {
    assert_eq!(WifiStatus::from(0), WifiStatus::Idle);
    assert_eq!(WifiStatus::from(1), WifiStatus::Scanning);
    assert_eq!(WifiStatus::from(52), WifiStatus::Connected);
    assert_eq!(WifiStatus::from(55), WifiStatus::GlobalTestSuccess);
    assert_eq!(WifiStatus::from(206), WifiStatus::ErrorNoScannedNetworks);
    assert_eq!(WifiStatus::from(100), WifiStatus::Error);
    assert_eq!(WifiStatus::from(255), WifiStatus::Error);
    for s in [WifiStatus::Idle, WifiStatus::SendingGlobalTest, WifiStatus::Disconnected, WifiStatus::ErrorWithGlobalTest, WifiStatus::Error] {
        assert_eq!(WifiStatus::from(s.code()), s);
    }
}

#[test]
fn rssi_bars() {
    assert_eq!(format_rssi_level(-30), "▂▄▆█");
    assert_eq!(format_rssi_level(-50), "▂▄▆█");
    assert_eq!(format_rssi_level(-51), "▂▄▆ ");
    assert_eq!(format_rssi_level(-65), "▂▄  ");
    assert_eq!(format_rssi_level(-80), "▂   ");
    assert_eq!(format_rssi_level(-81), "    ");
    assert_eq!(format_rssi_level(-128), "    ");
}

#[test]
fn polling_decisions() {
    assert_eq!(poll_step(1), PollStep::Wait);
    assert_eq!(poll_step(50), PollStep::Wait);
    assert_eq!(poll_step(0), PollStep::Done(0));
    assert_eq!(poll_step(51), PollStep::Done(51));
    assert_eq!(poll_step(100), PollStep::Done(100));
    assert_eq!(poll_step(201), PollStep::Failed(201));
    assert_eq!(poll_step(255), PollStep::Failed(255));
    assert_eq!(poll_step(2), PollStep::Wait);
    assert_eq!(poll_step(4), PollStep::Wait);
    assert_eq!(poll_step(52), PollStep::Done(52));
    assert_eq!(poll_step(54), PollStep::Done(54));
    assert_eq!(poll_step(202), PollStep::Failed(202));
    assert_eq!(poll_step(204), PollStep::Failed(204));
    assert_eq!(status_from_reading(&[7, 1]), Some(7));
    assert_eq!(status_from_reading(&[]), None);
}

#[test]
fn connect_write_sequence() {
    let creds = WifiCredentials {
        network_index: 258,
        password: "pässword".to_string(),
        connection_type: WifiConnectionType::Static { ip: [192, 168, 1, 7], subnet_mask: 24, gateway: [192, 168, 1, 1] },
    };
    let writes = connect_writes(&creds);
    assert_eq!(writes.len(), 4);
    assert_eq!(writes[0].characteristic, Characteristic::WifiSetSsidIndex);
    assert_eq!(writes[0].value, vec![2]);
    assert_eq!(writes[1].characteristic, Characteristic::WifiSetConnectionType);
    assert_eq!(writes[1].value, vec![1, 192, 168, 1, 7, 24, 192, 168, 1, 1]);
    assert_eq!(writes[2].characteristic, Characteristic::WifiSetPassword);
    assert_eq!(writes[2].value, "pässword".as_bytes().to_vec());
    assert_eq!(writes[3].characteristic, Characteristic::WifiConnect);
    assert_eq!(writes[3].value, vec![1]);
    let d = WifiCredentials::default();
    assert_eq!(d.network_index, 0);
    assert!(d.password.is_empty());
}

#[test]
fn single_byte_commands() {
    assert_eq!(scan_command().characteristic, Characteristic::WifiScanCmd);
    assert_eq!(scan_command().value, vec![1]);
    assert_eq!(select_page_command(3).value, vec![3]);
    assert_eq!(disconnect_command().characteristic, Characteristic::WifiDisconnect);
    assert_eq!(local_test_command().characteristic, Characteristic::WifiLocalTest);
    assert_eq!(global_test_command().characteristic, Characteristic::WifiGlobalTest);
}

#[test]
fn menus() {
    assert_eq!(main_menu_action(0), MenuAction::ScanAndConnect);
    assert_eq!(main_menu_action(5), MenuAction::DisconnectAndExit);
    assert_eq!(scan_menu_choice(0), ScanMenuChoice::Back);
    assert_eq!(scan_menu_choice(1), ScanMenuChoice::Rescan);
    assert_eq!(scan_menu_choice(4), ScanMenuChoice::Network(2));
    let secured = network_menu_items(AuthMethod::Wpa2Personal);
    assert_eq!(secured, vec![NetworkMenuAction::SetPassword, NetworkMenuAction::ChangeConnectionType, NetworkMenuAction::Connect, NetworkMenuAction::Back]);
    let open = network_menu_items(AuthMethod::Open);
    assert_eq!(open.len(), 3);
    for (i, item) in secured.iter().enumerate() {
        assert_eq!(network_menu_action(AuthMethod::Wpa2Personal, i), *item);
    }
    for (i, item) in open.iter().enumerate() {
        assert_eq!(network_menu_action(AuthMethod::Open, i), *item);
    }
    assert_eq!(connection_kind_from_selection(3), ConnectionKind::StaticV6);
}

#[test]
fn u8_parsing_matches_std() {
    for text in ["0", "7", "+24", "255", "256", "007", "", "+", "-1", "12a", " 1", "1000", "+0"] {
        assert_eq!(parse_u8(text), text.parse::<u8>().ok(), "{:?}", text);
    }
}

#[test]
fn static_inputs() {
    assert_eq!(
        static_v4_from_input("192.168.1.100", "24", "192.168.1.1"),
        Ok(WifiConnectionType::Static { ip: [192, 168, 1, 100], subnet_mask: 24, gateway: [192, 168, 1, 1] })
    );
    assert_eq!(static_v4_from_input("192.168.1", "24", "192.168.1.1"), Err(ConnectionInputError::InvalidIpAddress));
    assert_eq!(static_v4_from_input("10.0.0.2", "300", "10.0.0.1"), Err(ConnectionInputError::InvalidSubnetMask));
    assert_eq!(static_v4_from_input("10.0.0.2", "8", "gateway"), Err(ConnectionInputError::InvalidGateway));
    let mut ip = [0u8; 16];
    ip[0] = 0xfe;
    ip[1] = 0x80;
    ip[15] = 1;
    let mut gw = [0u8; 16];
    gw[0] = 0xfe;
    gw[1] = 0x80;
    gw[15] = 0xfe;
    assert_eq!(
        static_v6_from_input("fe80::1", "64", "fe80::fe"),
        Ok(WifiConnectionType::StaticV6 { ip, prefix_length: 64, gateway: gw })
    );
    assert_eq!(static_v6_from_input("fe80::1", "x", "fe80::fe"), Err(ConnectionInputError::InvalidPrefixLength));
    assert_eq!(static_v6_from_input("1.2.3.4", "64", "fe80::fe"), Err(ConnectionInputError::InvalidIpAddress));
    assert_eq!(static_v6_from_input("fe80::1", "64", "::g"), Err(ConnectionInputError::InvalidGateway));
}

#[test]
fn network_menu_steps_update_credentials() {
    let mut creds = credentials_for_network(3);
    assert_eq!(creds.network_index, 3);
    assert_eq!(creds.password, "");
    assert_eq!(creds.connection_type, WifiConnectionType::DHCP);

    let outcome = apply_network_menu_event(&mut creds, NetworkMenuEvent::PasswordEntered("secret".to_string()));
    assert_eq!(outcome, NetworkMenuOutcome::Continue);
    assert_eq!(creds.password, "secret");

    let static_type = WifiConnectionType::Static { ip: [10, 0, 0, 2], subnet_mask: 24, gateway: [10, 0, 0, 1] };
    let outcome = apply_network_menu_event(&mut creds, NetworkMenuEvent::ConnectionTypeChosen(static_type));
    assert_eq!(outcome, NetworkMenuOutcome::Continue);
    assert_eq!(creds.connection_type, static_type);
    assert_eq!(creds.password, "secret");

    let outcome = apply_network_menu_event(&mut creds, NetworkMenuEvent::ConnectionTypeRefused);
    assert_eq!(outcome, NetworkMenuOutcome::Continue);
    assert_eq!(creds.connection_type, static_type);

    assert_eq!(apply_network_menu_event(&mut creds, NetworkMenuEvent::ConnectChosen), NetworkMenuOutcome::Connect);
    assert_eq!(apply_network_menu_event(&mut creds, NetworkMenuEvent::BackChosen), NetworkMenuOutcome::Back);
    assert_eq!(creds.network_index, 3);
    assert_eq!(creds.password, "secret");
    assert_eq!(creds.connection_type, static_type);
}

#[test]
fn ipv4_texts_read_in_dotted_decimal() {
    assert_eq!(parse_ipv4("192.168.1.100"), Some([192, 168, 1, 100]));
    assert_eq!(parse_ipv4("0.0.0.0"), Some([0, 0, 0, 0]));
    assert_eq!(parse_ipv4("255.255.255.255"), Some([255, 255, 255, 255]));
    for bad in ["", "1.2.3", "1.2.3.4.5", "256.1.1.1", "01.2.3.4", "1..2.3", "+1.2.3.4", "1.2.3.4 ", "a.b.c.d", "1.2.3.0x4", "1000.1.1.1"] {
        assert_eq!(parse_ipv4(bad), None, "{:?}", bad);
    }
}

#[test]
fn ipv4_reading_agrees_with_std() {
    let texts = [
        "10.0.0.1", "127.0.0.1", "1.2.3.4", "00.1.2.3", "1.2.3.04", "1.2.3.255", "1.2.3.256",
        "1.2.3.", ".1.2.3", "1.2.3.4.", "999.1.1.1", "1.2.3.-4", "1,2,3,4", "١.2.3.4", "0.0.0.00",
    ];
    for text in texts {
        let expected = <core::net::Ipv4Addr as core::str::FromStr>::from_str(text).ok().map(|a| a.octets());
        assert_eq!(parse_ipv4(text), expected, "{:?}", text);
    }
}
