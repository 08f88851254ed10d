use wifi_provisioner::device::gatt::{
    match_read_events, match_write_events, BleGATTServer, CharacteristicAction, GeneralService,
    ReadValue,
};
use wifi_provisioner::device::models::{build_page_data, pages_count, WifiCredentials, WifiScanResult, WifiStatus};
use wifi_provisioner::device::runner::{runner_task_step, AppState, RunnerCommand, WifiRunnerCommand};
use wifi_provisioner::device::wifi::{
    apply_ip_config, begin_connect, begin_scan, check_connecting_status, collect_scan_results,
    echo_request_payload, finish_connect, global_test_endpoint, handle_disconnect, handle_scan,
    handle_test_global, handle_test_router, idle_tick, nslookup, response_confirms_internet,
    ConnectOutcome, ConnectionMonitor, ControllerAction, GlobalTestOutcome, IpAddress, IpConfig,
    RawAccessPoint, RouterTestOutcome,
};
use wifi_provisioner::device::wifi::{
    global_test_host, global_test_request, GLOBAL_TEST_TIMEOUT_SECS, LOCAL_TEST_TIMEOUT_SECS,
};
use wifi_provisioner::errors::{
    BleError, DNSError, DnsQueryError, FlashErrorKind, StorageError, WifiError,
};
use wifi_provisioner::device::wifi::{begin_test_global, begin_test_router};
use wifi_provisioner::protocol::{AuthMethod, WifiConnectionType};

fn net(ssid: &str, rssi: i8, auth: AuthMethod) -> WifiScanResult {
    WifiScanResult::new(ssid.as_bytes().to_vec(), rssi, auth)
}

fn state_with(networks: Vec<WifiScanResult>) -> AppState {
    let mut s = AppState::default();
    s.wifi_networks = networks;
    s
}

#[test]
fn status_codes() {
    assert_eq!(WifiStatus::Idle.code(), 0);
    assert_eq!(WifiStatus::Connecting.code(), 2);
    assert_eq!(WifiStatus::ScannedSuccessfully.code(), 51);
    assert_eq!(WifiStatus::Connected.code(), 52);
    assert_eq!(WifiStatus::Disconnected.code(), 53);
    assert_eq!(WifiStatus::LocalTestSuccess.code(), 54);
    assert_eq!(WifiStatus::GlobalTestSuccess.code(), 55);
    assert_eq!(WifiStatus::ErrorWhileConnecting.code(), 202);
    assert_eq!(WifiStatus::ErrorNoScannedNetworks.code(), 206);
    assert_eq!(WifiStatus::Error.code(), 255);
}

#[test]
fn pages_count_rounds_up() {
    assert_eq!(pages_count(0), 0);
    assert_eq!(pages_count(1), 1);
    assert_eq!(pages_count(5), 1);
    assert_eq!(pages_count(6), 2);
    assert_eq!(pages_count(24), 5);
}

#[test]
fn entry_layout() {
    let bytes = net("Home", -40, AuthMethod::Wpa2Personal).into_bytes();
    let mut expected = vec![0u8; 18];
    expected[..4].copy_from_slice(b"Home");
    expected[16] = (-40i8) as u8;
    expected[17] = 3;
    assert_eq!(bytes, expected);
    let long = net("ABCDEFGHIJKLMNOPQRSTUVWXYZ", 1, AuthMethod::Open).into_bytes();
    assert_eq!(&long[..16], b"ABCDEFGHIJKLMNOP");
    assert_eq!(long[16], 1);
    assert_eq!(long[17], 0);
}

#[test]
fn page_data_slots() {
    let networks: Vec<WifiScanResult> =
        (0..7).map(|i| net(&format!("net{}", i), -(i as i8), AuthMethod::Wep)).collect();
    let page0 = build_page_data(&networks, 0);
    assert_eq!(page0.len(), 90);
    assert_eq!(&page0[0..4], b"net0");
    assert_eq!(&page0[72..76], b"net4");
    let page1 = build_page_data(&networks, 1);
    assert_eq!(&page1[0..4], b"net5");
    assert_eq!(&page1[18..22], b"net6");
    assert_eq!(page1[18 + 16], (-6i8) as u8);
    assert_eq!(page1[18 + 17], 1);
    assert!(page1[36..].iter().all(|b| *b == 0));
    let page9 = build_page_data(&networks, 9);
    assert!(page9.iter().all(|b| *b == 0));
}

#[test]
fn runner_forwards_wifi_commands() {
    let mut s = AppState::default();
    assert_eq!(runner_task_step(&mut s, RunnerCommand::WiFiStartScanning), Some(WifiRunnerCommand::Scan));
    assert_eq!(runner_task_step(&mut s, RunnerCommand::WifiTryConnect), Some(WifiRunnerCommand::Connect));
    assert_eq!(runner_task_step(&mut s, RunnerCommand::WifiTryDisconnect), Some(WifiRunnerCommand::Disconnect));
    assert_eq!(runner_task_step(&mut s, RunnerCommand::PingLocalNetwork), Some(WifiRunnerCommand::PingLocal));
    assert_eq!(runner_task_step(&mut s, RunnerCommand::PingGlobalNetwork), Some(WifiRunnerCommand::PingGlobal));
    assert_eq!(runner_task_step(&mut s, RunnerCommand::SendGetRequest), None);
    assert_eq!(runner_task_step(&mut s, RunnerCommand::SendServerUrl([0; 64])), None);
    assert!(s.wifi_config.is_none());
    assert_eq!(runner_task_step(&mut s, RunnerCommand::WiFiSelectScannedPage(3)), None);
    assert_eq!(s.current_page, 3);
}

#[test]
fn selecting_without_networks_reports_error() {
    let mut s = AppState::default();
    runner_task_step(&mut s, RunnerCommand::WiFiSendSSIDIndex(0));
    assert_eq!(s.wifi_status, 206);
    assert!(s.wifi_config.is_none());
}

#[test]
fn selecting_out_of_range_changes_nothing() {
    let mut s = state_with(vec![net("a", -50, AuthMethod::Wpa)]);
    runner_task_step(&mut s, RunnerCommand::WiFiSendSSIDIndex(1));
    assert!(s.wifi_config.is_none());
    assert_eq!(s.wifi_status, 0);
}

#[test]
fn credentials_are_assembled_from_commands() {
    let mut s = state_with(vec![net("first", -50, AuthMethod::Wpa), net("second", -60, AuthMethod::Wpa3Personal)]);
    let mut pw = [0u8; 64];
    pw[..6].copy_from_slice(b"secret");
    runner_task_step(&mut s, RunnerCommand::WiFiSendPassword(pw));
    let mut ct = [0u8; 34];
    ct[..10].copy_from_slice(&[1, 192, 168, 0, 5, 24, 192, 168, 0, 1]);
    runner_task_step(&mut s, RunnerCommand::WifiSendConnectionType(ct));
    let c = s.wifi_config.as_ref().unwrap();
    assert_eq!(c.ssid, Vec::<u8>::new());
    assert_eq!(c.auth_method, AuthMethod::Wpa2Personal);
    assert!(matches!(c.connection_type, WifiConnectionType::Static { subnet_mask: 24, .. }));
    runner_task_step(&mut s, RunnerCommand::WiFiSendSSIDIndex(1));
    let c = s.wifi_config.as_ref().unwrap();
    assert_eq!(c.ssid, b"second".to_vec());
    assert_eq!(c.password, b"secret".to_vec());
    assert_eq!(c.auth_method, AuthMethod::Wpa3Personal);
    assert_eq!(c.connection_type, WifiConnectionType::DHCP);
}

#[test]
fn invalid_utf8_password_is_dropped() {
    let mut s = AppState::default();
    let mut pw = [0u8; 64];
    pw[0] = 0xff;
    pw[1] = b'a';
    runner_task_step(&mut s, RunnerCommand::WiFiSendPassword(pw));
    assert_eq!(s.wifi_config.as_ref().unwrap().password, Vec::<u8>::new());
}

fn server() -> BleGATTServer {
    BleGATTServer {
        general_service: GeneralService {
            wifi_scan_cmd: 10,
            wifi_get_status: 12,
            wifi_get_pages_count: 14,
            wifi_select_page: 16,
            wifi_get_page_data: 18,
            wifi_set_ssid_index: 20,
            wifi_set_password: 22,
            wifi_set_connection_type: 24,
            wifi_connect: 26,
            wifi_disconnect: 28,
            wifi_local_test: 30,
            wifi_global_test: 32,
            status_code: 34,
        },
    }
}

#[test]
fn handles_map_to_actions() {
    let s = server();
    assert_eq!(s.handle_action(10), Some(CharacteristicAction::WifiScanCmd));
    assert_eq!(s.handle_action(18), Some(CharacteristicAction::WifiGetPageData));
    assert_eq!(s.handle_action(24), Some(CharacteristicAction::WifiSetConnectionType));
    assert_eq!(s.handle_action(34), Some(CharacteristicAction::StatusCode));
    assert_eq!(s.handle_action(11), None);
}

#[test]
fn writes_become_commands() {
    assert!(matches!(match_write_events(CharacteristicAction::WifiSelectPage, &[4]), Some(RunnerCommand::WiFiSelectScannedPage(4))));
    assert!(matches!(match_write_events(CharacteristicAction::WifiSetSSIDIndex, &[2, 9]), Some(RunnerCommand::WiFiSendSSIDIndex(2))));
    match match_write_events(CharacteristicAction::WifiSetPassword, b"pw") {
        Some(RunnerCommand::WiFiSendPassword(buf)) => {
            assert_eq!(&buf[..2], b"pw");
            assert!(buf[2..].iter().all(|b| *b == 0));
        }
        _ => panic!("expected a password"),
    }
    match match_write_events(CharacteristicAction::WifiSetConnectionType, &[1, 10, 0, 0, 2, 16, 10, 0, 0, 1]) {
        Some(RunnerCommand::WifiSendConnectionType(buf)) => {
            assert_eq!(WifiConnectionType::from_bytes(buf), WifiConnectionType::Static { ip: [10, 0, 0, 2], subnet_mask: 16, gateway: [10, 0, 0, 1] });
        }
        _ => panic!("expected a connection type"),
    }
    assert!(matches!(match_write_events(CharacteristicAction::WifiGlobalTest, &[1]), Some(RunnerCommand::PingGlobalNetwork)));
    assert!(match_write_events(CharacteristicAction::WifiGetStatus, &[1]).is_none());
}

#[test]
fn reads_return_state() {
    let mut s = state_with((0..6).map(|i| net(&format!("n{}", i), -10, AuthMethod::Open)).collect());
    s.wifi_status = 51;
    s.status_code = 7;
    s.current_page = 1;
    assert!(matches!(match_read_events(CharacteristicAction::WifiGetStatus, &s), Some(ReadValue::Byte(51))));
    assert!(matches!(match_read_events(CharacteristicAction::WifiGetPagesCount, &s), Some(ReadValue::Byte(2))));
    assert!(matches!(match_read_events(CharacteristicAction::StatusCode, &s), Some(ReadValue::Byte(7))));
    match match_read_events(CharacteristicAction::WifiGetPageData, &s) {
        Some(ReadValue::PageData(d)) => assert_eq!(&d[..2], b"n5"),
        _ => panic!("expected page data"),
    }
    assert!(match_read_events(CharacteristicAction::WifiConnect, &s).is_none());
}

fn ap(ssid: &str, rssi: i8, auth: Option<AuthMethod>) -> RawAccessPoint {
    RawAccessPoint { ssid: ssid.to_string(), signal_strength: rssi, auth_method: auth }
}

#[test]
fn scan_results_are_filtered_and_capped() {
    let mut aps = vec![ap("", -20, None), ap("cafe", -30, None), ap(&"x".repeat(65), -40, Some(AuthMethod::Wep))];
    for i in 0..30 {
        aps.push(ap(&format!("n{}", i), -50, Some(AuthMethod::Wpa)));
    }
    let res = collect_scan_results(&aps);
    assert_eq!(res.len(), 24);
    assert_eq!(res[0].ssid, b"cafe".to_vec());
    assert_eq!(res[0].auth_method, AuthMethod::Wpa2Personal);
    assert_eq!(res[1].ssid, Vec::<u8>::new());
    assert_eq!(res[1].auth_method, AuthMethod::Wep);
    assert_eq!(res[2].ssid, b"n0".to_vec());
    assert_eq!(res[23].ssid, b"n21".to_vec());
    let exact = collect_scan_results(&vec![ap(&"y".repeat(64), 0, None)]);
    assert_eq!(exact[0].ssid.len(), 64);
}

#[test]
fn scan_outcomes_update_state() {
    let mut s = AppState::default();
    begin_scan(&mut s);
    assert_eq!(s.wifi_status, 1);
    handle_scan(&mut s, Ok(vec![ap("a", -1, None)]));
    assert_eq!(s.wifi_status, 51);
    assert_eq!(s.wifi_networks.len(), 1);
    handle_scan(&mut s, Err(()));
    assert_eq!(s.wifi_status, 201);
    assert_eq!(s.wifi_networks.len(), 1);
}

#[test]
fn connection_attempt_retries_then_gives_up() {
    let mut s = AppState::default();
    s.wifi_status = 2;
    let mut m = ConnectionMonitor { started_at: None, retry_count: 0 };
    finish_connect(&mut s, &mut m, ConnectOutcome::Started, 1000);
    assert_eq!(m, ConnectionMonitor { started_at: Some(1000), retry_count: 0 });
    assert_eq!(check_connecting_status(&mut s, &mut m, false, false, 11000), ControllerAction::Nothing);
    let mut now = 1000;
    for attempt in 1..5u8 {
        now += 10001;
        assert_eq!(check_connecting_status(&mut s, &mut m, false, false, now), ControllerAction::Reconnect);
        assert_eq!(m.retry_count, attempt);
        assert_eq!(s.wifi_status, 2);
    }
    now += 10001;
    assert_eq!(check_connecting_status(&mut s, &mut m, false, false, now), ControllerAction::Disconnect);
    assert_eq!(s.wifi_status, 202);
    assert_eq!(m, ConnectionMonitor { started_at: None, retry_count: 5 });
    assert_eq!(check_connecting_status(&mut s, &mut m, false, false, now + 50000), ControllerAction::Nothing);
}

#[test]
fn connection_completes_with_address() {
    let mut s = AppState::default();
    s.wifi_status = 2;
    let mut m = ConnectionMonitor { started_at: Some(5), retry_count: 3 };
    check_connecting_status(&mut s, &mut m, true, false, 10);
    assert_eq!(s.wifi_status, 2);
    check_connecting_status(&mut s, &mut m, true, true, 10);
    assert_eq!(s.wifi_status, 52);
    assert_eq!(m, ConnectionMonitor { started_at: None, retry_count: 0 });
}

#[test]
fn idle_tick_resets_only_stale_progress() {
    let idle = ConnectionMonitor { started_at: None, retry_count: 0 };
    let mut s = AppState::default();
    for code in [0u8, 51, 52, 54, 204, 255] {
        s.wifi_status = code;
        idle_tick(&mut s, &idle, false);
        assert_eq!(s.wifi_status, code);
    }
    s.wifi_status = 4;
    idle_tick(&mut s, &ConnectionMonitor { started_at: Some(1), retry_count: 0 }, false);
    assert_eq!(s.wifi_status, 4);
    idle_tick(&mut s, &idle, true);
    assert_eq!(s.wifi_status, 4);
    idle_tick(&mut s, &idle, false);
    assert_eq!(s.wifi_status, 0);
}

#[test]
fn connect_request_from_credentials() {
    let mut s = AppState::default();
    assert!(begin_connect(&mut s).is_none());
    assert_eq!(s.wifi_status, 202);
    s.wifi_config = Some(WifiCredentials {
        ssid: b"home".to_vec(),
        password: b"pw".to_vec(),
        auth_method: AuthMethod::Wpa2Personal,
        connection_type: WifiConnectionType::DHCP,
    });
    let r = begin_connect(&mut s).unwrap();
    assert_eq!(s.wifi_status, 2);
    assert_eq!(r.ssid, b"home".to_vec());
    assert_eq!(r.password, b"pw".to_vec());
    let mut m = ConnectionMonitor { started_at: None, retry_count: 0 };
    finish_connect(&mut s, &mut m, ConnectOutcome::ConfigRejected, 9);
    assert_eq!(s.wifi_status, 202);
    assert_eq!(m.started_at, None);
    s.wifi_status = 2;
    finish_connect(&mut s, &mut m, ConnectOutcome::ConnectRejected, 9);
    assert_eq!(s.wifi_status, 202);
}

#[test]
fn disconnect_outcomes() {
    let mut s = AppState::default();
    s.wifi_config = Some(WifiCredentials::default());
    handle_disconnect(&mut s, false);
    assert_eq!(s.wifi_status, 255);
    assert!(s.wifi_config.is_some());
    handle_disconnect(&mut s, true);
    assert_eq!(s.wifi_status, 53);
    assert!(s.wifi_config.is_none());
}

#[test]
fn ip_configuration() {
    assert_eq!(apply_ip_config(WifiConnectionType::DHCP), IpConfig::DhcpV4);
    assert_eq!(
        apply_ip_config(WifiConnectionType::Static { ip: [1, 2, 3, 4], subnet_mask: 24, gateway: [1, 2, 3, 1] }),
        IpConfig::StaticV4 { address: [1, 2, 3, 4], prefix_len: 24, gateway: [1, 2, 3, 1] }
    );
    assert_eq!(apply_ip_config(WifiConnectionType::DHCPv6), IpConfig::DhcpV6);
}

#[test]
fn dns_and_endpoint() {
    let a = IpAddress::V4([8, 8, 8, 8]);
    assert_eq!(nslookup(Ok(vec![a, IpAddress::V4([1, 1, 1, 1])])), Ok(a));
    assert_eq!(nslookup(Ok(vec![])), Err(WifiError::DNSError(DNSError::NotFound)));
    assert_eq!(nslookup(Err(DnsQueryError::NameTooLong)), Err(WifiError::DNSError(DNSError::NameTooLong)));
    assert_eq!(nslookup(Err(DnsQueryError::Failed)), Err(WifiError::DNSError(DNSError::Failed)));
    assert_eq!(global_test_endpoint(Ok(a)), (a, 80));
    assert_eq!(global_test_endpoint(Err(WifiError::Other)), (IpAddress::V4([142, 251, 38, 142]), 80));
}

#[test]
fn internet_response_check() {
    assert!(response_confirms_internet(b"HTTP/1.1 204 No Content\r\n"));
    assert!(response_confirms_internet(b"204"));
    assert!(!response_confirms_internet(b"HTTP/1.1 200 OK"));
    assert!(!response_confirms_internet(b""));
    assert!(!response_confirms_internet(b"20"));
    assert!(!response_confirms_internet(&[b'2', b'0', b'4', 0xff]));
}

#[test]
fn test_outcomes_update_status() {
    let mut s = AppState::default();
    s.wifi_status = 52;
    begin_test_global(&mut s);
    assert_eq!(s.wifi_status, 5);
    handle_test_global(&mut s, &GlobalTestOutcome::WriteFailed);
    assert_eq!(s.wifi_status, 205);
    handle_test_global(&mut s, &GlobalTestOutcome::ReadFailed);
    assert_eq!(s.wifi_status, 205);
    handle_test_global(&mut s, &GlobalTestOutcome::Response(b"HTTP/1.1 200 OK".to_vec()));
    assert_eq!(s.wifi_status, 205);
    handle_test_global(&mut s, &GlobalTestOutcome::Response(b"HTTP/1.1 204 No Content".to_vec()));
    assert_eq!(s.wifi_status, 55);
    handle_test_global(&mut s, &GlobalTestOutcome::ConnectFailed);
    assert_eq!(s.wifi_status, 205);
    begin_test_router(&mut s);
    assert_eq!(s.wifi_status, 4);
    handle_test_router(&mut s, RouterTestOutcome::Reply);
    assert_eq!(s.wifi_status, 54);
    for outcome in [RouterTestOutcome::NoIpConfig, RouterTestOutcome::NoGateway, RouterTestOutcome::SendFailed, RouterTestOutcome::ReceiveError, RouterTestOutcome::Timeout] {
        s.wifi_status = 4;
        handle_test_router(&mut s, outcome);
        assert_eq!(s.wifi_status, 204);
    }
    assert_eq!(echo_request_payload(), [8, 0, 0, 0, 0xBE, 0xEF, 0, 1]);
}

#[test]
fn password_buffer_keeps_bytes_before_padding() {
    let mut s = AppState::default();
    let mut pw = [0u8; 64];
    pw[..6].copy_from_slice(b"secret");
    runner_task_step(&mut s, RunnerCommand::WiFiSendPassword(pw));
    assert_eq!(s.wifi_config.as_ref().unwrap().password, b"secret".to_vec());
    let full = [b'k'; 64];
    runner_task_step(&mut s, RunnerCommand::WiFiSendPassword(full));
    assert_eq!(s.wifi_config.as_ref().unwrap().password, full.to_vec());
    let mut odd = [0u8; 64];
    odd[..3].copy_from_slice(b"abc");
    odd[5] = 0xff;
    runner_task_step(&mut s, RunnerCommand::WiFiSendPassword(odd));
    assert_eq!(s.wifi_config.as_ref().unwrap().password, b"abc".to_vec());
}

#[test]
fn error_conversions() {
    assert!(matches!(BleError::from_host_error(), BleError::UnknownError("An unknown BLE error occurred from touble-host")));
    assert!(matches!(StorageError::from_flash_error_kind(FlashErrorKind::OutOfBounds), StorageError::OutOfBounds("Flash storage error: Out of bounds")));
    assert!(matches!(StorageError::from_flash_error_kind(FlashErrorKind::NotAligned), StorageError::Other("Flash storage error: Not aligned")));
    assert!(matches!(StorageError::from_flash_error_kind(FlashErrorKind::Other), StorageError::Other("Flash storage error: Other")));
    assert!(matches!(StorageError::from_flash_error_kind(FlashErrorKind::Unknown), StorageError::Other("Flash storage error: Unknown")));
    assert_eq!(WifiError::from_dns_error(DnsQueryError::InvalidName), WifiError::DNSError(DNSError::InvalidName));
    assert_eq!(WifiError::from_dns_error(DnsQueryError::NameTooLong), WifiError::DNSError(DNSError::NameTooLong));
    assert_eq!(WifiError::from_dns_error(DnsQueryError::Failed), WifiError::DNSError(DNSError::Failed));
}

#[test]
fn global_test_talks_to_the_test_host() {
    assert_eq!(global_test_host(), "google.com");
    assert_eq!(
        global_test_request(),
        b"GET /generate_204 HTTP/1.1\r\nHost: google.com\r\nConnection: close\r\n\r\n".to_vec()
    );
    assert_eq!(GLOBAL_TEST_TIMEOUT_SECS, 5);
    assert_eq!(LOCAL_TEST_TIMEOUT_SECS, 2);
}

#[test]
fn finished_status_survives_timer_ticks() {
    for code in [0u8, 51, 52, 53, 54, 55, 201, 202, 205, 255] {
        let mut s = AppState::default();
        s.wifi_status = code;
        let mut m = ConnectionMonitor { started_at: None, retry_count: 0 };
        for now in [0u64, 20_000, 40_000] {
            let action = check_connecting_status(&mut s, &mut m, false, false, now);
            assert_eq!(action, ControllerAction::Nothing);
            idle_tick(&mut s, &m, false);
            assert_eq!(s.wifi_status, code);
        }
    }
}

#[test]
fn state_starts_empty() {
    let s = AppState::default();
    assert!(s.wifi_config.is_none());
    assert_eq!(s.wifi_status, 0);
    assert!(s.wifi_networks.is_empty());
    assert_eq!(s.current_page, 0);
    assert!(s.server_url.is_none());
    assert_eq!(s.status_code, 0);
    assert!(s.current_command.is_none());
}
