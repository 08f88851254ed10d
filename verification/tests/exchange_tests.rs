use wifi_provisioner::client::models::WifiStatus as ClientStatus;
use wifi_provisioner::device::models::WifiStatus as DeviceStatus;
use wifi_provisioner::client::models::{WifiCredentials, WifiScanResult as ClientScanResult};
use wifi_provisioner::client::services::{collect_networks, connect_writes};
use wifi_provisioner::device::gatt::{match_write_events, CharacteristicAction};
use wifi_provisioner::device::models::{build_page_data, pages_count, WifiScanResult};
use wifi_provisioner::device::runner::{runner_task_step, AppState};
use wifi_provisioner::protocol::{AuthMethod, Characteristic, WifiConnectionType};

fn action_for(c: Characteristic) -> CharacteristicAction {
    match c {
        Characteristic::WifiSetSsidIndex => CharacteristicAction::WifiSetSSIDIndex,
        Characteristic::WifiSetConnectionType => CharacteristicAction::WifiSetConnectionType,
        Characteristic::WifiSetPassword => CharacteristicAction::WifiSetPassword,
        Characteristic::WifiConnect => CharacteristicAction::WifiConnect,
        other => panic!("unexpected write to {:?}", other),
    }
}

#[test]
fn client_settings_reach_the_device() {
    let mut state = AppState::default();
    state.wifi_networks = vec![
        WifiScanResult::new(b"first".to_vec(), -40, AuthMethod::Wpa2Personal),
        WifiScanResult::new(b"second".to_vec(), -60, AuthMethod::Wpa3Personal),
    ];
    let mut ip = [0u8; 16];
    ip[0] = 0x20;
    ip[15] = 7;
    let connection_type = WifiConnectionType::StaticV6 { ip, prefix_length: 48, gateway: ip };
    let creds = WifiCredentials { network_index: 1, password: "hunter2".to_string(), connection_type };
    let mut forwarded = Vec::new();
    for write in connect_writes(&creds) {
        let command = match_write_events(action_for(write.characteristic), &write.value).expect("a command");
        forwarded.push(runner_task_step(&mut state, command));
    }
    let config = state.wifi_config.as_ref().expect("credentials stored");
    assert_eq!(config.ssid, b"second".to_vec());
    assert_eq!(config.auth_method, AuthMethod::Wpa3Personal);
    assert_eq!(config.connection_type, connection_type);
    assert_eq!(config.password, b"hunter2".to_vec());
    assert_eq!(forwarded.last().copied().flatten(), Some(wifi_provisioner::device::runner::WifiRunnerCommand::Connect));
}

#[test]
fn device_statuses_read_by_name_on_the_client() {
    let pairs = [
        (DeviceStatus::Idle, ClientStatus::Idle),
        (DeviceStatus::Scanning, ClientStatus::Scanning),
        (DeviceStatus::Connected, ClientStatus::Connected),
        (DeviceStatus::Disconnected, ClientStatus::Disconnected),
        (DeviceStatus::LocalTestSuccess, ClientStatus::LocalTestSuccess),
        (DeviceStatus::GlobalTestSuccess, ClientStatus::GlobalTestSuccess),
        (DeviceStatus::ErrorWhileConnecting, ClientStatus::ErrorWhileConnecting),
        (DeviceStatus::ErrorNoScannedNetworks, ClientStatus::ErrorNoScannedNetworks),
        (DeviceStatus::Error, ClientStatus::Error),
    ];
    for (d, c) in pairs {
        assert_eq!(ClientStatus::from(d.code()), c);
    }
}

#[test]
fn every_network_is_on_a_reported_page() {
    let networks: Vec<WifiScanResult> = (0..24)
        .map(|i| WifiScanResult::new(format!("ssid{:02}", i).into_bytes(), -50, AuthMethod::Wpa))
        .collect();
    let pages = pages_count(networks.len());
    assert_eq!(pages, 5);
    let mut seen = Vec::new();
    for page in 0..pages {
        for entry in ClientScanResult::from_bytes(&build_page_data(&networks, page)) {
            seen.push(entry.ssid);
        }
    }
    let expected: Vec<String> = (0..24).map(|i| format!("ssid{:02}", i)).collect();
    assert_eq!(seen, expected);
}

#[test]
fn client_list_equals_device_list() {
    let networks: Vec<WifiScanResult> = (0..7)
        .map(|i| WifiScanResult::new(format!("net-{}", i).into_bytes(), -30 - i as i8, AuthMethod::Wpa2Personal))
        .collect();
    let count = pages_count(networks.len());
    assert_eq!(count, 2);
    let pages: Vec<Vec<u8>> = (0..count).map(|p| build_page_data(&networks, p)).collect();
    let list = collect_networks(&pages);
    assert_eq!(list.len(), networks.len());
    for (i, entry) in list.iter().enumerate() {
        assert_eq!(entry.ssid, format!("net-{}", i));
        assert_eq!(entry.rssi, -30 - i as i8);
        assert_eq!(entry.auth_method, AuthMethod::Wpa2Personal);
    }
}
