//! The device's GATT handlers: which characteristic an attribute handle belongs to,
//! the command a write becomes, and the value a read returns.

use vstd::prelude::*;
use crate::device::models::{
    build_page_data, is_page_data, pages_count, spec_pages_count, scan_views,
};
use crate::device::runner::{AppState, RunnerCommand};
use crate::protocol::{MAX_PASSWORD_LEN, MAX_WIFI_CONNECTION_TYPE_SIZE};

verus! {

/// What a GATT event on a characteristic asks for.
#[derive(Debug, Clone, Copy, PartialEq, Eq, Structural)]
pub enum CharacteristicAction {
    WifiScanCmd,
    WifiGetStatus,
    WifiGetPagesCount,
    WifiSelectPage,
    WifiGetPageData,
    StatusCode,
    WifiSetSSIDIndex,
    WifiSetPassword,
    WifiSetConnectionType,
    WifiConnect,
    WifiDisconnect,
    WifiLocalTest,
    WifiGlobalTest,
}

/// The attribute handles of the provisioning service's characteristics.
#[derive(Debug, Clone, Copy)]
pub struct GeneralService {
    pub wifi_scan_cmd: u16,
    pub wifi_get_status: u16,
    pub wifi_get_pages_count: u16,
    pub wifi_select_page: u16,
    pub wifi_get_page_data: u16,
    pub wifi_set_ssid_index: u16,
    pub wifi_set_password: u16,
    pub wifi_set_connection_type: u16,
    pub wifi_connect: u16,
    pub wifi_disconnect: u16,
    pub wifi_local_test: u16,
    pub wifi_global_test: u16,
    pub status_code: u16,
}

/// The GATT server of the device, as far as its handlers need it: the handles of
/// its one service.
#[derive(Debug, Clone, Copy)]
pub struct BleGATTServer {
    pub general_service: GeneralService,
}

/// The action of the first characteristic, in the service's order, whose handle is
/// `handle`.
pub open spec fn spec_handle_action(s: GeneralService, handle: u16) -> Option<CharacteristicAction> {
    if handle == s.wifi_scan_cmd {
        Some(CharacteristicAction::WifiScanCmd)
    } else if handle == s.wifi_get_status {
        Some(CharacteristicAction::WifiGetStatus)
    } else if handle == s.wifi_get_pages_count {
        Some(CharacteristicAction::WifiGetPagesCount)
    } else if handle == s.wifi_select_page {
        Some(CharacteristicAction::WifiSelectPage)
    } else if handle == s.status_code {
        Some(CharacteristicAction::StatusCode)
    } else if handle == s.wifi_get_page_data {
        Some(CharacteristicAction::WifiGetPageData)
    } else if handle == s.wifi_set_ssid_index {
        Some(CharacteristicAction::WifiSetSSIDIndex)
    } else if handle == s.wifi_set_password {
        Some(CharacteristicAction::WifiSetPassword)
    } else if handle == s.wifi_set_connection_type {
        Some(CharacteristicAction::WifiSetConnectionType)
    } else if handle == s.wifi_connect {
        Some(CharacteristicAction::WifiConnect)
    } else if handle == s.wifi_disconnect {
        Some(CharacteristicAction::WifiDisconnect)
    } else if handle == s.wifi_local_test {
        Some(CharacteristicAction::WifiLocalTest)
    } else if handle == s.wifi_global_test {
        Some(CharacteristicAction::WifiGlobalTest)
    } else {
        None
    }
}

/// The handles of the service's characteristics, in the service's order.
pub open spec fn service_handles(s: GeneralService) -> Seq<u16> {
    seq![
        s.wifi_scan_cmd,
        s.wifi_get_status,
        s.wifi_get_pages_count,
        s.wifi_select_page,
        s.wifi_get_page_data,
        s.wifi_set_ssid_index,
        s.wifi_set_password,
        s.wifi_set_connection_type,
        s.wifi_connect,
        s.wifi_disconnect,
        s.wifi_local_test,
        s.wifi_global_test,
        s.status_code,
    ]
}

/// No two characteristics of the service share a handle.
pub open spec fn handles_distinct(s: GeneralService) -> bool {
    forall|i: int, j: int|
        0 <= i < j < 13 ==> #[trigger] service_handles(s)[i] != #[trigger] service_handles(s)[j]
}

/// Handle law: in a service whose characteristics have distinct handles, the handle
/// of each characteristic is taken for that characteristic and no other, and a handle
/// of none of them concerns no characteristic.
pub proof fn lemma_handle_action_table(s: GeneralService, handle: u16)
    requires
        handles_distinct(s),
    ensures
        spec_handle_action(s, s.wifi_scan_cmd) == Some(CharacteristicAction::WifiScanCmd),
        spec_handle_action(s, s.wifi_get_status) == Some(CharacteristicAction::WifiGetStatus),
        spec_handle_action(s, s.wifi_get_pages_count) == Some(
            CharacteristicAction::WifiGetPagesCount,
        ),
        spec_handle_action(s, s.wifi_select_page) == Some(CharacteristicAction::WifiSelectPage),
        spec_handle_action(s, s.wifi_get_page_data) == Some(CharacteristicAction::WifiGetPageData),
        spec_handle_action(s, s.wifi_set_ssid_index) == Some(
            CharacteristicAction::WifiSetSSIDIndex,
        ),
        spec_handle_action(s, s.wifi_set_password) == Some(CharacteristicAction::WifiSetPassword),
        spec_handle_action(s, s.wifi_set_connection_type) == Some(
            CharacteristicAction::WifiSetConnectionType,
        ),
        spec_handle_action(s, s.wifi_connect) == Some(CharacteristicAction::WifiConnect),
        spec_handle_action(s, s.wifi_disconnect) == Some(CharacteristicAction::WifiDisconnect),
        spec_handle_action(s, s.wifi_local_test) == Some(CharacteristicAction::WifiLocalTest),
        spec_handle_action(s, s.wifi_global_test) == Some(CharacteristicAction::WifiGlobalTest),
        spec_handle_action(s, s.status_code) == Some(CharacteristicAction::StatusCode),
        !service_handles(s).contains(handle) ==> spec_handle_action(s, handle) is None,
{
    let h = service_handles(s);
    assert(h[0] == s.wifi_scan_cmd && h[1] == s.wifi_get_status && h[2] == s.wifi_get_pages_count
        && h[3] == s.wifi_select_page && h[4] == s.wifi_get_page_data && h[5]
        == s.wifi_set_ssid_index && h[6] == s.wifi_set_password && h[7]
        == s.wifi_set_connection_type && h[8] == s.wifi_connect && h[9] == s.wifi_disconnect
        && h[10] == s.wifi_local_test && h[11] == s.wifi_global_test && h[12] == s.status_code);
    if !h.contains(handle) {
        assert(handle != h[0] && handle != h[1] && handle != h[2] && handle != h[3] && handle
            != h[4] && handle != h[5] && handle != h[6] && handle != h[7] && handle != h[8]
            && handle != h[9] && handle != h[10] && handle != h[11] && handle != h[12]);
    }
}

impl BleGATTServer {
    /// The characteristic that an event on `handle` concerns, if any.
    pub fn handle_action(&self, handle: u16) -> (res: Option<CharacteristicAction>)
        ensures
            res == spec_handle_action(self.general_service, handle),
    {
        let s = &self.general_service;
        if handle == s.wifi_scan_cmd {
            Some(CharacteristicAction::WifiScanCmd)
        } else if handle == s.wifi_get_status {
            Some(CharacteristicAction::WifiGetStatus)
        } else if handle == s.wifi_get_pages_count {
            Some(CharacteristicAction::WifiGetPagesCount)
        } else if handle == s.wifi_select_page {
            Some(CharacteristicAction::WifiSelectPage)
        } else if handle == s.status_code {
            Some(CharacteristicAction::StatusCode)
        } else if handle == s.wifi_get_page_data {
            Some(CharacteristicAction::WifiGetPageData)
        } else if handle == s.wifi_set_ssid_index {
            Some(CharacteristicAction::WifiSetSSIDIndex)
        } else if handle == s.wifi_set_password {
            Some(CharacteristicAction::WifiSetPassword)
        } else if handle == s.wifi_set_connection_type {
            Some(CharacteristicAction::WifiSetConnectionType)
        } else if handle == s.wifi_connect {
            Some(CharacteristicAction::WifiConnect)
        } else if handle == s.wifi_disconnect {
            Some(CharacteristicAction::WifiDisconnect)
        } else if handle == s.wifi_local_test {
            Some(CharacteristicAction::WifiLocalTest)
        } else if handle == s.wifi_global_test {
            Some(CharacteristicAction::WifiGlobalTest)
        } else {
            None
        }
    }
}

/// `data` cut or padded with zeros to `len` bytes.
pub open spec fn padded(data: Seq<u8>, len: nat) -> Seq<u8> {
    Seq::new(len, |i: int| if i < data.len() { data[i] } else { 0u8 })
}

/// A write needs at least one byte of data to be understood.
pub open spec fn write_needs_byte(action: CharacteristicAction) -> bool {
    action is WifiSelectPage || action is WifiSetSSIDIndex
}

/// `res` is the command that a write of `data` to the characteristic of `action`
/// becomes: scan, page and network selection, password and connection type (padded
/// with zeros or cut to their buffers), connect, disconnect and the two tests;
/// writes to read-only characteristics become nothing.
pub open spec fn write_command(
    action: CharacteristicAction,
    data: Seq<u8>,
    res: Option<RunnerCommand>,
) -> bool {
    match action {
        CharacteristicAction::WifiScanCmd => res matches Some(RunnerCommand::WiFiStartScanning),
        CharacteristicAction::WifiSelectPage => res matches Some(
            RunnerCommand::WiFiSelectScannedPage(page),
        ) && page == data[0],
        CharacteristicAction::WifiSetSSIDIndex => res matches Some(
            RunnerCommand::WiFiSendSSIDIndex(index),
        ) && index == data[0],
        CharacteristicAction::WifiSetPassword => res matches Some(
            RunnerCommand::WiFiSendPassword(buffer),
        ) && buffer@ == padded(data, MAX_PASSWORD_LEN as nat),
        CharacteristicAction::WifiSetConnectionType => res matches Some(
            RunnerCommand::WifiSendConnectionType(buffer),
        ) && buffer@ == padded(data, MAX_WIFI_CONNECTION_TYPE_SIZE as nat),
        CharacteristicAction::WifiConnect => res matches Some(RunnerCommand::WifiTryConnect),
        CharacteristicAction::WifiDisconnect => res matches Some(
            RunnerCommand::WifiTryDisconnect,
        ),
        CharacteristicAction::WifiLocalTest => res matches Some(RunnerCommand::PingLocalNetwork),
        CharacteristicAction::WifiGlobalTest => res matches Some(
            RunnerCommand::PingGlobalNetwork,
        ),
        _ => res is None,
    }
}

/// Fills `buffer` with the bytes of `data`, cut to the buffer's length and padded
/// with zeros.
fn fill_padded(buffer: &mut [u8], data: &[u8])
    ensures
        final(buffer)@ == padded(data@, old(buffer)@.len()),
{
    let n = buffer.len();
    let mut i: usize = 0;
    while i < n
        invariant
            i <= n,
            n == old(buffer)@.len(),
            buffer@.len() == n,
            forall|j: int| 0 <= j < i ==> buffer@[j] == padded(data@, n as nat)[j],
        decreases n - i,
    {
        let b = if i < data.len() {
            data[i]
        } else {
            0u8
        };
        buffer[i] = b;
        i = i + 1;
    }
    assert(buffer@ =~= padded(data@, n as nat));
}

/// Copies `data` into a 64-byte buffer, padding with zeros.
fn pad_password(data: &[u8]) -> (res: [u8; MAX_PASSWORD_LEN])
    ensures
        res@ == padded(data@, MAX_PASSWORD_LEN as nat),
{
    let mut layout = [0u8; MAX_PASSWORD_LEN];
    fill_padded(&mut layout, data);
    layout
}

/// Copies `data` into a 34-byte buffer, padding with zeros.
fn pad_connection_type(data: &[u8]) -> (res: [u8; MAX_WIFI_CONNECTION_TYPE_SIZE])
    ensures
        res@ == padded(data@, MAX_WIFI_CONNECTION_TYPE_SIZE as nat),
{
    let mut layout = [0u8; MAX_WIFI_CONNECTION_TYPE_SIZE];
    fill_padded(&mut layout, data);
    layout
}

/// The command that a GATT write of `data` to the characteristic of `action`
/// becomes, if any.
pub fn match_write_events(action: CharacteristicAction, data: &[u8]) -> (res: Option<
    RunnerCommand,
>)
    requires
        write_needs_byte(action) ==> data@.len() > 0,
    ensures
        write_command(action, data@, res),
{
    match action {
        CharacteristicAction::WifiScanCmd => Some(RunnerCommand::WiFiStartScanning),
        CharacteristicAction::WifiSelectPage => Some(RunnerCommand::WiFiSelectScannedPage(data[0])),
        CharacteristicAction::WifiSetSSIDIndex => Some(RunnerCommand::WiFiSendSSIDIndex(data[0])),
        CharacteristicAction::WifiSetPassword => Some(
            RunnerCommand::WiFiSendPassword(pad_password(data)),
        ),
        CharacteristicAction::WifiSetConnectionType => Some(
            RunnerCommand::WifiSendConnectionType(pad_connection_type(data)),
        ),
        CharacteristicAction::WifiConnect => Some(RunnerCommand::WifiTryConnect),
        CharacteristicAction::WifiDisconnect => Some(RunnerCommand::WifiTryDisconnect),
        CharacteristicAction::WifiLocalTest => Some(RunnerCommand::PingLocalNetwork),
        CharacteristicAction::WifiGlobalTest => Some(RunnerCommand::PingGlobalNetwork),
        _ => None,
    }
}

/// The value that a GATT read returns.
#[derive(Debug, Clone)]
pub enum ReadValue {
    /// One byte: a status code or the number of pages.
    Byte(u8),
    /// The selected page of scan results.
    PageData(Vec<u8>),
}

/// The value that a GATT read of the characteristic of `action` returns in
/// `state`: the status code, the number of pages, the selected page or the system
/// status code; reads of write-only characteristics return nothing.
pub fn match_read_events(action: CharacteristicAction, state: &AppState) -> (res: Option<ReadValue>)
    ensures
        action is WifiGetStatus ==> res == Some(ReadValue::Byte(state.wifi_status)),
        action is WifiGetPagesCount ==> res == Some(
            ReadValue::Byte(spec_pages_count(state.wifi_networks@.len())),
        ),
        action is WifiGetPageData ==> (res matches Some(ReadValue::PageData(data)) && is_page_data(
            data@,
            scan_views(state.wifi_networks@),
            state.current_page as int,
        )),
        action is StatusCode ==> res == Some(ReadValue::Byte(state.status_code)),
        !(action is WifiGetStatus || action is WifiGetPagesCount || action is WifiGetPageData
            || action is StatusCode) ==> res is None,
{
    match action {
        CharacteristicAction::WifiGetStatus => Some(ReadValue::Byte(state.wifi_status)),
        CharacteristicAction::WifiGetPagesCount => Some(
            ReadValue::Byte(pages_count(state.wifi_networks.len())),
        ),
        CharacteristicAction::WifiGetPageData => Some(
            ReadValue::PageData(build_page_data(&state.wifi_networks, state.current_page)),
        ),
        CharacteristicAction::StatusCode => Some(ReadValue::Byte(state.status_code)),
        _ => None,
    }
}

/// Company identifier of the manufacturer data in the scan response.
pub const MANUFACTURER_COMPANY_ID: u16 = 0x7562;

/// The service UUID as the scan response carries it: the bytes of its raw form in
/// reverse order.
pub fn advertised_service_uuid(raw: [u8; 16]) -> (res: [u8; 16])
    ensures
        forall|i: int| 0 <= i < 16 ==> res@[i] == raw@[15 - i],
{
    let mut format_array = [0u8; 16];
    let mut i: usize = 0;
    while i < 16
        invariant
            i <= 16,
            format_array@.len() == 16,
            forall|j: int| 0 <= j < i ==> format_array@[j] == raw@[15 - j],
        decreases 16 - i,
    {
        format_array[i] = raw[15 - i];
        i = i + 1;
    }
    format_array
}

} // verus!
