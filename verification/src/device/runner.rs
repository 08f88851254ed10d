//! The command dispatcher of the device: how each command received over GATT
//! changes the shared state and what it hands on to the Wi-Fi runner.

use vstd::prelude::*;
use vstd::slice::slice_to_vec;
use vstd::utf8::{encode_utf8, valid_utf8};
use crate::protocol::{spec_status_code, WifiStatus};
use crate::device::models::{
    credentials_fit, default_credentials, CredentialsView, ScanResultView, WifiCredentials,
    WifiScanResult, scan_views,
};
use crate::protocol::{
    connection_type_decodes, WifiConnectionType, MAX_NETWORKS_ON_DEVICE, MAX_PASSWORD_LEN,
    MAX_SSID_LEN, MAX_WIFI_CONNECTION_TYPE_SIZE,
};

verus! {

/// Commands that the GATT handlers send to the dispatcher.
#[derive(Clone, Copy)]
pub enum RunnerCommand {
    WiFiStartScanning,
    WiFiSelectScannedPage(u8),
    WiFiSendSSIDIndex(u8),
    WiFiSendPassword([u8; MAX_PASSWORD_LEN]),
    WifiSendConnectionType([u8; MAX_WIFI_CONNECTION_TYPE_SIZE]),
    WifiTryConnect,
    WifiTryDisconnect,
    PingLocalNetwork,
    PingGlobalNetwork,
    SendServerUrl([u8; 64]),
    SendGetRequest,
}

/// Commands of the application state's command register.
#[derive(Clone, Copy)]
pub enum AppStateCommand {
    WiFiStartScanning,
    WiFiSelectScannedPage(u8),
    WiFiSendSSIDIndex(u8),
    WiFiSendPassword([u8; 64]),
    SendServerUrl([u8; 64]),
    SendGetRequest,
    TestConnection,
}

/// Commands that the dispatcher hands on to the Wi-Fi runner.
#[derive(Debug, Clone, Copy, PartialEq, Eq, Structural)]
pub enum WifiRunnerCommand {
    /// Join the network of the stored credentials.
    Connect,
    /// Leave the network.
    Disconnect,
    /// Scan nearby networks and store them.
    Scan,
    /// Ping the router.
    PingLocal,
    /// Request a page from the Internet.
    PingGlobal,
}

/// The abstract content of the shared state.
pub struct AppStateView {
    pub wifi_config: Option<CredentialsView>,
    pub wifi_status: u8,
    pub wifi_networks: Seq<ScanResultView>,
    pub current_page: u8,
    pub server_url: Option<Seq<char>>,
    pub status_code: u8,
    pub current_command: Option<AppStateCommand>,
}

/// The state shared by the device's tasks.
pub struct AppState {
    /// Credentials to join with, once any were given.
    pub wifi_config: Option<WifiCredentials>,
    /// Code of the current `WifiStatus`.
    pub wifi_status: u8,
    /// Networks found by the last scan.
    pub wifi_networks: Vec<WifiScanResult>,
    /// Page of scan results that the page-data characteristic shows.
    pub current_page: u8,
    /// Address of the server to send requests to, once one was given.
    pub server_url: Option<String>,
    /// System status code.
    pub status_code: u8,
    /// Command register of the application, when a command waits in it.
    pub current_command: Option<AppStateCommand>,
}

/// The view of an optional text.
pub open spec fn text_view(t: Option<String>) -> Option<Seq<char>> {
    match t {
        Some(t) => Some(t@),
        None => None,
    }
}

/// The view of optional credentials.
pub open spec fn config_view(c: Option<WifiCredentials>) -> Option<CredentialsView> {
    match c {
        Some(c) => Some(c@),
        None => None,
    }
}

impl View for AppState {
    type V = AppStateView;

    open spec fn view(&self) -> AppStateView {
        AppStateView {
            wifi_config: config_view(self.wifi_config),
            wifi_status: self.wifi_status,
            wifi_networks: scan_views(self.wifi_networks@),
            current_page: self.current_page,
            server_url: text_view(self.server_url),
            status_code: self.status_code,
            current_command: self.current_command,
        }
    }
}

/// The state's contents fit the device's fixed-size storage: at most
/// `MAX_NETWORKS_ON_DEVICE` networks with SSIDs of at most `MAX_SSID_LEN` bytes, and
/// credentials that fit, and a server address of at most sixty-four UTF-8 bytes.
pub open spec fn state_fits(s: AppStateView) -> bool {
    &&& s.wifi_networks.len() <= MAX_NETWORKS_ON_DEVICE
    &&& forall|i: int|
        0 <= i < s.wifi_networks.len() ==> #[trigger] s.wifi_networks[i].ssid.len()
            <= MAX_SSID_LEN
    &&& s.wifi_config matches Some(c) ==> credentials_fit(c)
    &&& s.server_url matches Some(u) ==> encode_utf8(u).len() <= 64
}

/// The state at start-up: no credentials, idle, no networks, first page, no server
/// address, status code zero and no pending command.
pub open spec fn initial_state() -> AppStateView {
    AppStateView {
        wifi_config: None,
        wifi_status: 0,
        wifi_networks: Seq::empty(),
        current_page: 0,
        server_url: None,
        status_code: 0,
        current_command: None,
    }
}

impl Default for AppState {
    fn default() -> (res: Self)
        ensures
            res@ == initial_state(),
    {
        let res = AppState {
            wifi_config: None,
            wifi_status: 0,
            wifi_networks: Vec::new(),
            current_page: 0,
            server_url: None,
            status_code: 0,
            current_command: None,
        };
        assert(res@.wifi_networks =~= Seq::<ScanResultView>::empty());
        res
    }
}

/// The stored credentials, or the defaults when there are none.
pub open spec fn config_or_default(s: AppStateView) -> CredentialsView {
    match s.wifi_config {
        Some(c) => c,
        None => default_credentials(),
    }
}

/// Position of the first zero byte of `bytes`, or its length when it has none.
pub open spec fn first_nul(bytes: Seq<u8>) -> nat
    decreases bytes.len(),
{
    if bytes.len() == 0 || bytes[0] == 0 {
        0
    } else {
        1 + first_nul(bytes.drop_first())
    }
}

/// The bytes of `bytes` before its first zero byte.
pub open spec fn before_nul(bytes: Seq<u8>) -> Seq<u8> {
    bytes.subrange(0, first_nul(bytes) as int)
}

/// The password the device keeps from a received 64-byte buffer: the bytes before
/// the first zero byte (the padding) when they are valid UTF-8, nothing otherwise.
pub open spec fn received_password(buffer: Seq<u8>) -> Seq<u8> {
    if valid_utf8(before_nul(buffer)) {
        before_nul(buffer)
    } else {
        Seq::empty()
    }
}

/// The first zero byte lies within the sequence, every byte before it is non-zero,
/// and the byte at it, if any, is zero.
pub proof fn lemma_first_nul(bytes: Seq<u8>)
    ensures
        first_nul(bytes) <= bytes.len(),
        forall|i: int| 0 <= i < first_nul(bytes) ==> #[trigger] bytes[i] != 0,
        first_nul(bytes) < bytes.len() ==> bytes[first_nul(bytes) as int] == 0,
    decreases bytes.len(),
{
    if bytes.len() > 0 && bytes[0] != 0 {
        lemma_first_nul(bytes.drop_first());
        assert forall|i: int| 0 <= i < first_nul(bytes) implies #[trigger] bytes[i] != 0 by {
            if i > 0 {
                assert(bytes[i] == bytes.drop_first()[i - 1]);
            }
        }
    }
}

/// A position whose bytes before are all non-zero and whose byte is zero (or the
/// end) is the first zero byte.
pub proof fn lemma_first_nul_at(bytes: Seq<u8>, k: int)
    requires
        0 <= k <= bytes.len(),
        forall|i: int| 0 <= i < k ==> #[trigger] bytes[i] != 0,
        k < bytes.len() ==> bytes[k] == 0,
    ensures
        first_nul(bytes) == k,
    decreases bytes.len(),
{
    if k > 0 {
        assert(bytes[0] != 0);
        assert forall|i: int| 0 <= i < k - 1 implies #[trigger] bytes.drop_first()[i] != 0 by {
            assert(bytes.drop_first()[i] == bytes[i + 1]);
        }
        if k < bytes.len() {
            assert(bytes.drop_first()[k - 1] == bytes[k]);
        }
        lemma_first_nul_at(bytes.drop_first(), k - 1);
    }
}

/// `new` is the state after `command` was dispatched in state `old`, and `action`
/// what was handed on to the Wi-Fi runner.
pub open spec fn runner_step(
    old: AppStateView,
    command: RunnerCommand,
    new: AppStateView,
    action: Option<WifiRunnerCommand>,
) -> bool {
    match command {
        RunnerCommand::WiFiStartScanning => new == old && action == Some(WifiRunnerCommand::Scan),
        RunnerCommand::WiFiSelectScannedPage(page) => new == AppStateView {
            current_page: page,
            ..old
        } && action is None,
        RunnerCommand::WiFiSendSSIDIndex(index) => {
            &&& action is None
            &&& if old.wifi_networks.len() == 0 {
                new == AppStateView {
                    wifi_status: spec_status_code(WifiStatus::ErrorNoScannedNetworks),
                    ..old
                }
            } else if index >= old.wifi_networks.len() {
                new == old
            } else {
                let net = old.wifi_networks[index as int];
                new == AppStateView {
                    wifi_config: Some(
                        CredentialsView {
                            ssid: net.ssid,
                            password: config_or_default(old).password,
                            auth_method: net.auth_method,
                            connection_type: WifiConnectionType::DHCP,
                        },
                    ),
                    ..old
                }
            }
        },
        RunnerCommand::WiFiSendPassword(buffer) => {
            &&& action is None
            &&& new == AppStateView {
                wifi_config: Some(
                    CredentialsView { password: received_password(buffer@), ..config_or_default(old) },
                ),
                ..old
            }
        },
        RunnerCommand::WifiSendConnectionType(buffer) => {
            &&& action is None
            &&& new.wifi_config matches Some(c)
            &&& c.ssid == config_or_default(old).ssid
            &&& c.password == config_or_default(old).password
            &&& c.auth_method == config_or_default(old).auth_method
            &&& connection_type_decodes(buffer@, c.connection_type)
            &&& new == AppStateView { wifi_config: new.wifi_config, ..old }
        },
        RunnerCommand::WifiTryConnect => new == old && action == Some(WifiRunnerCommand::Connect),
        RunnerCommand::WifiTryDisconnect => new == old && action == Some(
            WifiRunnerCommand::Disconnect,
        ),
        RunnerCommand::PingLocalNetwork => new == old && action == Some(
            WifiRunnerCommand::PingLocal,
        ),
        RunnerCommand::PingGlobalNetwork => new == old && action == Some(
            WifiRunnerCommand::PingGlobal,
        ),
        RunnerCommand::SendServerUrl(_) => new == old && action is None,
        RunnerCommand::SendGetRequest => new == old && action is None,
    }
}

/// Calls `heapless::String::<64>::from_utf8` on the bytes (taken into a
/// `heapless::Vec` by `from_slice`) and reports whether it succeeded.
/// Claims that it succeeds exactly when the bytes are valid UTF-8: `from_utf8` runs
/// `core::str::from_utf8`, and at most sixty-four bytes always fit the vector.
#[verifier::external_body]
fn password_is_utf8(buffer: &[u8]) -> (res: bool)
    requires
        buffer@.len() <= MAX_PASSWORD_LEN,
    ensures
        res == valid_utf8(buffer@),
{
    let bytes: heapless::Vec<u8, 64> = heapless::Vec::from_slice(buffer).unwrap_or_default();
    heapless::String::<64>::from_utf8(bytes).is_ok()
}

/// The bytes of a password buffer before its first zero byte.
fn password_before_nul(src: &[u8; MAX_PASSWORD_LEN]) -> (res: Vec<u8>)
    ensures
        res@ == before_nul(src@),
        res@.len() <= MAX_PASSWORD_LEN,
{
    let mut out: Vec<u8> = Vec::new();
    let mut i: usize = 0;
    while i < MAX_PASSWORD_LEN && src[i] != 0
        invariant
            i <= MAX_PASSWORD_LEN,
            src@.len() == MAX_PASSWORD_LEN,
            out@ == src@.subrange(0, i as int),
            forall|j: int| 0 <= j < i ==> #[trigger] src@[j] != 0,
        decreases MAX_PASSWORD_LEN - i,
    {
        out.push(src[i]);
        i = i + 1;
        assert(out@ =~= src@.subrange(0, i as int));
    }
    proof {
        lemma_first_nul_at(src@, i as int);
    }
    out
}

/// Takes the stored credentials out of the state, or the defaults when there are none.
fn take_config(state: &mut AppState) -> (res: WifiCredentials)
    ensures
        res@ == config_or_default(old(state)@),
        final(state)@ == (AppStateView { wifi_config: None, ..old(state)@ }),
{
    match state.wifi_config.take() {
        Some(c) => c,
        None => WifiCredentials::default(),
    }
}

/// Dispatches one command received over GATT: updates the shared state and returns
/// the command to hand on to the Wi-Fi runner, if any.
pub fn runner_task_step(state: &mut AppState, command: RunnerCommand) -> (action: Option<
    WifiRunnerCommand,
>)
    ensures
        runner_step(old(state)@, command, final(state)@, action),
        state_fits(old(state)@) ==> state_fits(final(state)@),
{
    let ghost before = state@;
    match command {
        RunnerCommand::WiFiStartScanning => Some(WifiRunnerCommand::Scan),
        RunnerCommand::WiFiSelectScannedPage(page) => {
            state.current_page = page;
            None
        },
        RunnerCommand::WiFiSendSSIDIndex(index) => {
            if state.wifi_networks.len() == 0 {
                state.wifi_status = WifiStatus::ErrorNoScannedNetworks.code();
            } else if (index as usize) < state.wifi_networks.len() {
                let ssid = slice_to_vec(state.wifi_networks[index as usize].ssid.as_slice());
                let auth_method = state.wifi_networks[index as usize].auth_method;
                assert(before.wifi_networks[index as int] == state.wifi_networks@[index as int]@);
                let old_config = take_config(state);
                state.wifi_config = Some(
                    WifiCredentials {
                        ssid,
                        password: old_config.password,
                        auth_method,
                        connection_type: WifiConnectionType::DHCP,
                    },
                );
            }
            None
        },
        RunnerCommand::WiFiSendPassword(password) => {
            let old_config = take_config(state);
            let candidate = password_before_nul(&password);
            let password = if password_is_utf8(candidate.as_slice()) {
                candidate
            } else {
                Vec::new()
            };
            assert(password@ =~= received_password(command->WiFiSendPassword_0@));
            state.wifi_config = Some(
                WifiCredentials {
                    ssid: old_config.ssid,
                    password,
                    auth_method: old_config.auth_method,
                    connection_type: old_config.connection_type,
                },
            );
            None
        },
        RunnerCommand::WifiSendConnectionType(connection_type) => {
            let old_config = take_config(state);
            let connection_type = WifiConnectionType::from_bytes(connection_type);
            state.wifi_config = Some(
                WifiCredentials {
                    ssid: old_config.ssid,
                    password: old_config.password,
                    auth_method: old_config.auth_method,
                    connection_type,
                },
            );
            None
        },
        RunnerCommand::WifiTryConnect => Some(WifiRunnerCommand::Connect),
        RunnerCommand::WifiTryDisconnect => Some(WifiRunnerCommand::Disconnect),
        RunnerCommand::PingLocalNetwork => Some(WifiRunnerCommand::PingLocal),
        RunnerCommand::PingGlobalNetwork => Some(WifiRunnerCommand::PingGlobal),
        RunnerCommand::SendServerUrl(_) => None,
        RunnerCommand::SendGetRequest => None,
    }
}

/// The dispatcher never changes the scan list: only the Wi-Fi runner's scans do.
pub proof fn lemma_dispatch_keeps_networks(
    old: AppStateView,
    command: RunnerCommand,
    new: AppStateView,
    action: Option<WifiRunnerCommand>,
)
    requires
        runner_step(old, command, new, action),
    ensures
        new.wifi_networks == old.wifi_networks,
{
}

/// Sending a password or a connection type keeps the chosen network and its security,
/// and leaves credentials stored.
pub proof fn lemma_settings_keep_network(
    old: AppStateView,
    command: RunnerCommand,
    new: AppStateView,
    action: Option<WifiRunnerCommand>,
)
    requires
        runner_step(old, command, new, action),
        command is WiFiSendPassword || command is WifiSendConnectionType,
    ensures
        new.wifi_config is Some,
        config_or_default(new).ssid == config_or_default(old).ssid,
        config_or_default(new).auth_method == config_or_default(old).auth_method,
{
}

/// Choosing a network keeps the password sent before and starts over with DHCP; an
/// index past the end of a non-empty scan list changes nothing.
pub proof fn lemma_select_network_keeps_password(
    old: AppStateView,
    index: u8,
    new: AppStateView,
    action: Option<WifiRunnerCommand>,
)
    requires
        runner_step(old, RunnerCommand::WiFiSendSSIDIndex(index), new, action),
        old.wifi_networks.len() > 0,
    ensures
        index < old.wifi_networks.len() ==> config_or_default(new).password == config_or_default(
            old,
        ).password && config_or_default(new).connection_type == WifiConnectionType::DHCP
            && config_or_default(new).ssid == old.wifi_networks[index as int].ssid,
        index >= old.wifi_networks.len() ==> new == old,
{
}

} // verus!
