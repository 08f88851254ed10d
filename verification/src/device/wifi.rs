//! The decisions of the device's Wi-Fi runner: storing scan results, following a
//! connection attempt with its retries, and judging the connectivity tests.

use vstd::prelude::*;
use vstd::slice::slice_to_vec;
use vstd::utf8::{encode_utf8, valid_utf8};
use crate::protocol::{spec_status_code, WifiStatus};
use crate::device::models::{
    default_auth_method, ScanResultView,
    WifiScanResult, scan_views,
};
use crate::device::runner::{config_or_default, state_fits, AppState, AppStateView};
use crate::errors::{spec_wifi_error_from_dns, DNSError, DnsQueryError, WifiError};
use crate::protocol::{AuthMethod, WifiConnectionType, MAX_NETWORKS_ON_DEVICE, MAX_SSID_LEN};
use crate::text::is_valid_utf8;

verus! {

/// An access point as the radio reports it after a scan.
pub struct RawAccessPoint {
    pub ssid: String,
    pub signal_strength: i8,
    pub auth_method: Option<AuthMethod>,
}

/// The abstract content of a reported access point.
pub struct RawAccessPointView {
    pub ssid: Seq<char>,
    pub signal_strength: i8,
    pub auth_method: Option<AuthMethod>,
}

impl View for RawAccessPoint {
    type V = RawAccessPointView;

    open spec fn view(&self) -> RawAccessPointView {
        RawAccessPointView {
            ssid: self.ssid@,
            signal_strength: self.signal_strength,
            auth_method: self.auth_method,
        }
    }
}

/// Calls `heapless::String::<64>::from_str` on the SSID and takes the bytes of the
/// result. Claims what heapless's `push_str` shows: it succeeds exactly when the
/// SSID's UTF-8 bytes fit the sixty-four-byte string, and keeps those bytes.
#[verifier::external_body]
fn bounded_ssid(ssid: &str) -> (res: Option<Vec<u8>>)
    ensures
        (encode_utf8(ssid@).len() <= MAX_SSID_LEN) == (res is Some),
        res matches Some(bytes) ==> bytes@ == encode_utf8(ssid@),
{
    match <heapless::String<64> as core::str::FromStr>::from_str(ssid) {
        Ok(s) => Some(s.as_bytes().to_vec()),
        Err(()) => None,
    }
}

/// The scan result that the device keeps for a reported access point: its SSID
/// bytes, or no SSID when they exceed `MAX_SSID_LEN`; its signal strength; its
/// security, WPA2 Personal when none was reported.
pub open spec fn scanned_entry(ap: RawAccessPointView) -> ScanResultView {
    ScanResultView {
        ssid: if encode_utf8(ap.ssid).len() <= MAX_SSID_LEN {
            encode_utf8(ap.ssid)
        } else {
            Seq::empty()
        },
        rssi: ap.signal_strength,
        auth_method: match ap.auth_method {
            Some(a) => a,
            None => default_auth_method(),
        },
    }
}

/// The scan list kept from reported access points: in report order, hidden ones
/// (empty SSID) left out, and no more than `MAX_NETWORKS_ON_DEVICE`.
pub open spec fn spec_collect_scan(aps: Seq<RawAccessPointView>) -> Seq<ScanResultView>
    decreases aps.len(),
{
    if aps.len() == 0 {
        seq![]
    } else {
        let prev = spec_collect_scan(aps.drop_last());
        let ap = aps.last();
        if ap.ssid.len() == 0 || prev.len() >= MAX_NETWORKS_ON_DEVICE {
            prev
        } else {
            prev.push(scanned_entry(ap))
        }
    }
}

/// The views of reported access points.
pub open spec fn raw_views(aps: Seq<RawAccessPoint>) -> Seq<RawAccessPointView> {
    aps.map_values(|ap: RawAccessPoint| ap@)
}

/// Each kept network fits the device's storage, and there are at most
/// `MAX_NETWORKS_ON_DEVICE`.
pub proof fn lemma_collect_scan_fits(aps: Seq<RawAccessPointView>)
    ensures
        spec_collect_scan(aps).len() <= MAX_NETWORKS_ON_DEVICE,
        spec_collect_scan(aps).len() <= aps.len(),
        forall|i: int|
            0 <= i < spec_collect_scan(aps).len() ==> #[trigger] spec_collect_scan(aps)[i].ssid.len()
                <= MAX_SSID_LEN,
    decreases aps.len(),
{
    if aps.len() > 0 {
        lemma_collect_scan_fits(aps.drop_last());
    }
}

/// The entry kept for access point `ap` carries that access point's data: its SSID
/// bytes (cleared when longer than sixty-four bytes), its signal strength, and its
/// security, WPA2 Personal when none was reported.
pub open spec fn kept_from(entry: ScanResultView, ap: RawAccessPointView) -> bool {
    &&& entry.rssi == ap.signal_strength
    &&& (encode_utf8(ap.ssid).len() <= 64 ==> entry.ssid == encode_utf8(ap.ssid))
    &&& (encode_utf8(ap.ssid).len() > 64 ==> entry.ssid.len() == 0)
    &&& (ap.auth_method matches Some(a) ==> entry.auth_method == a)
    &&& (ap.auth_method is None ==> entry.auth_method == AuthMethod::Wpa2Personal)
}

/// Scan provenance law: every kept network comes from a reported access point with a
/// non-empty SSID, and keeps that access point's signal strength, security and SSID.
pub proof fn lemma_collect_scan_provenance(aps: Seq<RawAccessPointView>)
    ensures
        forall|i: int|
            0 <= i < spec_collect_scan(aps).len() ==> exists|j: int|
                0 <= j < aps.len() && aps[j].ssid.len() > 0 && kept_from(
                    #[trigger] spec_collect_scan(aps)[i],
                    aps[j],
                ),
    decreases aps.len(),
{
    if aps.len() > 0 {
        let prev = aps.drop_last();
        lemma_collect_scan_provenance(prev);
        let res = spec_collect_scan(aps);
        assert forall|i: int| 0 <= i < res.len() implies exists|j: int|
            0 <= j < aps.len() && aps[j].ssid.len() > 0 && kept_from(#[trigger] res[i], aps[j]) by {
            if i < spec_collect_scan(prev).len() {
                assert(res[i] == spec_collect_scan(prev)[i]);
                let j = choose|j: int|
                    0 <= j < prev.len() && prev[j].ssid.len() > 0 && kept_from(
                        spec_collect_scan(prev)[i],
                        prev[j],
                    );
                assert(aps[j] == prev[j]);
            } else {
                let j = aps.len() - 1;
                assert(res[i] == scanned_entry(aps[j]));
                assert(kept_from(res[i], aps[j]));
            }
        }
    }
}

/// Scan completeness law: when at most `MAX_NETWORKS_ON_DEVICE` access points are
/// reported and none is hidden, every one is kept, in report order, each with its own
/// signal strength, security and SSID.
pub proof fn lemma_collect_scan_keeps_all(aps: Seq<RawAccessPointView>)
    requires
        aps.len() <= MAX_NETWORKS_ON_DEVICE,
        forall|j: int| 0 <= j < aps.len() ==> (#[trigger] aps[j]).ssid.len() > 0,
    ensures
        spec_collect_scan(aps).len() == aps.len(),
        forall|i: int| 0 <= i < aps.len() ==> kept_from(#[trigger] spec_collect_scan(aps)[i], aps[i]),
    decreases aps.len(),
{
    if aps.len() > 0 {
        let prev = aps.drop_last();
        assert forall|j: int| 0 <= j < prev.len() implies (#[trigger] prev[j]).ssid.len() > 0 by {
            assert(prev[j] == aps[j]);
        }
        lemma_collect_scan_keeps_all(prev);
        let res = spec_collect_scan(aps);
        assert forall|i: int| 0 <= i < aps.len() implies kept_from(#[trigger] res[i], aps[i]) by {
            if i < prev.len() {
                assert(res[i] == spec_collect_scan(prev)[i]);
                assert(aps[i] == prev[i]);
            } else {
                assert(res[i] == scanned_entry(aps[i]));
            }
        }
    }
}

/// Scan prefix law: the networks kept from the first `n` reported access points are
/// the first networks kept from all of them; reports that come later never change or
/// reorder what was kept from earlier ones.
pub proof fn lemma_collect_scan_prefix(aps: Seq<RawAccessPointView>, n: int)
    requires
        0 <= n <= aps.len(),
    ensures
        spec_collect_scan(aps.take(n)).len() <= spec_collect_scan(aps).len(),
        spec_collect_scan(aps.take(n)) == spec_collect_scan(aps).take(
            spec_collect_scan(aps.take(n)).len() as int,
        ),
    decreases aps.len() - n,
{
    if n == aps.len() {
        assert(aps.take(n) =~= aps);
        assert(spec_collect_scan(aps).take(spec_collect_scan(aps).len() as int) =~= spec_collect_scan(aps));
    } else {
        lemma_collect_scan_prefix(aps, n + 1);
        assert(aps.take(n + 1).drop_last() =~= aps.take(n));
        let a = spec_collect_scan(aps.take(n));
        let b = spec_collect_scan(aps.take(n + 1));
        let all = spec_collect_scan(aps);
        assert(b == all.take(b.len() as int));
        assert(a.len() <= b.len());
        assert(a =~= b.take(a.len() as int));
        assert(a =~= all.take(a.len() as int));
    }
}

/// Keeps the reported access points as the scan list.
pub fn collect_scan_results(networks: &Vec<RawAccessPoint>) -> (res: Vec<WifiScanResult>)
    ensures
        scan_views(res@) == spec_collect_scan(raw_views(networks@)),
{
    let ghost aps = raw_views(networks@);
    let mut results: Vec<WifiScanResult> = Vec::new();
    let mut i: usize = 0;
    while i < networks.len()
        invariant
            i <= networks@.len(),
            aps == raw_views(networks@),
            scan_views(results@) == spec_collect_scan(aps.subrange(0, i as int)),
        decreases networks@.len() - i,
    {
        let ghost prefix = aps.subrange(0, i + 1);
        assert(prefix.drop_last() =~= aps.subrange(0, i as int));
        assert(prefix.last() == networks@[i as int]@);
        let net = &networks[i];
        if net.ssid.unicode_len() > 0 {
            let ssid = match bounded_ssid(net.ssid.as_str()) {
                Some(bytes) => bytes,
                None => Vec::new(),
            };
            let auth_method = match net.auth_method {
                Some(a) => a,
                None => AuthMethod::Wpa2Personal,
            };
            if results.len() < MAX_NETWORKS_ON_DEVICE {
                let ghost before = scan_views(results@);
                let entry = WifiScanResult { ssid, rssi: net.signal_strength, auth_method };
                assert(entry@ == scanned_entry(net@));
                results.push(entry);
                assert(scan_views(results@) =~= before.push(entry@));
            }
        }
        i = i + 1;
    }
    assert(aps.subrange(0, i as int) =~= aps);
    results
}

/// Marks the start of a scan.
pub fn begin_scan(state: &mut AppState)
    ensures
        final(state)@ == (AppStateView {
            wifi_status: spec_status_code(WifiStatus::Scanning),
            ..old(state)@
        }),
{
    state.wifi_status = WifiStatus::Scanning.code();
}

/// Records the end of a scan: on success the kept scan list replaces the old one and
/// the status becomes `ScannedSuccessfully`; on failure it becomes
/// `ErrorWhileScanning` and the old list stays.
pub fn handle_scan(state: &mut AppState, result: Result<Vec<RawAccessPoint>, ()>)
    ensures
        result matches Ok(aps) ==> final(state)@ == (AppStateView {
            wifi_networks: spec_collect_scan(raw_views(aps@)),
            wifi_status: spec_status_code(WifiStatus::ScannedSuccessfully),
            ..old(state)@
        }),
        result is Err ==> final(state)@ == (AppStateView {
            wifi_status: spec_status_code(WifiStatus::ErrorWhileScanning),
            ..old(state)@
        }),
        state_fits(old(state)@) ==> state_fits(final(state)@),
{
    match result {
        Ok(networks) => {
            let results = collect_scan_results(&networks);
            proof {
                lemma_collect_scan_fits(raw_views(networks@));
            }
            state.wifi_networks = results;
            state.wifi_status = WifiStatus::ScannedSuccessfully.code();
        },
        Err(()) => {
            state.wifi_status = WifiStatus::ErrorWhileScanning.code();
        },
    }
}

/// Connection attempts made before the device gives up.
pub const MAX_RETRIES: u8 = 5;

/// Milliseconds that one connection attempt may take.
pub const CONN_TIMEOUT_MS: u64 = 10000;

/// Progress of a connection attempt.
#[derive(Debug, Clone, Copy, PartialEq, Eq, Structural)]
pub struct ConnectionMonitor {
    /// When the current attempt started, in milliseconds, while one runs.
    pub started_at: Option<u64>,
    /// Attempts that timed out so far.
    pub retry_count: u8,
}

/// While an attempt runs, fewer than `MAX_RETRIES` attempts have timed out.
pub open spec fn monitor_consistent(m: ConnectionMonitor) -> bool {
    m.started_at is Some ==> m.retry_count < MAX_RETRIES
}

/// What the Wi-Fi controller is told to do.
#[derive(Debug, Clone, Copy, PartialEq, Eq, Structural)]
pub enum ControllerAction {
    Nothing,
    /// Disconnect and start the connection again.
    Reconnect,
    /// Disconnect and give up.
    Disconnect,
}

/// One check of a connection attempt at time `now_ms`: while connecting, a link with
/// an IPv4 address completes the attempt with status `Connected`; without a link, an
/// attempt older than `CONN_TIMEOUT_MS` is retried, or abandoned with status
/// `ErrorWhileConnecting` once `MAX_RETRIES` attempts have timed out.
pub open spec fn monitor_step(
    status: u8,
    m: ConnectionMonitor,
    is_connected: bool,
    has_ipv4: bool,
    now_ms: u64,
    new_status: u8,
    new_m: ConnectionMonitor,
    action: ControllerAction,
) -> bool {
    if status != spec_status_code(WifiStatus::Connecting) {
        new_status == status && new_m == m && action == ControllerAction::Nothing
    } else if is_connected {
        if has_ipv4 {
            &&& new_status == spec_status_code(WifiStatus::Connected)
            &&& new_m == ConnectionMonitor { started_at: None, retry_count: 0 }
            &&& action == ControllerAction::Nothing
        } else {
            new_status == status && new_m == m && action == ControllerAction::Nothing
        }
    } else if m.started_at matches Some(start) && now_ms - start > CONN_TIMEOUT_MS {
        if m.retry_count + 1 < MAX_RETRIES {
            &&& new_status == status
            &&& new_m == ConnectionMonitor {
                started_at: Some(now_ms),
                retry_count: (m.retry_count + 1) as u8,
            }
            &&& action == ControllerAction::Reconnect
        } else {
            &&& new_status == spec_status_code(WifiStatus::ErrorWhileConnecting)
            &&& new_m == ConnectionMonitor {
                started_at: None,
                retry_count: (m.retry_count + 1) as u8,
            }
            &&& action == ControllerAction::Disconnect
        }
    } else {
        new_status == status && new_m == m && action == ControllerAction::Nothing
    }
}

/// Checks the connection attempt in progress and tells what to do with the
/// controller.
pub fn check_connecting_status(
    state: &mut AppState,
    monitor: &mut ConnectionMonitor,
    is_connected: bool,
    has_ipv4: bool,
    now_ms: u64,
) -> (action: ControllerAction)
    requires
        old(monitor).started_at matches Some(start) ==> start <= now_ms,
        old(monitor).retry_count < u8::MAX,
    ensures
        monitor_step(
            old(state).wifi_status,
            *old(monitor),
            is_connected,
            has_ipv4,
            now_ms,
            final(state).wifi_status,
            *final(monitor),
            action,
        ),
        final(state)@ == (AppStateView { wifi_status: final(state).wifi_status, ..old(state)@ }),
        monitor_consistent(*old(monitor)) ==> monitor_consistent(*final(monitor)),
{
    if state.wifi_status != WifiStatus::Connecting.code() {
        return ControllerAction::Nothing;
    }
    if is_connected {
        if has_ipv4 {
            state.wifi_status = WifiStatus::Connected.code();
            monitor.started_at = None;
            monitor.retry_count = 0;
        }
        return ControllerAction::Nothing;
    }
    match monitor.started_at {
        Some(start) => {
            if now_ms - start > CONN_TIMEOUT_MS {
                monitor.retry_count = monitor.retry_count + 1;
                if monitor.retry_count < MAX_RETRIES {
                    monitor.started_at = Some(now_ms);
                    ControllerAction::Reconnect
                } else {
                    state.wifi_status = WifiStatus::ErrorWhileConnecting.code();
                    monitor.started_at = None;
                    ControllerAction::Disconnect
                }
            } else {
                ControllerAction::Nothing
            }
        },
        None => ControllerAction::Nothing,
    }
}

/// The retry law: while a connection is attempted, the device reconnects at most
/// `MAX_RETRIES - 1` times; the check that counts the `MAX_RETRIES`-th timeout ends the
/// attempt with status `ErrorWhileConnecting`.
pub proof fn lemma_retries_bounded(
    status: u8,
    m: ConnectionMonitor,
    is_connected: bool,
    has_ipv4: bool,
    now_ms: u64,
    new_status: u8,
    new_m: ConnectionMonitor,
    action: ControllerAction,
)
    requires
        monitor_consistent(m),
        monitor_step(status, m, is_connected, has_ipv4, now_ms, new_status, new_m, action),
    ensures
        monitor_consistent(new_m),
        action == ControllerAction::Reconnect ==> new_m.retry_count < MAX_RETRIES,
        action == ControllerAction::Disconnect ==> new_m.retry_count == MAX_RETRIES
            && new_status == spec_status_code(WifiStatus::ErrorWhileConnecting)
            && new_m.started_at is None,
{
}

/// Link law: while connecting, a check that finds the link up never acts on the
/// controller. With an IPv4 address the attempt completes (status `Connected`, 52,
/// and a cleared monitor); without one, the status and the monitor stay while the
/// address is awaited.
pub proof fn lemma_link_up_never_acts(
    status: u8,
    m: ConnectionMonitor,
    has_ipv4: bool,
    now_ms: u64,
    new_status: u8,
    new_m: ConnectionMonitor,
    action: ControllerAction,
)
    requires
        monitor_step(status, m, true, has_ipv4, now_ms, new_status, new_m, action),
    ensures
        action == ControllerAction::Nothing,
        status == 2 && has_ipv4 ==> new_status == 52 && new_m.started_at is None
            && new_m.retry_count == 0,
        !(status == 2 && has_ipv4) ==> new_status == status && new_m == m,
{
}

/// Timeout law: the controller is told to act only while connecting, with no link,
/// after the running attempt has lasted more than `CONN_TIMEOUT_MS`. Then the count of
/// timed-out attempts grows by one: below `MAX_RETRIES` the attempt restarts at
/// `now_ms` (reconnect, status unchanged); at `MAX_RETRIES` the device gives up
/// (disconnect, status `ErrorWhileConnecting`, 202). A check within the time limit
/// changes nothing.
pub proof fn lemma_controller_acts_only_on_timeout(
    status: u8,
    m: ConnectionMonitor,
    is_connected: bool,
    has_ipv4: bool,
    now_ms: u64,
    new_status: u8,
    new_m: ConnectionMonitor,
    action: ControllerAction,
)
    requires
        m.retry_count < u8::MAX,
        monitor_step(status, m, is_connected, has_ipv4, now_ms, new_status, new_m, action),
    ensures
        action != ControllerAction::Nothing ==> status == 2 && !is_connected && (m.started_at
            matches Some(start) && now_ms - start > 10000) && new_m.retry_count == m.retry_count + 1,
        action == ControllerAction::Reconnect ==> new_status == status && new_m.started_at == Some(
            now_ms,
        ) && m.retry_count + 1 < 5,
        action == ControllerAction::Disconnect ==> new_status == 202 && new_m.started_at is None
            && m.retry_count + 1 >= 5,
        !is_connected && (m.started_at matches Some(start) && now_ms - start <= 10000) ==> action
            == ControllerAction::Nothing && new_status == status && new_m == m,
        status != 2 ==> action == ControllerAction::Nothing && new_status == status && new_m == m,
{
}

/// The code stands for an operation in progress (1 to 50).
pub open spec fn is_processing_code(code: u8) -> bool {
    1 <= code <= 50
}

/// The status after a timer tick of the Wi-Fi runner: with no link and no attempt in
/// progress, a status that still claims an operation in progress returns to idle;
/// any other status stays.
pub open spec fn idle_tick_status(status: u8, attempt_running: bool, is_connected: bool) -> u8 {
    if !is_connected && !attempt_running && is_processing_code(status) {
        spec_status_code(WifiStatus::Idle)
    } else {
        status
    }
}

/// The timer tick of the Wi-Fi runner: with no link and no attempt in progress, a
/// status that still claims an operation in progress returns to idle; idle, result and
/// error codes stay for the client to read.
pub fn idle_tick(state: &mut AppState, monitor: &ConnectionMonitor, is_connected: bool)
    ensures
        final(state)@ == (AppStateView {
            wifi_status: idle_tick_status(
                old(state).wifi_status,
                monitor.started_at is Some,
                is_connected,
            ),
            ..old(state)@
        }),
{
    if !is_connected && monitor.started_at.is_none() && 1 <= state.wifi_status
        && state.wifi_status <= 50 {
        state.wifi_status = WifiStatus::Idle.code();
    }
}

/// Status persistence: once an operation has stored its outcome (idle, a success code
/// or an error code, anything but a code of an operation in progress), a timer tick
/// of the Wi-Fi runner, which checks the connection attempt and then runs the idle
/// tick, leaves the status, the attempt and the controller alone; the client reads
/// the same code until the next command is handled.
pub proof fn lemma_result_status_persists(
    status: u8,
    m: ConnectionMonitor,
    is_connected: bool,
    has_ipv4: bool,
    now_ms: u64,
    checked_status: u8,
    new_m: ConnectionMonitor,
    action: ControllerAction,
)
    requires
        !is_processing_code(status),
        monitor_step(status, m, is_connected, has_ipv4, now_ms, checked_status, new_m, action),
    ensures
        checked_status == status,
        new_m == m,
        action == ControllerAction::Nothing,
        idle_tick_status(checked_status, new_m.started_at is Some, is_connected) == status,
{
}

/// What the controller needs to join a network.
#[derive(Debug, Clone)]
pub struct ConnectRequest {
    pub ssid: Vec<u8>,
    pub password: Vec<u8>,
    pub auth_method: AuthMethod,
    pub connection_type: WifiConnectionType,
}

/// Starts a connection. With stored credentials that name an SSID, the status becomes
/// `Connecting` and the credentials are returned to configure the controller; without
/// credentials or with an empty SSID, the status becomes `ErrorWhileConnecting` and
/// nothing is returned.
pub fn begin_connect(state: &mut AppState) -> (res: Option<ConnectRequest>)
    ensures
        config_or_default(old(state)@).ssid.len() == 0 ==> res is None && final(state)@
            == (AppStateView {
            wifi_status: spec_status_code(WifiStatus::ErrorWhileConnecting),
            ..old(state)@
        }),
        config_or_default(old(state)@).ssid.len() > 0 ==> final(state)@ == (AppStateView {
            wifi_status: spec_status_code(WifiStatus::Connecting),
            ..old(state)@
        }) && (res matches Some(r) && r.ssid@ == config_or_default(old(state)@).ssid
            && r.password@ == config_or_default(old(state)@).password && r.auth_method
            == config_or_default(old(state)@).auth_method && r.connection_type
            == config_or_default(old(state)@).connection_type),
{
    let res = match &state.wifi_config {
        Some(c) => {
            if c.ssid.len() == 0 {
                None
            } else {
                Some(
                    ConnectRequest {
                        ssid: slice_to_vec(c.ssid.as_slice()),
                        password: slice_to_vec(c.password.as_slice()),
                        auth_method: c.auth_method,
                        connection_type: c.connection_type,
                    },
                )
            }
        },
        None => None,
    };
    if res.is_some() {
        state.wifi_status = WifiStatus::Connecting.code();
    } else {
        state.wifi_status = WifiStatus::ErrorWhileConnecting.code();
    }
    res
}

/// How the controller took a connection request.
#[derive(Debug, Clone, Copy, PartialEq, Eq, Structural)]
pub enum ConnectOutcome {
    /// The client configuration was refused.
    ConfigRejected,
    /// The connection could not be started.
    ConnectRejected,
    /// The connection attempt started.
    Started,
}

/// Records how a connection request was taken at time `now_ms`: a refusal sets status
/// `ErrorWhileConnecting` and leaves the monitor alone; a started attempt is timed
/// from `now_ms` with no retries yet.
pub fn finish_connect(
    state: &mut AppState,
    monitor: &mut ConnectionMonitor,
    outcome: ConnectOutcome,
    now_ms: u64,
)
    ensures
        outcome != ConnectOutcome::Started ==> final(state)@ == (AppStateView {
            wifi_status: spec_status_code(WifiStatus::ErrorWhileConnecting),
            ..old(state)@
        }) && *final(monitor) == *old(monitor),
        outcome == ConnectOutcome::Started ==> final(state)@ == old(state)@ && *final(monitor)
            == (ConnectionMonitor { started_at: Some(now_ms), retry_count: 0 }),
        monitor_consistent(*final(monitor)) || *final(monitor) == *old(monitor),
{
    match outcome {
        ConnectOutcome::Started => {
            monitor.started_at = Some(now_ms);
            monitor.retry_count = 0;
        },
        _ => {
            state.wifi_status = WifiStatus::ErrorWhileConnecting.code();
        },
    }
}

/// Records the end of a disconnection: on success the credentials are cleared and the
/// status becomes `Disconnected`; otherwise the credentials stay and the status
/// becomes `Error`.
pub fn handle_disconnect(state: &mut AppState, disconnected: bool)
    ensures
        disconnected ==> final(state)@ == (AppStateView {
            wifi_config: None,
            wifi_status: spec_status_code(WifiStatus::Disconnected),
            ..old(state)@
        }),
        !disconnected ==> final(state)@ == (AppStateView {
            wifi_status: spec_status_code(WifiStatus::Error),
            ..old(state)@
        }),
{
    if disconnected {
        state.wifi_config = None;
        state.wifi_status = WifiStatus::Disconnected.code();
    } else {
        state.wifi_status = WifiStatus::Error.code();
    }
}

/// IP configuration of the network stack.
#[derive(Debug, Clone, Copy, PartialEq, Eq)]
pub enum IpConfig {
    /// IPv4 address from DHCP.
    DhcpV4,
    /// IPv4 address and gateway given.
    StaticV4 { address: [u8; 4], prefix_len: u8, gateway: [u8; 4] },
    /// IPv6 configured by the network (the stack's default IPv6 configuration); the
    /// IPv4 configuration is left as it is.
    DhcpV6,
    /// IPv6 address and gateway given.
    StaticV6 { address: [u8; 16], prefix_len: u8, gateway: [u8; 16] },
}

/// The stack configuration for a connection type.
pub fn apply_ip_config(connection_type: WifiConnectionType) -> (res: IpConfig)
    ensures
        connection_type is DHCP ==> res == IpConfig::DhcpV4,
        connection_type matches WifiConnectionType::Static { ip, subnet_mask, gateway } ==> res
            == (IpConfig::StaticV4 { address: ip, prefix_len: subnet_mask, gateway }),
        connection_type is DHCPv6 ==> res == IpConfig::DhcpV6,
        connection_type matches WifiConnectionType::StaticV6 { ip, prefix_length, gateway }
            ==> res == (IpConfig::StaticV6 { address: ip, prefix_len: prefix_length, gateway }),
{
    match connection_type {
        WifiConnectionType::DHCP => IpConfig::DhcpV4,
        WifiConnectionType::Static { ip, subnet_mask, gateway } => IpConfig::StaticV4 {
            address: ip,
            prefix_len: subnet_mask,
            gateway,
        },
        WifiConnectionType::DHCPv6 => IpConfig::DhcpV6,
        WifiConnectionType::StaticV6 { ip, prefix_length, gateway } => IpConfig::StaticV6 {
            address: ip,
            prefix_len: prefix_length,
            gateway,
        },
    }
}

/// An IP address.
#[derive(Debug, Clone, Copy, PartialEq, Eq)]
pub enum IpAddress {
    V4([u8; 4]),
    V6([u8; 16]),
}

/// The address a DNS lookup gives from the answer of its query: the first address of
/// the answer, `NotFound` when the answer is empty, or the error of a failed query as
/// a Wi-Fi error.
pub fn nslookup(query: Result<Vec<IpAddress>, DnsQueryError>) -> (res: Result<IpAddress, WifiError>)
    ensures
        query matches Ok(addresses) ==> (if addresses@.len() > 0 {
            res == Ok::<IpAddress, WifiError>(addresses@[0])
        } else {
            res == Err::<IpAddress, WifiError>(WifiError::DNSError(DNSError::NotFound))
        }),
        query matches Err(e) ==> res == Err::<IpAddress, WifiError>(spec_wifi_error_from_dns(e)),
{
    match query {
        Ok(addresses) => {
            if addresses.len() > 0 {
                Ok(addresses[0])
            } else {
                Err(WifiError::DNSError(DNSError::NotFound))
            }
        },
        Err(e) => Err(WifiError::from_dns_error(e)),
    }
}

/// Seconds that the Internet test's socket waits for the test host.
pub const GLOBAL_TEST_TIMEOUT_SECS: u64 = 5;

/// Seconds that the gateway test waits for the echo reply.
pub const LOCAL_TEST_TIMEOUT_SECS: u64 = 2;

/// The host that the Internet test looks up and asks.
pub fn global_test_host() -> (res: &'static str)
    ensures
        res@ == "google.com"@,
{
    "google.com"
}

/// The HTTP request that the Internet test sends to the test host.
pub open spec fn global_test_request_text() -> Seq<char> {
    "GET /generate_204 HTTP/1.1\r\nHost: google.com\r\nConnection: close\r\n\r\n"@
}

/// The bytes that the Internet test writes to the test host: the UTF-8 encoding of
/// its HTTP request.
pub fn global_test_request() -> (res: Vec<u8>)
    ensures
        res@ == encode_utf8(global_test_request_text()),
{
    slice_to_vec("GET /generate_204 HTTP/1.1\r\nHost: google.com\r\nConnection: close\r\n\r\n".as_bytes())
}

/// The endpoint of the Internet test: the looked-up address on port 80, or a fixed
/// address of the test host when the lookup failed.
pub fn global_test_endpoint(lookup: Result<IpAddress, WifiError>) -> (res: (IpAddress, u16))
    ensures
        lookup matches Ok(a) ==> res == (a, 80u16),
        lookup is Err ==> res == (IpAddress::V4([142, 251, 38, 142]), 80u16),
{
    match lookup {
        Ok(a) => (a, 80),
        Err(_) => (IpAddress::V4([142, 251, 38, 142]), 80),
    }
}

/// `needle` occurs in `haystack` starting at `start`.
pub open spec fn occurs_at(haystack: Seq<u8>, needle: Seq<u8>, start: int) -> bool {
    0 <= start && start + needle.len() <= haystack.len() && haystack.subrange(
        start,
        start + needle.len(),
    ) == needle
}

/// The bytes of the text "204".
pub open spec fn code_204() -> Seq<u8> {
    seq![50u8, 48u8, 52u8]
}

/// The test host answered as expected: a non-empty UTF-8 response containing "204".
pub open spec fn confirms_internet(response: Seq<u8>) -> bool {
    &&& response.len() > 0
    &&& valid_utf8(response)
    &&& exists|start: int| occurs_at(response, code_204(), start)
}

/// Whether the response of the test host confirms Internet access.
pub fn response_confirms_internet(response: &[u8]) -> (res: bool)
    ensures
        res == confirms_internet(response@),
{
    if response.len() == 0 || !is_valid_utf8(response) {
        return false;
    }
    let n = response.len();
    if n < 3 {
        assert forall|start: int| !occurs_at(response@, code_204(), start) by {}
        return false;
    }
    let mut i: usize = 0;
    while i <= n - 3
        invariant
            n == response@.len(),
            n >= 3,
            valid_utf8(response@),
            i <= n - 2,
            forall|s: int| 0 <= s < i ==> !#[trigger] occurs_at(response@, code_204(), s),
        decreases n - i,
    {
        if response[i] == 50 && response[i + 1] == 48 && response[i + 2] == 52 {
            assert(response@.subrange(i as int, i + 3) =~= code_204());
            assert(occurs_at(response@, code_204(), i as int));
            return true;
        }
        assert(!(response@.subrange(i as int, i + 3) =~= code_204()));
        i = i + 1;
    }
    assert forall|start: int| !occurs_at(response@, code_204(), start) by {
        if 0 <= start < i {
            assert(!occurs_at(response@, code_204(), start));
        }
    }
    false
}

/// Marks the start of the Internet test.
pub fn begin_test_global(state: &mut AppState)
    ensures
        final(state)@ == (AppStateView {
            wifi_status: spec_status_code(WifiStatus::SendingGlobalTest),
            ..old(state)@
        }),
{
    state.wifi_status = WifiStatus::SendingGlobalTest.code();
}

/// How the Internet test ended.
#[derive(Debug, Clone)]
pub enum GlobalTestOutcome {
    /// No connection to the test host.
    ConnectFailed,
    /// The request could not be sent.
    WriteFailed,
    /// The response could not be read.
    ReadFailed,
    /// The host answered with these bytes.
    Response(Vec<u8>),
}

/// The test confirmed Internet access.
pub open spec fn global_test_passed(outcome: GlobalTestOutcome) -> bool {
    outcome matches GlobalTestOutcome::Response(r) && confirms_internet(r@)
}

/// Records the Internet test: `GlobalTestSuccess` when the host's answer confirms
/// access, `ErrorWithGlobalTest` in every other case.
pub fn handle_test_global(state: &mut AppState, outcome: &GlobalTestOutcome)
    ensures
        final(state)@ == (AppStateView {
            wifi_status: if global_test_passed(*outcome) {
                spec_status_code(WifiStatus::GlobalTestSuccess)
            } else {
                spec_status_code(WifiStatus::ErrorWithGlobalTest)
            },
            ..old(state)@
        }),
{
    let passed = match outcome {
        GlobalTestOutcome::Response(r) => response_confirms_internet(r.as_slice()),
        _ => false,
    };
    if passed {
        state.wifi_status = WifiStatus::GlobalTestSuccess.code();
    } else {
        state.wifi_status = WifiStatus::ErrorWithGlobalTest.code();
    }
}

/// Marks the start of the gateway test.
pub fn begin_test_router(state: &mut AppState)
    ensures
        final(state)@ == (AppStateView {
            wifi_status: spec_status_code(WifiStatus::SendingLocalTest),
            ..old(state)@
        }),
{
    state.wifi_status = WifiStatus::SendingLocalTest.code();
}

/// How the gateway test ended.
#[derive(Debug, Clone, Copy, PartialEq, Eq, Structural)]
pub enum RouterTestOutcome {
    /// The stack has no IPv4 configuration yet.
    NoIpConfig,
    /// The configuration names no gateway.
    NoGateway,
    /// The echo request could not be sent.
    SendFailed,
    /// The gateway replied.
    Reply,
    /// Receiving the reply failed.
    ReceiveError,
    /// No reply came in time.
    Timeout,
}

/// The ICMP echo request sent to the gateway: type 8, code 0, identifier 0xBEEF,
/// sequence number 1.
pub fn echo_request_payload() -> (res: [u8; 8])
    ensures
        res@ == seq![8u8, 0u8, 0u8, 0u8, 0xBEu8, 0xEFu8, 0u8, 1u8],
{
    let res = [8u8, 0u8, 0u8, 0u8, 0xBEu8, 0xEFu8, 0u8, 1u8];
    assert(res@ =~= seq![8u8, 0u8, 0u8, 0u8, 0xBEu8, 0xEFu8, 0u8, 1u8]);
    res
}

/// Records the gateway test: `LocalTestSuccess` when the gateway replied,
/// `ErrorWithLocalTest` in every other case (no configuration, no gateway, a failed
/// send, a receive error or a timeout).
pub fn handle_test_router(state: &mut AppState, outcome: RouterTestOutcome)
    ensures
        final(state)@ == (AppStateView {
            wifi_status: if outcome == RouterTestOutcome::Reply {
                spec_status_code(WifiStatus::LocalTestSuccess)
            } else {
                spec_status_code(WifiStatus::ErrorWithLocalTest)
            },
            ..old(state)@
        }),
{
    match outcome {
        RouterTestOutcome::Reply => {
            state.wifi_status = WifiStatus::LocalTestSuccess.code();
        },
        _ => {
            state.wifi_status = WifiStatus::ErrorWithLocalTest.code();
        },
    }
}

} // verus!
