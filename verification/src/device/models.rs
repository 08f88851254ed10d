//! The device's records of scanned networks and credentials, its status codes, and
//! the paginated serialization of scan results.

use vstd::prelude::*;

pub use crate::protocol::WifiStatus;
use crate::protocol::{
    auth_method_to_u8, spec_auth_method_to_u8, AuthMethod, WifiConnectionType,
    ENTIRE_SSID_PAGE_SIZE, MAX_PASSWORD_LEN, MAX_SSID_LEN, MAX_SSID_PER_PAGE, SERIALIZED_SSID_LEN,
    SHORT_SSID_LEN,
};

verus! {

/// The abstract content of a scan result: SSID bytes, signal strength, security.
pub struct ScanResultView {
    pub ssid: Seq<u8>,
    pub rssi: i8,
    pub auth_method: AuthMethod,
}

/// A network found by a scan, as the device keeps it.
#[derive(Debug, Clone)]
pub struct WifiScanResult {
    /// The SSID as UTF-8 bytes, at most `MAX_SSID_LEN` of them.
    pub ssid: Vec<u8>,
    pub rssi: i8,
    pub auth_method: AuthMethod,
}

impl View for WifiScanResult {
    type V = ScanResultView;

    open spec fn view(&self) -> ScanResultView {
        ScanResultView { ssid: self.ssid@, rssi: self.rssi, auth_method: self.auth_method }
    }
}

/// The sixteen SSID bytes of a serialized entry: the SSID cut to `SHORT_SSID_LEN`
/// bytes, padded with zeros.
pub open spec fn ssid_field(ssid: Seq<u8>) -> Seq<u8> {
    Seq::new(SHORT_SSID_LEN as nat, |i: int| if i < ssid.len() { ssid[i] } else { 0u8 })
}

/// The eighteen bytes of one serialized entry: SSID field, RSSI, security code.
pub open spec fn spec_entry_bytes(r: ScanResultView) -> Seq<u8> {
    ssid_field(r.ssid) + seq![r.rssi as u8, spec_auth_method_to_u8(r.auth_method)]
}

/// Eighteen zero bytes: a slot of a page with no network in it.
pub open spec fn empty_slot() -> Seq<u8> {
    Seq::new(SERIALIZED_SSID_LEN as nat, |i: int| 0u8)
}

/// The bytes of slot `index` of the scan list: the entry of that network, or zeros
/// past the end of the list.
pub open spec fn slot_bytes(networks: Seq<ScanResultView>, index: int) -> Seq<u8> {
    if 0 <= index < networks.len() {
        spec_entry_bytes(networks[index])
    } else {
        empty_slot()
    }
}

/// `data` is page `page` of the scan list: five slots of eighteen bytes, slot `k`
/// holding network `page * 5 + k`.
pub open spec fn is_page_data(data: Seq<u8>, networks: Seq<ScanResultView>, page: int) -> bool {
    &&& data.len() == ENTIRE_SSID_PAGE_SIZE
    &&& forall|k: int|
        0 <= k < MAX_SSID_PER_PAGE ==> #[trigger] data.subrange(
            k * SERIALIZED_SSID_LEN,
            k * SERIALIZED_SSID_LEN + SERIALIZED_SSID_LEN,
        ) == slot_bytes(networks, page * MAX_SSID_PER_PAGE + k)
}

/// Number of pages needed for `n` networks, as the byte the device reports.
pub open spec fn spec_pages_count(n: nat) -> u8 {
    (((n + 4) / 5) % 256) as u8
}

/// The views of a list of scan results.
pub open spec fn scan_views(networks: Seq<WifiScanResult>) -> Seq<ScanResultView> {
    networks.map_values(|r: WifiScanResult| r@)
}

impl WifiScanResult {
    /// A scan result for the given SSID bytes, signal strength and security.
    pub fn new(ssid: Vec<u8>, rssi: i8, auth_method: AuthMethod) -> (res: Self)
        ensures
            res@ == (ScanResultView { ssid: ssid@, rssi, auth_method }),
    {
        WifiScanResult { ssid, rssi, auth_method }
    }

    /// The eighteen-byte entry that carries this network in a page.
    pub fn into_bytes(self) -> (res: Vec<u8>)
        ensures
            res@ == spec_entry_bytes(self@),
    {
        entry_bytes(&self)
    }
}

/// Appends the serialized entry of `r` to `out`.
fn push_entry(out: &mut Vec<u8>, r: &WifiScanResult)
    ensures
        final(out)@ == old(out)@ + spec_entry_bytes(r@),
{
    let ghost start = old(out)@;
    let mut i: usize = 0;
    while i < SHORT_SSID_LEN
        invariant
            i <= SHORT_SSID_LEN,
            out@ == start + ssid_field(r.ssid@).subrange(0, i as int),
        decreases SHORT_SSID_LEN - i,
    {
        let b = if i < r.ssid.len() {
            r.ssid[i]
        } else {
            0u8
        };
        out.push(b);
        i = i + 1;
        assert(out@ =~= start + ssid_field(r.ssid@).subrange(0, i as int));
    }
    out.push(r.rssi as u8);
    out.push(auth_method_to_u8(r.auth_method));
    assert(ssid_field(r.ssid@).subrange(0, SHORT_SSID_LEN as int) =~= ssid_field(r.ssid@));
    assert(out@ =~= start + spec_entry_bytes(r@));
}

/// The serialized entry of `r`.
fn entry_bytes(r: &WifiScanResult) -> (res: Vec<u8>)
    ensures
        res@ == spec_entry_bytes(r@),
{
    let mut out: Vec<u8> = Vec::new();
    push_entry(&mut out, r);
    assert(out@ =~= spec_entry_bytes(r@));
    out
}

/// The number of pages that `networks_len` networks fill, five to a page, as the
/// byte that the pages-count characteristic carries.
pub fn pages_count(networks_len: usize) -> (res: u8)
    ensures
        res == spec_pages_count(networks_len as nat),
{
    let optional_page: usize = if networks_len % MAX_SSID_PER_PAGE == 0 {
        0
    } else {
        1
    };
    let pages: usize = networks_len / MAX_SSID_PER_PAGE + optional_page;
    assert(pages == (networks_len + 4) / 5);
    (pages % 256) as u8
}

/// Serializes page `page` of the scan list: five eighteen-byte slots, slot `k`
/// holding network `page * 5 + k`, zeros where the list has ended.
pub fn build_page_data(networks: &Vec<WifiScanResult>, page: u8) -> (res: Vec<u8>)
    ensures
        is_page_data(res@, scan_views(networks@), page as int),
{
    let ghost views = scan_views(networks@);
    let mut res: Vec<u8> = Vec::new();
    let mut k: usize = 0;
    while k < MAX_SSID_PER_PAGE
        invariant
            k <= MAX_SSID_PER_PAGE,
            views == scan_views(networks@),
            res@.len() == k * SERIALIZED_SSID_LEN,
            forall|j: int|
                0 <= j < k ==> #[trigger] res@.subrange(
                    j * SERIALIZED_SSID_LEN,
                    j * SERIALIZED_SSID_LEN + SERIALIZED_SSID_LEN,
                ) == slot_bytes(views, page * MAX_SSID_PER_PAGE + j),
        decreases MAX_SSID_PER_PAGE - k,
    {
        let ghost before = res@;
        let index: usize = (page as usize) * MAX_SSID_PER_PAGE + k;
        if index < networks.len() {
            push_entry(&mut res, &networks[index]);
            assert(views[index as int] == networks@[index as int]@);
        } else {
            let mut z: usize = 0;
            while z < SERIALIZED_SSID_LEN
                invariant
                    z <= SERIALIZED_SSID_LEN,
                    res@ == before + empty_slot().subrange(0, z as int),
                decreases SERIALIZED_SSID_LEN - z,
            {
                res.push(0u8);
                z = z + 1;
                assert(res@ =~= before + empty_slot().subrange(0, z as int));
            }
            assert(empty_slot().subrange(0, SERIALIZED_SSID_LEN as int) =~= empty_slot());
        }
        assert(res@.len() == (k + 1) * SERIALIZED_SSID_LEN);
        assert forall|j: int|
            0 <= j < k + 1 implies #[trigger] res@.subrange(
                j * SERIALIZED_SSID_LEN,
                j * SERIALIZED_SSID_LEN + SERIALIZED_SSID_LEN,
            ) == slot_bytes(views, page * MAX_SSID_PER_PAGE + j) by {
            if j < k {
                assert(res@.subrange(
                    j * SERIALIZED_SSID_LEN,
                    j * SERIALIZED_SSID_LEN + SERIALIZED_SSID_LEN,
                ) =~= before.subrange(
                    j * SERIALIZED_SSID_LEN,
                    j * SERIALIZED_SSID_LEN + SERIALIZED_SSID_LEN,
                ));
            } else {
                assert(res@.subrange(
                    j * SERIALIZED_SSID_LEN,
                    j * SERIALIZED_SSID_LEN + SERIALIZED_SSID_LEN,
                ) =~= slot_bytes(views, page * MAX_SSID_PER_PAGE + j));
            }
        }
        k = k + 1;
    }
    res
}

/// Every network of a list of `len` networks lies on a page that the device reports:
/// network `i` is slot `i % 5` of page `i / 5`, and that page is below the page count.
pub proof fn lemma_every_network_on_a_page(len: nat, i: nat)
    requires
        i < len,
        len <= 255 * 5,
    ensures
        i / 5 < spec_pages_count(len),
        (i / 5) * 5 + i % 5 == i,
{
}

/// The security assumed for a network whose scan reported none, and for credentials
/// that were never given one: WPA2 Personal.
pub open spec fn default_auth_method() -> AuthMethod {
    AuthMethod::Wpa2Personal
}

/// The abstract content of the credentials the device will join with.
pub struct CredentialsView {
    pub ssid: Seq<u8>,
    pub password: Seq<u8>,
    pub auth_method: AuthMethod,
    pub connection_type: WifiConnectionType,
}

/// The network the device joins: SSID and password as UTF-8 bytes, security and
/// IP configuration.
#[derive(Debug, Clone)]
pub struct WifiCredentials {
    pub ssid: Vec<u8>,
    pub password: Vec<u8>,
    pub auth_method: AuthMethod,
    pub connection_type: WifiConnectionType,
}

impl View for WifiCredentials {
    type V = CredentialsView;

    open spec fn view(&self) -> CredentialsView {
        CredentialsView {
            ssid: self.ssid@,
            password: self.password@,
            auth_method: self.auth_method,
            connection_type: self.connection_type,
        }
    }
}

/// The credentials used before any were given: no SSID, no password, WPA2, DHCP.
pub open spec fn default_credentials() -> CredentialsView {
    CredentialsView {
        ssid: Seq::empty(),
        password: Seq::empty(),
        auth_method: default_auth_method(),
        connection_type: WifiConnectionType::DHCP,
    }
}

impl Default for WifiCredentials {
    /// No SSID, no password, WPA2 Personal, DHCP.
    fn default() -> (res: Self)
        ensures
            res@ == default_credentials(),
    {
        WifiCredentials {
            ssid: Vec::new(),
            password: Vec::new(),
            auth_method: AuthMethod::Wpa2Personal,
            connection_type: WifiConnectionType::DHCP,
        }
    }
}

/// The credentials fit the device's fixed-size storage.
pub open spec fn credentials_fit(c: CredentialsView) -> bool {
    c.ssid.len() <= MAX_SSID_LEN && c.password.len() <= MAX_PASSWORD_LEN
}

} // verus!
