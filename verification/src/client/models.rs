//! The client's view of scan results, credentials and device status codes.

use vstd::prelude::*;
use vstd::slice::{slice_subrange, slice_to_vec};

pub use crate::protocol::WifiStatus;
use crate::protocol::{
    auth_method_from_u8, spec_auth_method_from_u8, AuthMethod, WifiConnectionType,
    SERIALIZED_SSID_LEN, SHORT_SSID_LEN,
};
use crate::text::{decode_utf8_lossy, lossy_text, trim_end_nul_newline, trim_end_padding};

verus! {

/// The abstract content of a received scan result.
pub struct ScanEntry {
    pub ssid: Seq<char>,
    pub rssi: i8,
    pub auth_method: AuthMethod,
}

/// A network as the client shows it.
#[derive(Debug, Clone)]
pub struct WifiScanResult {
    pub ssid: String,
    pub rssi: i8,
    pub auth_method: AuthMethod,
}

impl View for WifiScanResult {
    type V = ScanEntry;

    open spec fn view(&self) -> ScanEntry {
        ScanEntry { ssid: self.ssid@, rssi: self.rssi, auth_method: self.auth_method }
    }
}

/// The SSID that the client reads from the first sixteen bytes of an entry.
pub open spec fn received_ssid(entry: Seq<u8>) -> Seq<char> {
    trim_end_padding(lossy_text(entry.subrange(0, SHORT_SSID_LEN as int)))
}

/// Decoding `data` never indexes past its end: every entry that is read in full
/// lies inside `data`, and a short tail is reached only after an entry whose SSID
/// is empty.
pub open spec fn page_decodable(data: Seq<u8>) -> bool
    decreases data.len(),
{
    if data.len() == 0 {
        true
    } else if data.len() < SHORT_SSID_LEN {
        false
    } else if received_ssid(data).len() == 0 {
        true
    } else if data.len() < SERIALIZED_SSID_LEN {
        false
    } else {
        page_decodable(data.subrange(SERIALIZED_SSID_LEN as int, data.len() as int))
    }
}

/// The entries that the client reads from `data`: eighteen bytes each, up to the end
/// of the data or the first entry whose SSID is empty.
pub open spec fn page_entries(data: Seq<u8>) -> Seq<ScanEntry>
    decreases data.len(),
{
    if data.len() < SERIALIZED_SSID_LEN || received_ssid(data).len() == 0 {
        seq![]
    } else {
        seq![
            ScanEntry {
                ssid: received_ssid(data),
                rssi: data[16] as i8,
                auth_method: spec_auth_method_from_u8(data[17]),
            },
        ] + page_entries(data.subrange(SERIALIZED_SSID_LEN as int, data.len() as int))
    }
}

/// The views of a list of client scan results.
pub open spec fn entry_views(results: Seq<WifiScanResult>) -> Seq<ScanEntry> {
    results.map_values(|r: WifiScanResult| r@)
}

/// Whether `data` can be read as a page without running past its end.
pub fn page_decodable_bytes(data: &[u8]) -> (res: bool)
    ensures
        res == page_decodable(data@),
{
    let n = data.len();
    let mut i: usize = 0;
    assert(data@.subrange(0, n as int) =~= data@);
    loop
        invariant
            n == data@.len(),
            i <= n,
            page_decodable(data@) == page_decodable(data@.subrange(i as int, n as int)),
        decreases n - i,
    {
        let ghost rest = data@.subrange(i as int, n as int);
        if i >= n {
            return true;
        }
        if n - i < SHORT_SSID_LEN {
            return false;
        }
        let chunk = slice_to_vec(slice_subrange(data, i, i + SHORT_SSID_LEN));
        assert(chunk@ =~= rest.subrange(0, SHORT_SSID_LEN as int));
        let decoded = decode_utf8_lossy(chunk.as_slice());
        let ssid = trim_end_nul_newline(decoded.as_str());
        if ssid.unicode_len() == 0 {
            return true;
        }
        if n - i < SERIALIZED_SSID_LEN {
            return false;
        }
        assert(rest.subrange(SERIALIZED_SSID_LEN as int, rest.len() as int) =~= data@.subrange(
            i + SERIALIZED_SSID_LEN,
            n as int,
        ));
        i = i + SERIALIZED_SSID_LEN;
    }
}

impl WifiScanResult {
    /// Reads the scan entries of one page of data sent by the device.
    pub fn from_bytes(data: &[u8]) -> (res: Vec<WifiScanResult>)
        requires
            page_decodable(data@),
        ensures
            entry_views(res@) == page_entries(data@),
    {
        let mut result: Vec<WifiScanResult> = Vec::new();
        let mut i: usize = 0;
        assert(data@.subrange(0, data@.len() as int) =~= data@);
        assert(entry_views(result@) =~= Seq::<ScanEntry>::empty());
        assert(entry_views(result@) + page_entries(data@) =~= page_entries(data@));
        let n = data.len();
        loop
            invariant
                n == data@.len(),
                i <= data@.len(),
                page_decodable(data@.subrange(i as int, data@.len() as int)),
                page_entries(data@) == entry_views(result@) + page_entries(
                    data@.subrange(i as int, data@.len() as int),
                ),
            ensures
                page_entries(data@) == entry_views(result@),
            decreases data@.len() - i,
        {
            let ghost rest = data@.subrange(i as int, data@.len() as int);
            if i >= data.len() {
                assert(rest.len() == 0);
                assert(entry_views(result@) + page_entries(rest) =~= entry_views(result@));
                break ;
            }
            let chunk = slice_to_vec(slice_subrange(data, i, i + SHORT_SSID_LEN));
            assert(chunk@ =~= rest.subrange(0, SHORT_SSID_LEN as int));
            let decoded = decode_utf8_lossy(chunk.as_slice());
            let ssid = trim_end_nul_newline(decoded.as_str());
            assert(ssid@ == received_ssid(rest));
            if ssid.unicode_len() == 0 {
                assert(entry_views(result@) + page_entries(rest) =~= entry_views(result@));
                break ;
            }
            assert(rest.len() >= SERIALIZED_SSID_LEN);
            let rssi = data[i + SERIALIZED_SSID_LEN - 2] as i8;
            let auth_method_raw = data[i + SERIALIZED_SSID_LEN - 1];
            let auth_method = auth_method_from_u8(auth_method_raw);
            let scan_result = WifiScanResult { ssid, rssi, auth_method };
            let ghost before = entry_views(result@);
            result.push(scan_result);
            assert(entry_views(result@) =~= before.push(scan_result@));
            let ghost next = data@.subrange(i + SERIALIZED_SSID_LEN, data@.len() as int);
            assert(rest.subrange(SERIALIZED_SSID_LEN as int, rest.len() as int) =~= next);
            assert(rest[16] == data@[i + 16]);
            assert(rest[17] == data@[i + 17]);
            assert(page_entries(rest) =~= seq![scan_result@] + page_entries(next));
            assert(before + page_entries(rest) =~= entry_views(result@) + page_entries(next));
            i = i + SERIALIZED_SSID_LEN;
        }
        result
    }
}

/// The settings that the client sends to connect the device to a network.
#[derive(Debug, Clone)]
pub struct WifiCredentials {
    /// Position of the chosen network in the scan list.
    pub network_index: usize,
    pub password: String,
    pub connection_type: WifiConnectionType,
}

impl Default for WifiCredentials {
    /// Credentials for the first network, with no password, over DHCP.
    fn default() -> (res: Self)
        ensures
            res.network_index == 0,
            res.password@.len() == 0,
            res.connection_type == WifiConnectionType::DHCP,
    {
        WifiCredentials {
            network_index: 0,
            password: String::new(),
            connection_type: WifiConnectionType::DHCP,
        }
    }
}

} // verus!
