//! The client's exchanges with the device: what it writes for each operation and
//! how it reads the status that the device reports back.

use vstd::prelude::*;
use vstd::slice::slice_to_vec;
use crate::client::models::{
    entry_views, page_decodable, page_entries, ScanEntry, WifiCredentials, WifiScanResult,
};
use crate::protocol::{spec_connection_type_bytes, Characteristic};
use vstd::utf8::encode_utf8;

verus! {

/// One write to a characteristic of the device.
#[derive(Debug, Clone)]
pub struct BleWrite {
    pub characteristic: Characteristic,
    pub value: Vec<u8>,
}

/// What to do after reading the status while waiting for an operation.
#[derive(Debug, Clone, Copy, PartialEq, Eq, Structural)]
pub enum PollStep {
    /// The operation is still running: wait a second and read again.
    Wait,
    /// The operation finished with this status code.
    Done(u8),
    /// The operation failed with this status code.
    Failed(u8),
}

/// The step after reading `status` while an operation (a scan, a connection or a
/// connectivity test) runs: codes 1 to 50 mean it is in progress, idle (0) and the
/// success codes 51 to 100 mean it finished, and any other code is an error.
pub open spec fn spec_poll_step(status: u8) -> PollStep {
    if 1 <= status <= 50 {
        PollStep::Wait
    } else if status == 0 || (51 <= status <= 100) {
        PollStep::Done(status)
    } else {
        PollStep::Failed(status)
    }
}

/// Decides how waiting for an operation goes on after the device reported `status`.
pub fn poll_step(status: u8) -> (res: PollStep)
    ensures
        res == spec_poll_step(status),
{
    if 1 <= status && status <= 50 {
        PollStep::Wait
    } else if status == 0 || (51 <= status && status <= 100) {
        PollStep::Done(status)
    } else {
        PollStep::Failed(status)
    }
}

/// The status code in the value read from the status characteristic: its first byte.
pub fn status_from_reading(data: &[u8]) -> (res: Option<u8>)
    ensures
        data@.len() == 0 ==> res is None,
        data@.len() > 0 ==> res == Some(data@[0]),
{
    if data.len() == 0 {
        None
    } else {
        Some(data[0])
    }
}

/// A write of a single byte.
fn byte_write(characteristic: Characteristic, value: u8) -> (res: BleWrite)
    ensures
        res.characteristic == characteristic,
        res.value@ == seq![value],
{
    let mut v: Vec<u8> = Vec::new();
    v.push(value);
    BleWrite { characteristic, value: v }
}

/// The write that starts a scan.
pub fn scan_command() -> (res: BleWrite)
    ensures
        res.characteristic == Characteristic::WifiScanCmd,
        res.value@ == seq![1u8],
{
    byte_write(Characteristic::WifiScanCmd, 1)
}

/// The write that selects page `page` of the scan results.
pub fn select_page_command(page: u8) -> (res: BleWrite)
    ensures
        res.characteristic == Characteristic::WifiSelectPage,
        res.value@ == seq![page],
{
    byte_write(Characteristic::WifiSelectPage, page)
}

/// The write that disconnects the device from its network.
pub fn disconnect_command() -> (res: BleWrite)
    ensures
        res.characteristic == Characteristic::WifiDisconnect,
        res.value@ == seq![1u8],
{
    byte_write(Characteristic::WifiDisconnect, 1)
}

/// The write that starts the gateway test.
pub fn local_test_command() -> (res: BleWrite)
    ensures
        res.characteristic == Characteristic::WifiLocalTest,
        res.value@ == seq![1u8],
{
    byte_write(Characteristic::WifiLocalTest, 1)
}

/// The write that starts the Internet test.
pub fn global_test_command() -> (res: BleWrite)
    ensures
        res.characteristic == Characteristic::WifiGlobalTest,
        res.value@ == seq![1u8],
{
    byte_write(Characteristic::WifiGlobalTest, 1)
}

/// The writes that connect the device to the chosen network, in order: the network's
/// index as one byte (the index modulo 256), the serialized connection type, the
/// password's UTF-8 bytes, and the connect command.
pub fn connect_writes(credentials: &WifiCredentials) -> (res: Vec<BleWrite>)
    ensures
        res@.len() == 4,
        res@[0].characteristic == Characteristic::WifiSetSsidIndex,
        res@[0].value@ == seq![(credentials.network_index % 256) as u8],
        res@[1].characteristic == Characteristic::WifiSetConnectionType,
        res@[1].value@ == spec_connection_type_bytes(credentials.connection_type),
        res@[2].characteristic == Characteristic::WifiSetPassword,
        res@[2].value@ == encode_utf8(credentials.password@),
        res@[3].characteristic == Characteristic::WifiConnect,
        res@[3].value@ == seq![1u8],
{
    let mut writes: Vec<BleWrite> = Vec::new();
    let index_byte = (credentials.network_index % 256) as u8;
    writes.push(byte_write(Characteristic::WifiSetSsidIndex, index_byte));
    let connection_type = credentials.connection_type.as_bytes();
    writes.push(BleWrite { characteristic: Characteristic::WifiSetConnectionType, value: connection_type });
    let password = slice_to_vec(credentials.password.as_str().as_bytes());
    writes.push(BleWrite { characteristic: Characteristic::WifiSetPassword, value: password });
    writes.push(byte_write(Characteristic::WifiConnect, 1));
    writes
}

/// The entries of a sequence of pages, page after page.
pub open spec fn pages_entries(pages: Seq<Seq<u8>>) -> Seq<ScanEntry>
    decreases pages.len(),
{
    if pages.len() == 0 {
        seq![]
    } else {
        pages_entries(pages.drop_last()) + page_entries(pages.last())
    }
}

/// Reads the networks of all pages, in page order.
pub fn collect_networks(pages: &Vec<Vec<u8>>) -> (res: Vec<WifiScanResult>)
    requires
        forall|p: int| 0 <= p < pages@.len() ==> page_decodable(#[trigger] pages@[p]@),
    ensures
        entry_views(res@) == pages_entries(pages@.map_values(|p: Vec<u8>| p@)),
{
    let ghost views = pages@.map_values(|p: Vec<u8>| p@);
    let mut all: Vec<WifiScanResult> = Vec::new();
    let mut i: usize = 0;
    while i < pages.len()
        invariant
            i <= pages@.len(),
            views == pages@.map_values(|p: Vec<u8>| p@),
            forall|p: int| 0 <= p < pages@.len() ==> page_decodable(#[trigger] pages@[p]@),
            entry_views(all@) == pages_entries(views.subrange(0, i as int)),
        decreases pages@.len() - i,
    {
        let mut page = WifiScanResult::from_bytes(pages[i].as_slice());
        let ghost before = all@;
        let ghost added = page@;
        all.append(&mut page);
        assert(all@ == before + added);
        assert(entry_views(all@) =~= entry_views(before) + entry_views(added));
        assert(views.subrange(0, i + 1).drop_last() =~= views.subrange(0, i as int));
        assert(views[i as int] == pages@[i as int]@);
        i = i + 1;
    }
    assert(views.subrange(0, i as int) =~= views);
    all
}

} // verus!
