//! What the client reads back of the pages that the device sends.

use vstd::prelude::*;
use vstd::utf8::*;
use crate::client::models::{page_decodable, page_entries, received_ssid, ScanEntry};
use crate::device::models::{
    empty_slot, is_page_data, slot_bytes, spec_pages_count, ssid_field, ScanResultView,
};
use crate::protocol::{
    spec_auth_method_to_u8, ENTIRE_SSID_PAGE_SIZE,
    MAX_SSID_PER_PAGE, SERIALIZED_SSID_LEN, SHORT_SSID_LEN,
};
use crate::client::services::{pages_entries, spec_poll_step, PollStep};
use crate::protocol::{
    lemma_status_code_ranges, lemma_status_code_roundtrip, spec_status_code, spec_status_from_code,
    status_error, status_in_progress, status_success, WifiStatus,
};
use crate::device::gatt::{padded, write_command, CharacteristicAction};
use crate::device::runner::{before_nul, lemma_first_nul_at, runner_step, AppStateView, RunnerCommand, WifiRunnerCommand};
use crate::protocol::{
    connection_type_in_range, lemma_connection_type_decoding_unique, lemma_connection_type_roundtrip,
    spec_connection_type_bytes, WifiConnectionType, MAX_PASSWORD_LEN,
    MAX_WIFI_CONNECTION_TYPE_SIZE,
};
use crate::text::{
    all_ascii, ascii_chars, is_padding_char, lemma_ascii_bytes_decode,
    lemma_trim_end_padding_prefix, lossy_text, trim_end_padding,
};

verus! {

/// An SSID that travels unchanged up to its sixteenth byte: non-empty, ASCII, and
/// free of NUL and newline bytes.
pub open spec fn plain_ssid(ssid: Seq<u8>) -> bool {
    &&& ssid.len() > 0
    &&& forall|i: int| 0 <= i < ssid.len() ==> 0 < #[trigger] ssid[i] < 128 && ssid[i] != 10
}

/// The first `SHORT_SSID_LEN` bytes of an SSID.
pub open spec fn short_ssid(ssid: Seq<u8>) -> Seq<u8> {
    if ssid.len() <= SHORT_SSID_LEN {
        ssid
    } else {
        ssid.subrange(0, SHORT_SSID_LEN as int)
    }
}

/// The entry that the client shows for a network the device sent.
pub open spec fn shown_entry(r: ScanResultView) -> ScanEntry {
    ScanEntry {
        ssid: ascii_chars(short_ssid(r.ssid)),
        rssi: r.rssi,
        auth_method: r.auth_method,
    }
}

/// How many networks page `page` carries.
pub open spec fn page_slot_count(len: nat, page: int) -> int {
    let first = page * MAX_SSID_PER_PAGE;
    if len <= first {
        0
    } else if len - first >= MAX_SSID_PER_PAGE {
        MAX_SSID_PER_PAGE as int
    } else {
        len - first
    }
}

/// Trailing padding added after a text that does not end in padding is trimmed
/// away exactly.
proof fn lemma_trim_padding_suffix(a: Seq<char>, z: Seq<char>)
    requires
        a.len() > 0,
        !is_padding_char(a.last()),
        forall|i: int| 0 <= i < z.len() ==> #[trigger] is_padding_char(z[i]),
    ensures
        trim_end_padding(a + z) == a,
    decreases z.len(),
{
    if z.len() == 0 {
        assert(a + z =~= a);
    } else {
        assert((a + z).drop_last() =~= a + z.drop_last());
        assert((a + z).last() == z.last());
        lemma_trim_padding_suffix(a, z.drop_last());
    }
}

/// Sixteen zero bytes are read as an empty SSID.
proof fn lemma_zero_field_empty(field: Seq<u8>)
    requires
        field.len() == SHORT_SSID_LEN,
        forall|i: int| 0 <= i < field.len() ==> #[trigger] field[i] == 0,
    ensures
        trim_end_padding(lossy_text(field)).len() == 0,
{
    assert(all_ascii(field));
    lemma_ascii_bytes_decode(field);
    let chars = ascii_chars(field);
    assert(lossy_text(field) == chars);
    lemma_trim_end_padding_prefix(chars);
    let t = trim_end_padding(chars);
    if t.len() > 0 {
        assert(t.last() == chars[t.len() - 1]);
        assert(chars[t.len() - 1] == (0u8 as char));
    }
}

/// The SSID field of a plain SSID is read back as its first sixteen characters.
proof fn lemma_plain_field_reads(ssid: Seq<u8>)
    requires
        plain_ssid(ssid),
    ensures
        trim_end_padding(lossy_text(ssid_field(ssid))) == ascii_chars(short_ssid(ssid)),
{
    let field = ssid_field(ssid);
    let short = short_ssid(ssid);
    assert(all_ascii(field));
    lemma_ascii_bytes_decode(field);
    let a = ascii_chars(short);
    let z = Seq::new((SHORT_SSID_LEN - short.len()) as nat, |i: int| 0u8 as char);
    assert(ascii_chars(field) =~= a + z);
    let last = short[short.len() - 1];
    assert(0 < last < 128 && last != 10);
    assert(a.last() == last as char);
    assert((last as char) as u32 == last as u32);
    lemma_trim_padding_suffix(a, z);
}

/// The SSID that the client reads from the SSID field that the device writes.
pub open spec fn delivered_ssid(ssid: Seq<u8>) -> Seq<char> {
    trim_end_padding(lossy_text(ssid_field(ssid)))
}

/// The entry that the client reads for a network that the device sends.
pub open spec fn delivered_entry(r: ScanResultView) -> ScanEntry {
    ScanEntry { ssid: delivered_ssid(r.ssid), rssi: r.rssi, auth_method: r.auth_method }
}

/// Every network of page `page` is read back with a non-empty SSID.
pub open spec fn page_ssids_readable(networks: Seq<ScanResultView>, page: int) -> bool {
    forall|i: int|
        page * MAX_SSID_PER_PAGE <= i < networks.len() && i < page * MAX_SSID_PER_PAGE
            + MAX_SSID_PER_PAGE ==> delivered_ssid(#[trigger] networks[i].ssid).len() > 0
}

/// The entries that the client reads from the slots of a page from slot `k` on.
proof fn lemma_page_suffix(data: Seq<u8>, networks: Seq<ScanResultView>, page: int, k: int)
    requires
        is_page_data(data, networks, page),
        0 <= page,
        0 <= k <= MAX_SSID_PER_PAGE,
        page_ssids_readable(networks, page),
    ensures
        page_decodable(data.subrange(k * SERIALIZED_SSID_LEN, ENTIRE_SSID_PAGE_SIZE as int)),
        page_entries(data.subrange(k * SERIALIZED_SSID_LEN, ENTIRE_SSID_PAGE_SIZE as int)).len()
            == if page_slot_count(networks.len(), page) > k {
            page_slot_count(networks.len(), page) - k
        } else {
            0
        },
        forall|j: int|
            0 <= j < page_slot_count(networks.len(), page) - k ==> #[trigger] page_entries(
                data.subrange(k * SERIALIZED_SSID_LEN, ENTIRE_SSID_PAGE_SIZE as int),
            )[j] == delivered_entry(networks[page * MAX_SSID_PER_PAGE + k + j]),
    decreases MAX_SSID_PER_PAGE - k,
{
    let s = data.subrange(k * SERIALIZED_SSID_LEN, ENTIRE_SSID_PAGE_SIZE as int);
    let index = page * MAX_SSID_PER_PAGE + k;
    if k == MAX_SSID_PER_PAGE {
        assert(s.len() == 0);
        return;
    }
    let slot = data.subrange(k * SERIALIZED_SSID_LEN, k * SERIALIZED_SSID_LEN + SERIALIZED_SSID_LEN);
    assert(slot == slot_bytes(networks, index));
    assert(s.subrange(0, SERIALIZED_SSID_LEN as int) =~= slot);
    assert(s.subrange(0, SHORT_SSID_LEN as int) =~= slot.subrange(0, SHORT_SSID_LEN as int));
    if index < networks.len() {
        let r = networks[index];
        assert(slot.subrange(0, SHORT_SSID_LEN as int) =~= ssid_field(r.ssid));
        assert(received_ssid(s) == delivered_ssid(r.ssid));
        assert(received_ssid(s).len() > 0);
        lemma_page_suffix(data, networks, page, k + 1);
        let rest = s.subrange(SERIALIZED_SSID_LEN as int, s.len() as int);
        assert(rest =~= data.subrange(
            (k + 1) * SERIALIZED_SSID_LEN,
            ENTIRE_SSID_PAGE_SIZE as int,
        ));
        assert(s[16] == slot[16]);
        assert(s[17] == slot[17]);
        assert(slot[16] == r.rssi as u8);
        assert(slot[17] == spec_auth_method_to_u8(r.auth_method));
        let rssi = r.rssi;
        assert(((rssi as u8) as i8) == rssi) by (bit_vector);
        assert(page_entries(s) == seq![delivered_entry(r)] + page_entries(rest));
    } else {
        assert(slot =~= empty_slot());
        lemma_zero_field_empty(slot.subrange(0, SHORT_SSID_LEN as int));
        assert(received_ssid(s).len() == 0);
    }
}

/// Page law: the client reads back every network that the device puts on a page, in
/// slot order, with its signal strength and security unchanged and the SSID read
/// from its sixteen-byte field, provided each of those SSIDs reads as non-empty (the
/// client stops at the first entry whose SSID reads as empty).
pub proof fn lemma_page_roundtrip(data: Seq<u8>, networks: Seq<ScanResultView>, page: int)
    requires
        is_page_data(data, networks, page),
        0 <= page,
        page_ssids_readable(networks, page),
    ensures
        page_decodable(data),
        page_entries(data).len() == page_slot_count(networks.len(), page),
        forall|j: int|
            0 <= j < page_slot_count(networks.len(), page) ==> #[trigger] page_entries(data)[j]
                == delivered_entry(networks[page * MAX_SSID_PER_PAGE + j]),
{
    lemma_page_suffix(data, networks, page, 0);
    assert(data.subrange(0, ENTIRE_SSID_PAGE_SIZE as int) =~= data);
}

/// For plain ASCII SSIDs the page law reads exactly: each SSID arrives as its first
/// sixteen characters.
pub proof fn lemma_page_roundtrip_plain(data: Seq<u8>, networks: Seq<ScanResultView>, page: int)
    requires
        is_page_data(data, networks, page),
        0 <= page,
        forall|i: int|
            page * MAX_SSID_PER_PAGE <= i < networks.len() && i < page * MAX_SSID_PER_PAGE
                + MAX_SSID_PER_PAGE ==> plain_ssid(#[trigger] networks[i].ssid),
    ensures
        page_decodable(data),
        page_entries(data).len() == page_slot_count(networks.len(), page),
        forall|j: int|
            0 <= j < page_slot_count(networks.len(), page) ==> #[trigger] page_entries(data)[j]
                == shown_entry(networks[page * MAX_SSID_PER_PAGE + j]),
{
    assert forall|i: int|
        page * MAX_SSID_PER_PAGE <= i < networks.len() && i < page * MAX_SSID_PER_PAGE
            + MAX_SSID_PER_PAGE implies delivered_ssid(#[trigger] networks[i].ssid).len() > 0 by {
        assert(plain_ssid(networks[i].ssid));
        lemma_plain_field_reads(networks[i].ssid);
    }
    lemma_page_roundtrip(data, networks, page);
    assert forall|j: int| 0 <= j < page_slot_count(networks.len(), page) implies #[trigger] page_entries(
        data,
    )[j] == shown_entry(networks[page * MAX_SSID_PER_PAGE + j]) by {
        let r = networks[page * MAX_SSID_PER_PAGE + j];
        assert(plain_ssid(r.ssid));
        lemma_plain_field_reads(r.ssid);
    }
}

/// How many networks the first `k` pages carry.
pub open spec fn pages_prefix_len(len: nat, k: int) -> int {
    if k * MAX_SSID_PER_PAGE <= len {
        k * MAX_SSID_PER_PAGE
    } else {
        len as int
    }
}

/// The entries that the client reads from the first `k` pages are those of the
/// networks these pages carry.
proof fn lemma_scan_list_prefix(networks: Seq<ScanResultView>, pages: Seq<Seq<u8>>, k: int)
    requires
        (networks.len() + 4) / 5 <= 255,
        pages.len() == spec_pages_count(networks.len()),
        forall|p: int| 0 <= p < pages.len() ==> is_page_data(#[trigger] pages[p], networks, p),
        forall|i: int|
            0 <= i < networks.len() ==> delivered_ssid(#[trigger] networks[i].ssid).len() > 0,
        0 <= k <= pages.len(),
    ensures
        pages_entries(pages.take(k)) == networks.take(pages_prefix_len(networks.len(), k)).map_values(
            |r: ScanResultView| delivered_entry(r),
        ),
    decreases k,
{
    let len = networks.len();
    if k == 0 {
        assert(pages.take(0) =~= Seq::<Seq<u8>>::empty());
        assert(networks.take(0).map_values(|r: ScanResultView| delivered_entry(r)) =~= Seq::<
            ScanEntry,
        >::empty());
    } else {
        let page = k - 1;
        lemma_scan_list_prefix(networks, pages, page);
        assert(pages.take(k).drop_last() =~= pages.take(page));
        assert(pages.take(k).last() == pages[page]);
        assert(page < (len + 4) / 5);
        assert(page * 5 < len) by (nonlinear_arith)
            requires
                page < (len + 4) / 5,
                0 <= page,
        ;
        assert(page_ssids_readable(networks, page));
        assert(is_page_data(pages[page], networks, page));
        lemma_page_roundtrip(pages[page], networks, page);
        let before = pages_prefix_len(len, page);
        let after = pages_prefix_len(len, k);
        assert(before == page * 5);
        let prev = networks.take(before).map_values(|r: ScanResultView| delivered_entry(r));
        let entries = page_entries(pages[page]);
        let whole = networks.take(after).map_values(|r: ScanResultView| delivered_entry(r));
        assert(entries.len() == after - before);
        assert forall|j: int| 0 <= j < whole.len() implies #[trigger] (prev + entries)[j]
            == whole[j] by {
            if j >= before {
                assert(entries[j - before] == delivered_entry(networks[page * 5 + (j - before)]));
            }
        }
        assert(prev + entries =~= whole);
    }
}

/// Scan-list law: when the device holds `networks` and the client reads each of the
/// pages that the device reports, page `p` being the data the device serves for page
/// `p`, the client's list of networks (the pages' entries, page after page) is the
/// device's list entry by entry, each network read back as `delivered_entry` gives
/// it, provided each SSID reads as non-empty and the page count fits its byte.
pub proof fn lemma_scan_list_roundtrip(networks: Seq<ScanResultView>, pages: Seq<Seq<u8>>)
    requires
        (networks.len() + 4) / 5 <= 255,
        pages.len() == spec_pages_count(networks.len()),
        forall|p: int| 0 <= p < pages.len() ==> is_page_data(#[trigger] pages[p], networks, p),
        forall|i: int|
            0 <= i < networks.len() ==> delivered_ssid(#[trigger] networks[i].ssid).len() > 0,
    ensures
        forall|p: int| 0 <= p < pages.len() ==> page_decodable(#[trigger] pages[p]),
        pages_entries(pages) == networks.map_values(|r: ScanResultView| delivered_entry(r)),
{
    let len = networks.len();
    assert forall|p: int| 0 <= p < pages.len() implies page_decodable(#[trigger] pages[p]) by {
        assert(page_ssids_readable(networks, p));
        lemma_page_roundtrip(pages[p], networks, p);
    }
    lemma_scan_list_prefix(networks, pages, pages.len() as int);
    assert(pages.take(pages.len() as int) =~= pages);
    let count = pages.len() as int;
    assert(count * 5 >= len) by (nonlinear_arith)
        requires
            count == (len + 4) / 5,
    ;
    assert(networks.take(pages_prefix_len(len, count)) =~= networks);
}

/// Connection-type law: a connection type that the client writes, with parameters
/// in range, is the one the device stores after dispatching the write.
pub proof fn lemma_connection_type_delivered(
    t: WifiConnectionType,
    command: RunnerCommand,
    old: AppStateView,
    new: AppStateView,
    action: Option<WifiRunnerCommand>,
)
    requires
        connection_type_in_range(t),
        write_command(
            CharacteristicAction::WifiSetConnectionType,
            spec_connection_type_bytes(t),
            Some(command),
        ),
        runner_step(old, command, new, action),
    ensures
        new.wifi_config matches Some(c) && c.connection_type == t,
{
    let bytes = spec_connection_type_bytes(t);
    if let RunnerCommand::WifiSendConnectionType(buffer) = command {
        let buf = buffer@;
        assert(buf == padded(bytes, MAX_WIFI_CONNECTION_TYPE_SIZE as nat));
        assert(buf.subrange(0, bytes.len() as int) =~= bytes);
        lemma_connection_type_roundtrip(t, buf);
        let c = new.wifi_config->0;
        lemma_connection_type_decoding_unique(buf, t, c.connection_type);
    }
}

/// Password law: a password whose UTF-8 form has at most sixty-four bytes and no
/// zero byte, written by the client, is stored by the device exactly.
pub proof fn lemma_password_delivered(
    password: Seq<char>,
    command: RunnerCommand,
    old: AppStateView,
    new: AppStateView,
    action: Option<WifiRunnerCommand>,
)
    requires
        encode_utf8(password).len() <= MAX_PASSWORD_LEN,
        forall|i: int| 0 <= i < encode_utf8(password).len() ==> #[trigger] encode_utf8(password)[i] != 0,
        write_command(CharacteristicAction::WifiSetPassword, encode_utf8(password), Some(command)),
        runner_step(old, command, new, action),
    ensures
        new.wifi_config matches Some(c) && c.password == encode_utf8(password),
{
    let bytes = encode_utf8(password);
    if let RunnerCommand::WiFiSendPassword(buffer) = command {
        let buf = buffer@;
        assert(buf == padded(bytes, MAX_PASSWORD_LEN as nat));
        assert forall|i: int| 0 <= i < bytes.len() implies #[trigger] buf[i] != 0 by {
            assert(buf[i] == bytes[i]);
        }
        lemma_first_nul_at(buf, bytes.len() as int);
        assert(before_nul(buf) =~= bytes);
        encode_utf8_valid_utf8(password);
    }
}

/// Status law: every status that the device stores is read by the client as the
/// status of the same name.
pub proof fn lemma_status_delivered(status: WifiStatus)
    ensures
        spec_status_from_code(spec_status_code(status)) == status,
{
    lemma_status_code_roundtrip(status);
}

/// Polling law: when the client polls a status that the device stored, statuses of
/// operations in progress keep it waiting, idle and the success statuses end the
/// operation with their code, and error statuses fail it with their code.
pub proof fn lemma_status_polling(status: WifiStatus)
    ensures
        status_in_progress(status) ==> spec_poll_step(spec_status_code(status)) == PollStep::Wait,
        status_success(status) ==> spec_poll_step(spec_status_code(status)) == PollStep::Done(
            spec_status_code(status),
        ),
        status_error(status) ==> spec_poll_step(spec_status_code(status)) == PollStep::Failed(
            spec_status_code(status),
        ),
        status is Idle ==> spec_poll_step(spec_status_code(status)) == PollStep::Done(0),
{
    lemma_status_code_ranges(status);
}

} // verus!
