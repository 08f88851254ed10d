//! Small helpers of the client.

use vstd::prelude::*;

pub use crate::protocol::auth_method_from_u8;

verus! {

/// The signal-strength bars shown for an RSSI in dBm.
pub open spec fn spec_rssi_bars(rssi: i8) -> Seq<char> {
    if rssi >= -50 {
        "▂▄▆█"@
    } else if rssi >= -60 {
        "▂▄▆ "@
    } else if rssi >= -70 {
        "▂▄  "@
    } else if rssi >= -80 {
        "▂   "@
    } else {
        "    "@
    }
}

/// Four-character bar graph of a signal strength: four bars from -50 dBm up, one bar
/// less for each further 10 dB, none below -80 dBm.
pub fn format_rssi_level(rssi: i8) -> (res: &'static str)
    ensures
        res@ == spec_rssi_bars(rssi),
{
    if rssi >= -50 {
        "▂▄▆█"
    } else if rssi >= -60 {
        "▂▄▆ "
    } else if rssi >= -70 {
        "▂▄  "
    } else if rssi >= -80 {
        "▂   "
    } else {
        "    "
    }
}

} // verus!
