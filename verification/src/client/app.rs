//! The decisions of the client's interactive menus and the reading of the
//! connection settings that the user types.

use vstd::prelude::*;
use crate::client::models::WifiCredentials;
use crate::protocol::{AuthMethod, WifiConnectionType};

verus! {

/// Entries of the control menu, in the order shown.
#[derive(Debug, Clone, Copy, PartialEq, Eq, Structural)]
pub enum MenuAction {
    ScanAndConnect,
    GetWifiStatus,
    SendGlobalTest,
    SendLocalTest,
    DisconnectWifi,
    DisconnectAndExit,
}

/// The control-menu entry at position `selection`.
pub open spec fn spec_menu_action(selection: int) -> MenuAction {
    if selection == 0 {
        MenuAction::ScanAndConnect
    } else if selection == 1 {
        MenuAction::GetWifiStatus
    } else if selection == 2 {
        MenuAction::SendGlobalTest
    } else if selection == 3 {
        MenuAction::SendLocalTest
    } else if selection == 4 {
        MenuAction::DisconnectWifi
    } else {
        MenuAction::DisconnectAndExit
    }
}

/// The action chosen at position `selection` of the control menu.
pub fn main_menu_action(selection: usize) -> (res: MenuAction)
    requires
        selection < 6,
    ensures
        res == spec_menu_action(selection as int),
{
    match selection {
        0 => MenuAction::ScanAndConnect,
        1 => MenuAction::GetWifiStatus,
        2 => MenuAction::SendGlobalTest,
        3 => MenuAction::SendLocalTest,
        4 => MenuAction::DisconnectWifi,
        _ => MenuAction::DisconnectAndExit,
    }
}

/// Control-menu law: each of the six positions of the control menu gives the action
/// that its label names, in the order shown ("Scan & Connect to Wi-Fi", "Get Wi-Fi
/// Status", "Send global test", "Send local test", "Disconnect Wi-Fi", "Disconnect
/// from BLE and exit"), and no two positions give the same action.
pub proof fn lemma_control_menu_order(i: int, j: int)
    ensures
        spec_menu_action(0) == MenuAction::ScanAndConnect,
        spec_menu_action(1) == MenuAction::GetWifiStatus,
        spec_menu_action(2) == MenuAction::SendGlobalTest,
        spec_menu_action(3) == MenuAction::SendLocalTest,
        spec_menu_action(4) == MenuAction::DisconnectWifi,
        spec_menu_action(5) == MenuAction::DisconnectAndExit,
        0 <= i < 6 && 0 <= j < 6 && i != j ==> spec_menu_action(i) != spec_menu_action(j),
{
}

/// A choice in the list of scanned networks.
#[derive(Debug, Clone, Copy, PartialEq, Eq, Structural)]
pub enum ScanMenuChoice {
    /// Return to the control menu.
    Back,
    /// Scan again.
    Rescan,
    /// Work with the network at this position of the scan list.
    Network(usize),
}

/// The choice at position `selection` of the scan menu, whose first two entries are
/// "Back" and "Rescan", followed by the networks.
pub fn scan_menu_choice(selection: usize) -> (res: ScanMenuChoice)
    ensures
        selection == 0 ==> res == ScanMenuChoice::Back,
        selection == 1 ==> res == ScanMenuChoice::Rescan,
        selection >= 2 ==> res == ScanMenuChoice::Network((selection - 2) as usize),
{
    if selection == 0 {
        ScanMenuChoice::Back
    } else if selection == 1 {
        ScanMenuChoice::Rescan
    } else {
        ScanMenuChoice::Network(selection - 2)
    }
}

/// Entries of the menu of a chosen network.
#[derive(Debug, Clone, Copy, PartialEq, Eq, Structural)]
pub enum NetworkMenuAction {
    SetPassword,
    ChangeConnectionType,
    Connect,
    Back,
}

/// The entries shown for a network: "Set Password" first when the network is
/// secured, then the connection type, connect and back entries.
pub open spec fn spec_network_menu(auth_method: AuthMethod) -> Seq<NetworkMenuAction> {
    let common = seq![
        NetworkMenuAction::ChangeConnectionType,
        NetworkMenuAction::Connect,
        NetworkMenuAction::Back,
    ];
    if auth_method != AuthMethod::Open {
        seq![NetworkMenuAction::SetPassword] + common
    } else {
        common
    }
}

/// The entries of the menu of a network with the given security, in the order shown.
pub fn network_menu_items(auth_method: AuthMethod) -> (res: Vec<NetworkMenuAction>)
    ensures
        res@ == spec_network_menu(auth_method),
{
    let mut items: Vec<NetworkMenuAction> = Vec::new();
    if auth_method != AuthMethod::Open {
        items.push(NetworkMenuAction::SetPassword);
    }
    items.push(NetworkMenuAction::ChangeConnectionType);
    items.push(NetworkMenuAction::Connect);
    items.push(NetworkMenuAction::Back);
    assert(items@ =~= spec_network_menu(auth_method));
    items
}

/// The action chosen at position `selection` of the menu of a network: the entry
/// shown at that position.
pub fn network_menu_action(auth_method: AuthMethod, selection: usize) -> (res: NetworkMenuAction)
    requires
        selection < spec_network_menu(auth_method).len(),
    ensures
        res == spec_network_menu(auth_method)[selection as int],
{
    let real_selection = if auth_method != AuthMethod::Open {
        selection
    } else {
        selection + 1
    };
    match real_selection {
        0 => NetworkMenuAction::SetPassword,
        1 => NetworkMenuAction::ChangeConnectionType,
        2 => NetworkMenuAction::Connect,
        _ => NetworkMenuAction::Back,
    }
}

/// What the user did in the menu of a network.
#[derive(Debug, Clone)]
pub enum NetworkMenuEvent {
    /// Chose "Set Password" and typed this password.
    PasswordEntered(String),
    /// Chose "Change connection type" and gave these valid settings.
    ConnectionTypeChosen(WifiConnectionType),
    /// Chose "Change connection type" but the settings typed were refused.
    ConnectionTypeRefused,
    /// Chose to connect to the network.
    ConnectChosen,
    /// Chose to go back to the list of networks.
    BackChosen,
}

/// How the menu of a network goes on after an event.
#[derive(Debug, Clone, Copy, PartialEq, Eq, Structural)]
pub enum NetworkMenuOutcome {
    /// Show the menu again.
    Continue,
    /// Connect the device with the credentials as they stand.
    Connect,
    /// Leave the menu without connecting.
    Back,
}

/// The credentials that the menu of the network at position `network_index` starts
/// with: that network, no password, DHCP.
pub fn credentials_for_network(network_index: usize) -> (res: WifiCredentials)
    ensures
        res.network_index == network_index,
        res.password@.len() == 0,
        res.connection_type == WifiConnectionType::DHCP,
{
    let mut credentials = WifiCredentials::default();
    credentials.network_index = network_index;
    credentials
}

/// One step of the menu of a network: a typed password replaces the password, valid
/// connection settings replace the connection type, refused settings change nothing,
/// and the menu goes on; choosing to connect or to go back ends the menu with the
/// credentials unchanged.
pub fn apply_network_menu_event(credentials: &mut WifiCredentials, event: NetworkMenuEvent) -> (res:
    NetworkMenuOutcome)
    ensures
        final(credentials).network_index == old(credentials).network_index,
        match event {
            NetworkMenuEvent::PasswordEntered(password) => {
                &&& res == NetworkMenuOutcome::Continue
                &&& final(credentials).password@ == password@
                &&& final(credentials).connection_type == old(credentials).connection_type
            },
            NetworkMenuEvent::ConnectionTypeChosen(connection_type) => {
                &&& res == NetworkMenuOutcome::Continue
                &&& final(credentials).password@ == old(credentials).password@
                &&& final(credentials).connection_type == connection_type
            },
            NetworkMenuEvent::ConnectionTypeRefused => {
                &&& res == NetworkMenuOutcome::Continue
                &&& final(credentials).password@ == old(credentials).password@
                &&& final(credentials).connection_type == old(credentials).connection_type
            },
            NetworkMenuEvent::ConnectChosen => {
                &&& res == NetworkMenuOutcome::Connect
                &&& final(credentials).password@ == old(credentials).password@
                &&& final(credentials).connection_type == old(credentials).connection_type
            },
            NetworkMenuEvent::BackChosen => {
                &&& res == NetworkMenuOutcome::Back
                &&& final(credentials).password@ == old(credentials).password@
                &&& final(credentials).connection_type == old(credentials).connection_type
            },
        },
{
    match event {
        NetworkMenuEvent::PasswordEntered(password) => {
            credentials.password = password;
            NetworkMenuOutcome::Continue
        },
        NetworkMenuEvent::ConnectionTypeChosen(connection_type) => {
            credentials.connection_type = connection_type;
            NetworkMenuOutcome::Continue
        },
        NetworkMenuEvent::ConnectionTypeRefused => NetworkMenuOutcome::Continue,
        NetworkMenuEvent::ConnectChosen => NetworkMenuOutcome::Connect,
        NetworkMenuEvent::BackChosen => NetworkMenuOutcome::Back,
    }
}

/// Network-menu law: a secured network's menu offers, in order, "Set Password",
/// "Change connection type", "Connect" and "Back"; an open network's menu has no
/// password entry and offers the other three in the same order.
pub proof fn lemma_network_menu_order(auth_method: AuthMethod)
    ensures
        auth_method != AuthMethod::Open ==> spec_network_menu(auth_method) == seq![
            NetworkMenuAction::SetPassword,
            NetworkMenuAction::ChangeConnectionType,
            NetworkMenuAction::Connect,
            NetworkMenuAction::Back,
        ],
        auth_method == AuthMethod::Open ==> spec_network_menu(auth_method) == seq![
            NetworkMenuAction::ChangeConnectionType,
            NetworkMenuAction::Connect,
            NetworkMenuAction::Back,
        ],
{
    let common = seq![
        NetworkMenuAction::ChangeConnectionType,
        NetworkMenuAction::Connect,
        NetworkMenuAction::Back,
    ];
    assert(seq![NetworkMenuAction::SetPassword] + common =~= seq![
        NetworkMenuAction::SetPassword,
        NetworkMenuAction::ChangeConnectionType,
        NetworkMenuAction::Connect,
        NetworkMenuAction::Back,
    ]);
}

/// The kinds of connection offered when the connection type is changed.
#[derive(Debug, Clone, Copy, PartialEq, Eq, Structural)]
pub enum ConnectionKind {
    DHCP,
    Static,
    DHCPv6,
    StaticV6,
}

/// The kind at position `selection` of the connection-type menu.
pub fn connection_kind_from_selection(selection: usize) -> (res: ConnectionKind)
    requires
        selection < 4,
    ensures
        selection == 0 ==> res == ConnectionKind::DHCP,
        selection == 1 ==> res == ConnectionKind::Static,
        selection == 2 ==> res == ConnectionKind::DHCPv6,
        selection == 3 ==> res == ConnectionKind::StaticV6,
{
    match selection {
        0 => ConnectionKind::DHCP,
        1 => ConnectionKind::Static,
        2 => ConnectionKind::DHCPv6,
        _ => ConnectionKind::StaticV6,
    }
}

/// Why typed connection settings were refused.
#[derive(Debug, Clone, Copy, PartialEq, Eq, Structural)]
pub enum ConnectionInputError {
    InvalidIpAddress,
    InvalidSubnetMask,
    InvalidPrefixLength,
    InvalidGateway,
}

/// The value of a sequence of decimal digits.
pub open spec fn digits_value(s: Seq<char>) -> int
    decreases s.len(),
{
    if s.len() == 0 {
        0
    } else {
        digits_value(s.drop_last()) * 10 + (s.last() as int - '0' as int)
    }
}

/// Every character of `s` is a decimal digit.
pub open spec fn all_digits(s: Seq<char>) -> bool {
    forall|i: int| 0 <= i < s.len() ==> '0' <= #[trigger] s[i] <= '9'
}

/// What `str::parse::<u8>` gives: an optional `+` followed by at least one decimal
/// digit, whose value is at most 255.
pub open spec fn spec_parse_u8(s: Seq<char>) -> Option<u8> {
    let digits = if s.len() > 0 && s[0] == '+' {
        s.drop_first()
    } else {
        s
    };
    if digits.len() > 0 && all_digits(digits) && digits_value(digits) <= 255 {
        Some(digits_value(digits) as u8)
    } else {
        None
    }
}

/// Digit values never decrease as digits are appended.
proof fn lemma_digits_value_nonneg(s: Seq<char>)
    requires
        all_digits(s),
    ensures
        digits_value(s) >= 0,
    decreases s.len(),
{
    if s.len() > 0 {
        assert(all_digits(s.drop_last()));
        lemma_digits_value_nonneg(s.drop_last());
    }
}

/// Reads a decimal number from 0 to 255, with an optional leading `+`.
pub fn parse_u8(text: &str) -> (res: Option<u8>)
    ensures
        res == spec_parse_u8(text@),
{
    let n = text.unicode_len();
    let mut start: usize = 0;
    if n > 0 && text.get_char(0) == '+' {
        start = 1;
    }
    let ghost digits = if text@.len() > 0 && text@[0] == '+' {
        text@.drop_first()
    } else {
        text@
    };
    assert(digits =~= text@.subrange(start as int, n as int));
    if start >= n {
        return None;
    }
    let mut value: u32 = 0;
    let mut i: usize = start;
    while i < n
        invariant
            start <= i <= n,
            n == text@.len(),
            digits == text@.subrange(start as int, n as int),
            digits == (if text@.len() > 0 && text@[0] == '+' {
                text@.drop_first()
            } else {
                text@
            }),
            all_digits(text@.subrange(start as int, i as int)),
            value <= 256,
            value == if digits_value(text@.subrange(start as int, i as int)) > 256 {
                256
            } else {
                digits_value(text@.subrange(start as int, i as int))
            },
        decreases n - i,
    {
        let c = text.get_char(i);
        if !('0' <= c && c <= '9') {
            assert(digits[i - start] == c);
            assert(!('0' <= digits[i - start] <= '9'));
            assert(!all_digits(digits));
            return None;
        }
        let ghost prefix = text@.subrange(start as int, i as int);
        let ghost next = text@.subrange(start as int, i + 1);
        assert(next.drop_last() =~= prefix);
        assert(next.last() == c);
        proof {
            lemma_digits_value_nonneg(prefix);
        }
        let d: u32 = (c as u32) - ('0' as u32);
        value = value * 10 + d;
        if value > 256 {
            value = 256;
        }
        i = i + 1;
        assert(all_digits(next));
    }
    if value > 255 {
        None
    } else {
        Some(value as u8)
    }
}

/// The fields of a text between its dots, in order: one more than the dots.
pub open spec fn dot_fields(s: Seq<char>) -> Seq<Seq<char>>
    decreases s.len(),
{
    if s.len() == 0 {
        seq![Seq::<char>::empty()]
    } else {
        let fields = dot_fields(s.drop_last());
        if s.last() == '.' {
            fields.push(Seq::<char>::empty())
        } else {
            fields.update(fields.len() - 1, fields.last().push(s.last()))
        }
    }
}

/// An octet in decimal notation: one to three digits, with no leading zero unless
/// the octet is `0`, worth at most 255.
pub open spec fn octet_text(s: Seq<char>) -> bool {
    &&& 1 <= s.len() <= 3
    &&& all_digits(s)
    &&& (s.len() == 1 || s[0] != '0')
    &&& digits_value(s) <= 255
}

/// The text is an IPv4 address in dotted decimal notation: four octets divided by
/// dots.
pub open spec fn ipv4_text(s: Seq<char>) -> bool {
    &&& dot_fields(s).len() == 4
    &&& forall|k: int| 0 <= k < 4 ==> octet_text(#[trigger] dot_fields(s)[k])
}

/// The octets written by four decimal fields.
pub open spec fn ipv4_octet_values(fields: Seq<Seq<char>>) -> Seq<u8> {
    seq![
        digits_value(fields[0]) as u8,
        digits_value(fields[1]) as u8,
        digits_value(fields[2]) as u8,
        digits_value(fields[3]) as u8,
    ]
}

/// What `Ipv4Addr::from_str` gives for a text, as its documentation describes it:
/// the octets of an address in dotted decimal notation, octal and hexadecimal forms
/// (a leading `0`, `0x`) refused; nothing for any other text.
pub open spec fn ipv4_from_text(text: Seq<char>) -> Option<[u8; 4]> {
    if ipv4_text(text) {
        Some(choose|a: [u8; 4]| a@ == ipv4_octet_values(dot_fields(text)))
    } else {
        None
    }
}

/// `v`, or 256 when it is larger.
pub open spec fn capped_value(v: int) -> int {
    if v > 256 {
        256
    } else {
        v
    }
}

/// Reads an IPv4 address in dotted decimal notation.
pub fn parse_ipv4(text: &str) -> (res: Option<[u8; 4]>)
    ensures
        res == ipv4_from_text(text@),
{
    let n = text.unicode_len();
    let mut octets: [u8; 4] = [0u8; 4];
    let mut fields: usize = 1;
    let mut valid: bool = true;
    let mut cur_len: usize = 0;
    let mut cur_digits: bool = true;
    let mut cur_val: u32 = 0;
    let mut cur_first_zero: bool = false;
    let mut i: usize = 0;
    assert(text@.subrange(0, 0) =~= Seq::<char>::empty());
    while i < n
        invariant
            i <= n,
            n == text@.len(),
            fields == (if dot_fields(text@.subrange(0, i as int)).len() < 5 {
                dot_fields(text@.subrange(0, i as int)).len()
            } else {
                5
            }),
            dot_fields(text@.subrange(0, i as int)).len() >= 1,
            cur_len == dot_fields(text@.subrange(0, i as int)).last().len(),
            cur_len <= i,
            cur_digits == all_digits(dot_fields(text@.subrange(0, i as int)).last()),
            cur_digits ==> cur_val == capped_value(
                digits_value(dot_fields(text@.subrange(0, i as int)).last()),
            ),
            cur_val <= 256,
            cur_len > 0 ==> cur_first_zero == (dot_fields(text@.subrange(0, i as int)).last()[0]
                == '0'),
            valid == (dot_fields(text@.subrange(0, i as int)).len() <= 4 && forall|k: int|
                0 <= k < dot_fields(text@.subrange(0, i as int)).len() - 1 ==> octet_text(
                    #[trigger] dot_fields(text@.subrange(0, i as int))[k],
                )),
            valid ==> forall|k: int|
                0 <= k < dot_fields(text@.subrange(0, i as int)).len() - 1 ==> octets@[k]
                    == digits_value(#[trigger] dot_fields(text@.subrange(0, i as int))[k]) as u8,
        decreases n - i,
    {
        let ghost prefix = text@.subrange(0, i as int);
        let ghost next = text@.subrange(0, i + 1);
        let ghost before = dot_fields(prefix);
        let ghost last = before.last();
        let c = text.get_char(i);
        assert(next.drop_last() =~= prefix);
        assert(next.last() == c);
        if c == '.' {
            let field_ok = cur_digits && 1 <= cur_len && cur_len <= 3 && (cur_len == 1
                || !cur_first_zero) && cur_val <= 255;
            assert(field_ok == octet_text(last));
            if valid && field_ok && fields < 4 {
                octets[fields - 1] = cur_val as u8;
            } else {
                valid = false;
            }
            if fields < 5 {
                fields = fields + 1;
            }
            cur_len = 0;
            cur_digits = true;
            cur_val = 0;
            cur_first_zero = false;
            assert(dot_fields(next) == before.push(Seq::<char>::empty()));
            assert(dot_fields(next).last() =~= Seq::<char>::empty());
            proof {
                let nf = dot_fields(next);
                assert forall|k: int| 0 <= k < before.len() implies #[trigger] nf[k] == before[k] by {}
                if valid {
                    assert forall|k: int| 0 <= k < nf.len() - 1 implies octet_text(#[trigger] nf[k]) by {
                        if k < before.len() - 1 {
                            assert(octet_text(before[k]));
                        } else {
                            assert(nf[k] == last);
                        }
                    }
                } else if nf.len() <= 4 && forall|k: int| 0 <= k < nf.len() - 1 ==> octet_text(#[trigger] nf[k]) {
                    assert(octet_text(nf[before.len() - 1]));
                    assert forall|k: int| 0 <= k < before.len() - 1 implies octet_text(#[trigger] before[k]) by {
                        assert(octet_text(nf[k]));
                    }
                }
            }
        } else {
            if cur_len == 0 {
                cur_first_zero = c == '0';
            }
            let ghost longer = last.push(c);
            assert(longer.drop_last() =~= last);
            assert(dot_fields(next) == before.update(before.len() - 1, longer));
            assert forall|k: int| 0 <= k < before.len() - 1 implies #[trigger] dot_fields(next)[k]
                == before[k] by {}
            if '0' <= c && c <= '9' {
                if cur_digits {
                    proof {
                        lemma_digits_value_nonneg(last);
                    }
                    cur_val = cur_val * 10 + ((c as u32) - ('0' as u32));
                    if cur_val > 256 {
                        cur_val = 256;
                    }
                }
                assert(all_digits(longer) == all_digits(last));
            } else {
                cur_digits = false;
                assert(!('0' <= longer[longer.len() - 1] <= '9'));
                assert(!all_digits(longer));
            }
            cur_len = cur_len + 1;
            if cur_len == 1 {
                assert(longer[0] == c);
            } else {
                assert(longer[0] == last[0]);
            }
            proof {
                let nf = dot_fields(next);
                assert(nf.len() == before.len());
                if valid {
                    assert forall|k: int| 0 <= k < nf.len() - 1 implies octet_text(#[trigger] nf[k]) by {
                        assert(octet_text(before[k]));
                    }
                } else if nf.len() <= 4 && forall|k: int| 0 <= k < nf.len() - 1 ==> octet_text(#[trigger] nf[k]) {
                    assert forall|k: int| 0 <= k < before.len() - 1 implies octet_text(#[trigger] before[k]) by {
                        assert(octet_text(nf[k]));
                    }
                }
            }
        }
        i = i + 1;
    }
    assert(text@.subrange(0, n as int) =~= text@);
    let ghost all = dot_fields(text@);
    let last_ok = cur_digits && 1 <= cur_len && cur_len <= 3 && (cur_len == 1 || !cur_first_zero)
        && cur_val <= 255;
    assert(last_ok == octet_text(all.last()));
    if valid && fields == 4 && last_ok {
        octets[3] = cur_val as u8;
        assert(octet_text(all[3]));
        assert(ipv4_text(text@));
        assert(octets@ =~= ipv4_octet_values(all));
        let ghost chosen = choose|a: [u8; 4]| a@ == ipv4_octet_values(all);
        assert(chosen@ == ipv4_octet_values(all));
        assert(chosen =~= octets);
        Some(octets)
    } else {
        proof {
            if ipv4_text(text@) {
                assert(octet_text(all[3]));
                assert(all.last() == all[3]);
            }
        }
        None
    }
}

/// What `Ipv6Addr::from_str` gives for a text: the sixteen octets of the address it
/// reads, or nothing when the text is not an IPv6 address.
pub uninterp spec fn ipv6_from_text(text: Seq<char>) -> Option<[u8; 16]>;

/// Calls `Ipv6Addr::from_str` and takes the octets of the address.
/// Claims that the result is `ipv6_from_text` of the text; what that is is not stated.
#[verifier::external_body]
fn parse_ipv6(text: &str) -> (res: Option<[u8; 16]>)
    ensures
        res == ipv6_from_text(text@),
{
    match <core::net::Ipv6Addr as core::str::FromStr>::from_str(text) {
        Ok(addr) => Some(addr.octets()),
        Err(_) => None,
    }
}

/// The static IPv4 settings from an address as read, the typed mask length and a
/// gateway as read; the first field that did not read is reported.
pub open spec fn spec_static_v4_settings(
    ip: Option<[u8; 4]>,
    mask: Seq<char>,
    gateway: Option<[u8; 4]>,
) -> Result<WifiConnectionType, ConnectionInputError> {
    match ip {
        None => Err(ConnectionInputError::InvalidIpAddress),
        Some(ip) => match spec_parse_u8(mask) {
            None => Err(ConnectionInputError::InvalidSubnetMask),
            Some(subnet_mask) => match gateway {
                None => Err(ConnectionInputError::InvalidGateway),
                Some(gateway) => Ok(WifiConnectionType::Static { ip, subnet_mask, gateway }),
            },
        },
    }
}

/// The static IPv6 settings from an address as read, the typed prefix length and a
/// gateway as read; the first field that did not read is reported.
pub open spec fn spec_static_v6_settings(
    ip: Option<[u8; 16]>,
    prefix: Seq<char>,
    gateway: Option<[u8; 16]>,
) -> Result<WifiConnectionType, ConnectionInputError> {
    match ip {
        None => Err(ConnectionInputError::InvalidIpAddress),
        Some(ip) => match spec_parse_u8(prefix) {
            None => Err(ConnectionInputError::InvalidPrefixLength),
            Some(prefix_length) => match gateway {
                None => Err(ConnectionInputError::InvalidGateway),
                Some(gateway) => Ok(WifiConnectionType::StaticV6 { ip, prefix_length, gateway }),
            },
        },
    }
}

/// Builds static IPv4 settings from an address and a gateway already read (`None`
/// when they did not read) and the typed mask length.
pub fn static_v4_settings(ip: Option<[u8; 4]>, subnet_mask: &str, gateway: Option<[u8; 4]>) -> (res: Result<
    WifiConnectionType,
    ConnectionInputError,
>)
    ensures
        res == spec_static_v4_settings(ip, subnet_mask@, gateway),
{
    let ip = match ip {
        Some(octets) => octets,
        None => return Err(ConnectionInputError::InvalidIpAddress),
    };
    let subnet = match parse_u8(subnet_mask) {
        Some(v) => v,
        None => return Err(ConnectionInputError::InvalidSubnetMask),
    };
    let gateway = match gateway {
        Some(octets) => octets,
        None => return Err(ConnectionInputError::InvalidGateway),
    };
    Ok(WifiConnectionType::Static { ip, subnet_mask: subnet, gateway })
}

/// Builds static IPv6 settings from an address and a gateway already read (`None`
/// when they did not read) and the typed prefix length.
pub fn static_v6_settings(ip: Option<[u8; 16]>, prefix_length: &str, gateway: Option<[u8; 16]>) -> (res: Result<
    WifiConnectionType,
    ConnectionInputError,
>)
    ensures
        res == spec_static_v6_settings(ip, prefix_length@, gateway),
{
    let ip = match ip {
        Some(octets) => octets,
        None => return Err(ConnectionInputError::InvalidIpAddress),
    };
    let prefix = match parse_u8(prefix_length) {
        Some(v) => v,
        None => return Err(ConnectionInputError::InvalidPrefixLength),
    };
    let gateway = match gateway {
        Some(octets) => octets,
        None => return Err(ConnectionInputError::InvalidGateway),
    };
    Ok(WifiConnectionType::StaticV6 { ip, prefix_length: prefix, gateway })
}

/// Reads static IPv4 settings from the texts the user typed: addresses in dotted
/// notation as `Ipv4Addr` reads them, the mask length as a number from 0 to 255.
pub fn static_v4_from_input(ip: &str, subnet_mask: &str, gateway: &str) -> (res: Result<
    WifiConnectionType,
    ConnectionInputError,
>)
    ensures
        res == spec_static_v4_settings(ipv4_from_text(ip@), subnet_mask@, ipv4_from_text(gateway@)),
{
    let ip = parse_ipv4(ip);
    let gateway = parse_ipv4(gateway);
    static_v4_settings(ip, subnet_mask, gateway)
}

/// Reads static IPv6 settings from the texts the user typed: addresses as `Ipv6Addr`
/// reads them, the prefix length as a number from 0 to 255.
pub fn static_v6_from_input(ip: &str, prefix_length: &str, gateway: &str) -> (res: Result<
    WifiConnectionType,
    ConnectionInputError,
>)
    ensures
        res == spec_static_v6_settings(ipv6_from_text(ip@), prefix_length@, ipv6_from_text(gateway@)),
{
    let ip = parse_ipv6(ip);
    let gateway = parse_ipv6(gateway);
    static_v6_settings(ip, prefix_length, gateway)
}

} // verus!
