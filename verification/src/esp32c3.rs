//! The dialogue with the network module: reading its replies and
//! choosing the command that follows.

use crate::time::{Duration, Instant};
use arrayvec::{ArrayString, ArrayVec};
use vstd::prelude::*;
use vstd::slice::slice_subrange;
use vstd::string::is_ascii;

verus! {

/// Most bytes that one message to or from the network holds.
pub const MAX_NETWORK_BUFFER_SIZE: usize = 256;

/// Number of connections that the module serves at once.
pub const MAX_CONNECTIONS: usize = 4;

/// Most bytes of an address or of the type of a link.
pub const ADDRESS_TEXT_SIZE: usize = 16;

/// Most bytes of a hardware address.
pub const MAC_TEXT_SIZE: usize = 24;

/// Most bytes of the name or of the secret of a network.
pub const SSID_TEXT_SIZE: usize = 32;

/// The bytes of a text of plain characters.
pub open spec fn text(s: Seq<char>) -> Seq<u8> {
    Seq::new(s.len(), |i: int| s[i] as u8)
}

/// The place of the first `delim` in `s` from place `from` on, or the
/// length of `s` where there is none.
pub open spec fn spec_index_of(s: Seq<u8>, delim: u8, from: int) -> int
    decreases s.len() - from,
{
    if from < 0 || from >= s.len() {
        s.len() as int
    } else if s[from] == delim {
        from
    } else {
        spec_index_of(s, delim, from + 1)
    }
}

/// What lies before and after the first `delim` in `s`, if there is one.
pub open spec fn spec_split_once(s: Seq<u8>, delim: u8) -> Option<(Seq<u8>, Seq<u8>)> {
    let at = spec_index_of(s, delim, 0);
    if at < s.len() {
        Some((s.subrange(0, at), s.subrange(at + 1, s.len() as int)))
    } else {
        None
    }
}

/// Whether `s` begins with `prefix`.
pub open spec fn spec_starts_with(s: Seq<u8>, prefix: Seq<u8>) -> bool {
    prefix.len() <= s.len() && s.subrange(0, prefix.len() as int) == prefix
}

/// What follows `prefix` in `s`, if `s` begins with it.
pub open spec fn spec_strip_prefix(s: Seq<u8>, prefix: Seq<u8>) -> Option<Seq<u8>> {
    if spec_starts_with(s, prefix) {
        Some(s.subrange(prefix.len() as int, s.len() as int))
    } else {
        None
    }
}

/// Whether `b` is a decimal digit.
pub open spec fn spec_is_digit(b: u8) -> bool {
    '0' as u8 <= b <= '9' as u8
}

/// The number that the decimal digits `s` write.
pub open spec fn spec_digits_value(s: Seq<u8>) -> int
    decreases s.len(),
{
    if s.len() == 0 {
        0
    } else {
        spec_digits_value(s.drop_last()) * 10 + (s.last() - '0' as u8)
    }
}

/// Whether `s` holds decimal digits and nothing else.
pub open spec fn spec_all_digits(s: Seq<u8>) -> bool {
    forall|i: int| 0 <= i < s.len() ==> spec_is_digit(#[trigger] s[i])
}

/// What is left of `s` without a plus sign in front.
pub open spec fn spec_unsigned(s: Seq<u8>) -> Seq<u8> {
    if s.len() > 0 && s[0] == '+' as u8 {
        s.subrange(1, s.len() as int)
    } else {
        s
    }
}

/// The number up to `max` that `s` writes: decimal digits, at least one,
/// after an optional plus sign, and nothing else.
pub open spec fn spec_number(s: Seq<u8>, max: int) -> Option<int> {
    let digits = spec_unsigned(s);
    if digits.len() > 0 && spec_all_digits(digits) && spec_digits_value(digits) <= max {
        Some(spec_digits_value(digits))
    } else {
        None
    }
}

/// The place of the first `delim` in `s`, or the length of `s`.
fn index_of(s: &[u8], delim: u8) -> (at: usize)
    ensures
        at == spec_index_of(s@, delim, 0),
        at <= s.len(),
{
    let mut i: usize = 0;
    while i < s.len() && s[i] != delim
        invariant
            i <= s.len(),
            spec_index_of(s@, delim, 0) == spec_index_of(s@, delim, i as int),
        decreases s.len() - i,
    {
        i = i + 1;
    }
    i
}

/// What lies before and after the first `delim` in `s`, if there is one.
fn split_once(s: &[u8], delim: u8) -> (parts: Option<(&[u8], &[u8])>)
    ensures
        match parts {
            Some(p) => spec_split_once(s@, delim) == Some((p.0@, p.1@)),
            None => spec_split_once(s@, delim) is None,
        },
{
    let at = index_of(s, delim);
    if at < s.len() {
        Some((slice_subrange(s, 0, at), slice_subrange(s, at + 1, s.len())))
    } else {
        None
    }
}

/// Whether `s` is the text `lit`.
fn equals(s: &[u8], lit: &str) -> (same: bool)
    requires
        is_ascii(lit),
    ensures
        same == (s@ == text(lit@)),
{
    broadcast use vstd::string::is_ascii_spec_bytes;

    let bytes = lit.as_bytes();
    assert(bytes@ =~= text(lit@));
    if s.len() != bytes.len() {
        return false;
    }
    let mut i: usize = 0;
    while i < s.len()
        invariant
            i <= s.len(),
            s.len() == bytes.len(),
            bytes@ == text(lit@),
            forall|j: int| 0 <= j < i ==> s@[j] == bytes@[j],
        decreases s.len() - i,
    {
        if s[i] != bytes[i] {
            return false;
        }
        i = i + 1;
    }
    assert(s@ =~= bytes@);
    true
}

/// What follows the text `prefix` in `s`, if `s` begins with it.
fn strip_prefix<'a>(s: &'a [u8], prefix: &str) -> (rest: Option<&'a [u8]>)
    requires
        is_ascii(prefix),
    ensures
        match rest {
            Some(r) => spec_strip_prefix(s@, text(prefix@)) == Some(r@),
            None => spec_strip_prefix(s@, text(prefix@)) is None,
        },
{
    broadcast use vstd::string::is_ascii_spec_bytes;

    let bytes = prefix.as_bytes();
    assert(bytes@ =~= text(prefix@));
    if s.len() < bytes.len() {
        return None;
    }
    let head = slice_subrange(s, 0, bytes.len());
    let mut i: usize = 0;
    while i < bytes.len()
        invariant
            i <= bytes.len(),
            head.len() == bytes.len(),
            bytes.len() <= s.len(),
            bytes@ == text(prefix@),
            head@ == s@.subrange(0, bytes.len() as int),
            forall|j: int| 0 <= j < i ==> head@[j] == bytes@[j],
        decreases bytes.len() - i,
    {
        if head[i] != bytes[i] {
            return None;
        }
        i = i + 1;
    }
    assert(head@ =~= bytes@);
    Some(slice_subrange(s, bytes.len(), s.len()))
}

/// The digits of a number never write less than their first digits do.
proof fn lemma_digits_grow(s: Seq<u8>, count: int)
    requires
        0 <= count <= s.len(),
        spec_all_digits(s),
    ensures
        0 <= spec_digits_value(s.take(count)) <= spec_digits_value(s),
    decreases s.len(),
{
    if s.len() == 0 {
        assert(s.take(count) =~= s);
    } else {
        let rest = s.drop_last();
        let fewer = if count == s.len() {
            count - 1
        } else {
            count
        };
        lemma_digits_grow(rest, fewer);
        lemma_digits_grow(rest, rest.len() as int);
        assert(rest.take(rest.len() as int) =~= rest);
        assert(spec_is_digit(s[s.len() - 1]));
        if count == s.len() {
            assert(s.take(count) =~= s);
        } else {
            assert(rest.take(count) =~= s.take(count));
        }
    }
}

/// The number up to `max` that `s` writes, if it writes one.
fn number(s: &[u8], max: u32) -> (value: Option<u32>)
    requires
        max <= 0xffff,
    ensures
        match value {
            Some(v) => spec_number(s@, max as int) == Some(v as int),
            None => spec_number(s@, max as int) is None,
        },
{
    let digits = if s.len() > 0 && s[0] == '+' as u8 {
        slice_subrange(s, 1, s.len())
    } else {
        s
    };
    if digits.len() == 0 {
        return None;
    }
    let mut value: u32 = 0;
    let mut i: usize = 0;
    while i < digits.len()
        invariant
            i <= digits.len(),
            digits.len() > 0,
            digits@ == spec_unsigned(s@),
            max <= 0xffff,
            value <= max,
            value == spec_digits_value(digits@.take(i as int)),
            forall|j: int| 0 <= j < i ==> spec_is_digit(#[trigger] digits@[j]),
        decreases digits.len() - i,
    {
        let b = digits[i];
        if b < '0' as u8 || b > '9' as u8 {
            assert(!spec_is_digit(digits@[i as int]));
            return None;
        }
        assert(digits@.take(i + 1).drop_last() =~= digits@.take(i as int));
        assert(digits@.take(i + 1).last() == b);
        let next: u32 = value * 10 + (b - '0' as u8) as u32;
        assert(next == spec_digits_value(digits@.take(i + 1)));
        if next > max {
            proof {
                if spec_all_digits(digits@) {
                    lemma_digits_grow(digits@, i + 1);
                }
            }
            return None;
        }
        value = next;
        i = i + 1;
    }
    assert(digits@.take(digits.len() as int) =~= digits@);
    Some(value)
}

/// A copy of `s`.
fn copy_bytes(s: &[u8]) -> (copy: Vec<u8>)
    ensures
        copy@ == s@,
{
    let mut copy: Vec<u8> = Vec::new();
    let mut i: usize = 0;
    while i < s.len()
        invariant
            i <= s.len(),
            copy@ == s@.take(i as int),
        decreases s.len() - i,
    {
        copy.push(s[i]);
        assert(s@.take(i + 1) =~= s@.take(i as int).push(s@[i as int]));
        i = i + 1;
    }
    assert(s@.take(s.len() as int) =~= s@);
    copy
}

/// State of the link to the access point, as the module tells it.
#[derive(Clone, Copy, Debug, PartialEq, Eq, Structural)]
pub enum CwState {
    Idle,
    ConnectedWithoutIpAddress,
    Connected,
    Connecting,
    Disconnected,
}

/// How an access point protects its network.
#[derive(Clone, Copy, Debug, PartialEq, Eq, Structural)]
pub enum AccessPointEncryption {
    Open,
    Wep,
    WpaPsk,
    Wpa2Psk,
    WpaWpa2Psk,
    Wpa2Enterprise,
    Wpa3Psk,
    Wps2Wps3Psk,
    WapiPsk,
    Owe,
}

/// One setting of the station's address. `T` is the type of a text: bytes
/// in memory, or a sequence of bytes in contracts.
#[derive(Clone, Debug, PartialEq, Eq)]
pub enum IpSta<T> {
    Ip(T),
    Gateway(T),
    Netmask(T),
    Ip6Ll,
    Ip6Gl,
}

/// A connection as the module lists it.
#[derive(Clone, Debug, PartialEq, Eq)]
pub struct ConnectionIpState<T> {
    pub link_id: u8,
    pub link_type: T,
    pub remote_ip: T,
}

/// Data received on a connection.
#[derive(Clone, Debug, PartialEq, Eq)]
pub struct IpData<T> {
    pub link_id: u8,
    pub length: u16,
    pub data: T,
}

/// An access point in reach.
#[derive(Clone, Debug, PartialEq, Eq)]
pub struct AccessPointInfo<T> {
    pub encryption: AccessPointEncryption,
    pub ssid: T,
    pub rssi: u16,
}

/// One of the module's own addresses.
#[derive(Clone, Debug, PartialEq, Eq)]
pub enum AddressInfo<T> {
    AccessPointIp(T),
    AccessPointIpV6Ll,
    AccessPointIpV6Gl,
    AccessPointMac(T),
    StationIp(T),
    StationIpV6Ll,
    StationIpV6Gl,
    StationMac(T),
    EthIp,
    EthIpV6Ll,
    EthIpV6Gl,
    EthMac,
}

/// A reply of the module.
#[derive(Clone, Debug, PartialEq, Eq)]
pub enum AtReply<T> {
    Empty,
    Okay,
    Error,
    WifiConnected,
    WifiGotIp,
    CwState(CwState),
    IpSta(IpSta<T>),
    CIpState(ConnectionIpState<T>),
    CWLAP(AccessPointInfo<T>),
    SendOk,
    IpData(IpData<T>),
    CIFSR(AddressInfo<T>),
}

impl View for IpSta<Vec<u8>> {
    type V = IpSta<Seq<u8>>;

    open spec fn view(&self) -> IpSta<Seq<u8>> {
        match *self {
            IpSta::Ip(t) => IpSta::Ip(t@),
            IpSta::Gateway(t) => IpSta::Gateway(t@),
            IpSta::Netmask(t) => IpSta::Netmask(t@),
            IpSta::Ip6Ll => IpSta::Ip6Ll,
            IpSta::Ip6Gl => IpSta::Ip6Gl,
        }
    }
}

impl View for ConnectionIpState<Vec<u8>> {
    type V = ConnectionIpState<Seq<u8>>;

    open spec fn view(&self) -> ConnectionIpState<Seq<u8>> {
        ConnectionIpState {
            link_id: self.link_id,
            link_type: self.link_type@,
            remote_ip: self.remote_ip@,
        }
    }
}

impl View for IpData<Vec<u8>> {
    type V = IpData<Seq<u8>>;

    open spec fn view(&self) -> IpData<Seq<u8>> {
        IpData { link_id: self.link_id, length: self.length, data: self.data@ }
    }
}

impl View for AccessPointInfo<Vec<u8>> {
    type V = AccessPointInfo<Seq<u8>>;

    open spec fn view(&self) -> AccessPointInfo<Seq<u8>> {
        AccessPointInfo { encryption: self.encryption, ssid: self.ssid@, rssi: self.rssi }
    }
}

impl View for AddressInfo<Vec<u8>> {
    type V = AddressInfo<Seq<u8>>;

    open spec fn view(&self) -> AddressInfo<Seq<u8>> {
        match *self {
            AddressInfo::AccessPointIp(t) => AddressInfo::AccessPointIp(t@),
            AddressInfo::AccessPointIpV6Ll => AddressInfo::AccessPointIpV6Ll,
            AddressInfo::AccessPointIpV6Gl => AddressInfo::AccessPointIpV6Gl,
            AddressInfo::AccessPointMac(t) => AddressInfo::AccessPointMac(t@),
            AddressInfo::StationIp(t) => AddressInfo::StationIp(t@),
            AddressInfo::StationIpV6Ll => AddressInfo::StationIpV6Ll,
            AddressInfo::StationIpV6Gl => AddressInfo::StationIpV6Gl,
            AddressInfo::StationMac(t) => AddressInfo::StationMac(t@),
            AddressInfo::EthIp => AddressInfo::EthIp,
            AddressInfo::EthIpV6Ll => AddressInfo::EthIpV6Ll,
            AddressInfo::EthIpV6Gl => AddressInfo::EthIpV6Gl,
            AddressInfo::EthMac => AddressInfo::EthMac,
        }
    }
}

impl View for AtReply<Vec<u8>> {
    type V = AtReply<Seq<u8>>;

    open spec fn view(&self) -> AtReply<Seq<u8>> {
        match *self {
            AtReply::Empty => AtReply::Empty,
            AtReply::Okay => AtReply::Okay,
            AtReply::Error => AtReply::Error,
            AtReply::WifiConnected => AtReply::WifiConnected,
            AtReply::WifiGotIp => AtReply::WifiGotIp,
            AtReply::CwState(state) => AtReply::CwState(state),
            AtReply::IpSta(sta) => AtReply::IpSta(sta@),
            AtReply::CIpState(state) => AtReply::CIpState(state@),
            AtReply::CWLAP(ap) => AtReply::CWLAP(ap@),
            AtReply::SendOk => AtReply::SendOk,
            AtReply::IpData(data) => AtReply::IpData(data@),
            AtReply::CIFSR(info) => AtReply::CIFSR(info@),
        }
    }
}

/// The texts of the dialogue hold plain characters only.
proof fn lemma_texts_are_plain()
    ensures
        is_ascii("+"),
        is_ascii("ERROR"),
        is_ascii("IPD,"),
        is_ascii("CWSTATE:"),
        is_ascii("CIPSTATE:"),
        is_ascii("CWLAP:"),
        is_ascii("CIPSTA:"),
        is_ascii("CIFSR:"),
        is_ascii("0"),
        is_ascii("1"),
        is_ascii("2"),
        is_ascii("3"),
        is_ascii("4"),
        is_ascii("5"),
        is_ascii("6"),
        is_ascii("7"),
        is_ascii("8"),
        is_ascii("ip"),
        is_ascii("gateway"),
        is_ascii("netmask"),
        is_ascii("ip6ll"),
        is_ascii("ip6gl"),
        is_ascii("APIP"),
        is_ascii("APIP6LL"),
        is_ascii("APIP6GL"),
        is_ascii("APMAC"),
        is_ascii("STAIP"),
        is_ascii("STAIP6LL"),
        is_ascii("STAIP6GL"),
        is_ascii("STAMAC"),
        is_ascii("ETHIP"),
        is_ascii("ETHIP6LL"),
        is_ascii("ETHIP6GL"),
        is_ascii("ETHMAC"),
        is_ascii("OK"),
        is_ascii("SEND OK"),
        is_ascii("SEND ERROR"),
        is_ascii("WIFI CONNECTED"),
        is_ascii("WIFI GOT IP"),
{
    reveal_strlit("+");
    reveal_strlit("ERROR");
    reveal_strlit("IPD,");
    reveal_strlit("CWSTATE:");
    reveal_strlit("CIPSTATE:");
    reveal_strlit("CWLAP:");
    reveal_strlit("CIPSTA:");
    reveal_strlit("CIFSR:");
    reveal_strlit("0");
    reveal_strlit("1");
    reveal_strlit("2");
    reveal_strlit("3");
    reveal_strlit("4");
    reveal_strlit("5");
    reveal_strlit("6");
    reveal_strlit("7");
    reveal_strlit("8");
    reveal_strlit("ip");
    reveal_strlit("gateway");
    reveal_strlit("netmask");
    reveal_strlit("ip6ll");
    reveal_strlit("ip6gl");
    reveal_strlit("APIP");
    reveal_strlit("APIP6LL");
    reveal_strlit("APIP6GL");
    reveal_strlit("APMAC");
    reveal_strlit("STAIP");
    reveal_strlit("STAIP6LL");
    reveal_strlit("STAIP6GL");
    reveal_strlit("STAMAC");
    reveal_strlit("ETHIP");
    reveal_strlit("ETHIP6LL");
    reveal_strlit("ETHIP6GL");
    reveal_strlit("ETHMAC");
    reveal_strlit("OK");
    reveal_strlit("SEND OK");
    reveal_strlit("SEND ERROR");
    reveal_strlit("WIFI CONNECTED");
    reveal_strlit("WIFI GOT IP");
}

/// The state of the link that a code stands for.
pub open spec fn spec_cw_state(code: Seq<u8>) -> Option<CwState> {
    if code == text("0"@) {
        Some(CwState::Idle)
    } else if code == text("1"@) {
        Some(CwState::ConnectedWithoutIpAddress)
    } else if code == text("2"@) {
        Some(CwState::Connected)
    } else if code == text("3"@) {
        Some(CwState::Connecting)
    } else if code == text("4"@) {
        Some(CwState::Disconnected)
    } else {
        None
    }
}

/// The protection that a code stands for.
pub open spec fn spec_encryption(code: Seq<u8>) -> Option<AccessPointEncryption> {
    if code == text("0"@) {
        Some(AccessPointEncryption::Open)
    } else if code == text("1"@) {
        Some(AccessPointEncryption::Wep)
    } else if code == text("2"@) {
        Some(AccessPointEncryption::WpaPsk)
    } else if code == text("3"@) {
        Some(AccessPointEncryption::Wpa2Psk)
    } else if code == text("4"@) {
        Some(AccessPointEncryption::WpaWpa2Psk)
    } else if code == text("5"@) {
        Some(AccessPointEncryption::Wpa2Enterprise)
    } else if code == text("6"@) {
        Some(AccessPointEncryption::Wpa3Psk)
    } else if code == text("7"@) {
        Some(AccessPointEncryption::WapiPsk)
    } else if code == text("8"@) {
        Some(AccessPointEncryption::Owe)
    } else {
        None
    }
}

/// The reply that announces data: the number of the link, a comma, the
/// count of bytes, a colon and nothing more, the count being that of the
/// bytes received, which fit a message.
pub open spec fn spec_parse_ipd(args: Seq<u8>, data: Seq<u8>) -> AtReply<Seq<u8>> {
    match spec_split_once(args, ',' as u8) {
        None => AtReply::Empty,
        Some(first) => match spec_split_once(first.1, ':' as u8) {
            None => AtReply::Empty,
            Some(second) => match spec_number(first.0, u8::MAX as int) {
                None => AtReply::Empty,
                Some(link_id) => match spec_number(second.0, u16::MAX as int) {
                    None => AtReply::Empty,
                    Some(length) => if second.1.len() == 0 && length == data.len() && data.len()
                        <= MAX_NETWORK_BUFFER_SIZE {
                        AtReply::IpData(
                            IpData { link_id: link_id as u8, length: length as u16, data },
                        )
                    } else {
                        AtReply::Empty
                    },
                },
            },
        },
    }
}

/// The reply that tells the state of the link: its code, up to a comma
/// if there is one.
pub open spec fn spec_parse_cwstate(args: Seq<u8>) -> AtReply<Seq<u8>> {
    let code = match spec_split_once(args, ',' as u8) {
        Some(parts) => parts.0,
        None => args,
    };
    match spec_cw_state(code) {
        Some(state) => AtReply::CwState(state),
        None => AtReply::Empty,
    }
}

/// The reply that lists a connection: the number of the link, its type
/// and the remote address, each followed by a comma.
pub open spec fn spec_parse_cipstate(args: Seq<u8>) -> AtReply<Seq<u8>> {
    match spec_split_once(args, ',' as u8) {
        None => AtReply::Empty,
        Some(first) => match spec_split_once(first.1, ',' as u8) {
            None => AtReply::Empty,
            Some(second) => match spec_split_once(second.1, ',' as u8) {
                None => AtReply::Empty,
                Some(third) => match spec_number(first.0, u8::MAX as int) {
                    None => AtReply::Empty,
                    Some(link_id) => if second.0.len() <= ADDRESS_TEXT_SIZE && third.0.len()
                        <= ADDRESS_TEXT_SIZE {
                        AtReply::CIpState(
                            ConnectionIpState {
                                link_id: link_id as u8,
                                link_type: second.0,
                                remote_ip: third.0,
                            },
                        )
                    } else {
                        AtReply::Empty
                    },
                },
            },
        },
    }
}

/// The reply that lists an access point: the code of its protection, its
/// name and its signal strength, each followed by a comma.
pub open spec fn spec_parse_cwlap(args: Seq<u8>) -> AtReply<Seq<u8>> {
    match spec_split_once(args, ',' as u8) {
        None => AtReply::Empty,
        Some(first) => match spec_split_once(first.1, ',' as u8) {
            None => AtReply::Empty,
            Some(second) => match spec_split_once(second.1, ',' as u8) {
                None => AtReply::Empty,
                Some(third) => match spec_encryption(first.0) {
                    None => AtReply::Empty,
                    Some(encryption) => match spec_number(third.0, u16::MAX as int) {
                        None => AtReply::Empty,
                        Some(rssi) => if second.0.len() <= SSID_TEXT_SIZE {
                            AtReply::CWLAP(
                                AccessPointInfo { encryption, ssid: second.0, rssi: rssi as u16 },
                            )
                        } else {
                            AtReply::Empty
                        },
                    },
                },
            },
        },
    }
}

/// The reply that tells a setting of the station's address: its name, a
/// colon and its value.
pub open spec fn spec_parse_cipsta(args: Seq<u8>) -> AtReply<Seq<u8>> {
    match spec_split_once(args, ':' as u8) {
        None => AtReply::Empty,
        Some(parts) => {
            let fits = parts.1.len() <= ADDRESS_TEXT_SIZE;
            if parts.0 == text("ip"@) && fits {
                AtReply::IpSta(IpSta::Ip(parts.1))
            } else if parts.0 == text("gateway"@) && fits {
                AtReply::IpSta(IpSta::Gateway(parts.1))
            } else if parts.0 == text("netmask"@) && fits {
                AtReply::IpSta(IpSta::Netmask(parts.1))
            } else if parts.0 == text("ip6ll"@) {
                AtReply::IpSta(IpSta::Ip6Ll)
            } else if parts.0 == text("ip6gl"@) {
                AtReply::IpSta(IpSta::Ip6Gl)
            } else {
                AtReply::Empty
            }
        },
    }
}

/// The reply that tells one of the module's own addresses: its name, a
/// comma and its value.
pub open spec fn spec_parse_cifsr(args: Seq<u8>) -> AtReply<Seq<u8>> {
    match spec_split_once(args, ',' as u8) {
        None => AtReply::Empty,
        Some(parts) => {
            if parts.0 == text("APIP"@) {
                if parts.1.len() <= ADDRESS_TEXT_SIZE {
                    AtReply::CIFSR(AddressInfo::AccessPointIp(parts.1))
                } else {
                    AtReply::Empty
                }
            } else if parts.0 == text("APIP6LL"@) {
                AtReply::CIFSR(AddressInfo::AccessPointIpV6Ll)
            } else if parts.0 == text("APIP6GL"@) {
                AtReply::CIFSR(AddressInfo::AccessPointIpV6Gl)
            } else if parts.0 == text("APMAC"@) {
                if parts.1.len() <= MAC_TEXT_SIZE {
                    AtReply::CIFSR(AddressInfo::AccessPointMac(parts.1))
                } else {
                    AtReply::Empty
                }
            } else if parts.0 == text("STAIP"@) {
                if parts.1.len() <= ADDRESS_TEXT_SIZE {
                    AtReply::CIFSR(AddressInfo::StationIp(parts.1))
                } else {
                    AtReply::Empty
                }
            } else if parts.0 == text("STAIP6LL"@) {
                AtReply::CIFSR(AddressInfo::StationIpV6Ll)
            } else if parts.0 == text("STAIP6GL"@) {
                AtReply::CIFSR(AddressInfo::StationIpV6Gl)
            } else if parts.0 == text("STAMAC"@) {
                if parts.1.len() <= MAC_TEXT_SIZE {
                    AtReply::CIFSR(AddressInfo::StationMac(parts.1))
                } else {
                    AtReply::Empty
                }
            } else if parts.0 == text("ETHIP"@) {
                AtReply::CIFSR(AddressInfo::EthIp)
            } else if parts.0 == text("ETHIP6LL"@) {
                AtReply::CIFSR(AddressInfo::EthIpV6Ll)
            } else if parts.0 == text("ETHIP6GL"@) {
                AtReply::CIFSR(AddressInfo::EthIpV6Gl)
            } else if parts.0 == text("ETHMAC"@) {
                AtReply::CIFSR(AddressInfo::EthMac)
            } else {
                AtReply::Empty
            }
        },
    }
}

/// The reply that a line after its plus sign stands for, by the tag that
/// it begins with.
pub open spec fn spec_parse_tagged(line: Seq<u8>, data: Seq<u8>) -> AtReply<Seq<u8>> {
    if spec_strip_prefix(line, text("IPD,"@)) is Some {
        spec_parse_ipd(spec_strip_prefix(line, text("IPD,"@))->Some_0, data)
    } else if spec_strip_prefix(line, text("CWSTATE:"@)) is Some {
        spec_parse_cwstate(spec_strip_prefix(line, text("CWSTATE:"@))->Some_0)
    } else if spec_strip_prefix(line, text("CIPSTATE:"@)) is Some {
        spec_parse_cipstate(spec_strip_prefix(line, text("CIPSTATE:"@))->Some_0)
    } else if spec_strip_prefix(line, text("CWLAP:"@)) is Some {
        spec_parse_cwlap(spec_strip_prefix(line, text("CWLAP:"@))->Some_0)
    } else if spec_strip_prefix(line, text("CIPSTA:"@)) is Some {
        spec_parse_cipsta(spec_strip_prefix(line, text("CIPSTA:"@))->Some_0)
    } else if spec_strip_prefix(line, text("CIFSR:"@)) is Some {
        spec_parse_cifsr(spec_strip_prefix(line, text("CIFSR:"@))->Some_0)
    } else {
        AtReply::Empty
    }
}

/// The reply that a line without a plus sign stands for.
pub open spec fn spec_parse_plain(line: Seq<u8>) -> AtReply<Seq<u8>> {
    if line == text("OK"@) {
        AtReply::Okay
    } else if line == text("SEND OK"@) {
        AtReply::SendOk
    } else if line == text("SEND ERROR"@) {
        AtReply::Error
    } else if line == text("WIFI CONNECTED"@) {
        AtReply::WifiConnected
    } else if line == text("WIFI GOT IP"@) {
        AtReply::WifiGotIp
    } else if spec_starts_with(line, text("ERROR"@)) {
        AtReply::Error
    } else {
        AtReply::Empty
    }
}

/// The reply that a line of the module stands for, `data` being the bytes
/// received after it. A line that is not understood stands for the empty
/// reply.
pub open spec fn spec_parse(line: Seq<u8>, data: Seq<u8>) -> AtReply<Seq<u8>> {
    if line.len() == 0 {
        AtReply::Empty
    } else if spec_strip_prefix(line, text("+"@)) is Some {
        spec_parse_tagged(spec_strip_prefix(line, text("+"@))->Some_0, data)
    } else {
        spec_parse_plain(line)
    }
}

/// The state of the link that a code stands for.
fn cw_state(code: &[u8]) -> (state: Option<CwState>)
    ensures
        state == spec_cw_state(code@),
{
    proof {
        lemma_texts_are_plain();
    }
    if equals(code, "0") {
        Some(CwState::Idle)
    } else if equals(code, "1") {
        Some(CwState::ConnectedWithoutIpAddress)
    } else if equals(code, "2") {
        Some(CwState::Connected)
    } else if equals(code, "3") {
        Some(CwState::Connecting)
    } else if equals(code, "4") {
        Some(CwState::Disconnected)
    } else {
        None
    }
}

/// The protection that a code stands for.
fn encryption(code: &[u8]) -> (encryption: Option<AccessPointEncryption>)
    ensures
        encryption == spec_encryption(code@),
{
    proof {
        lemma_texts_are_plain();
    }
    if equals(code, "0") {
        Some(AccessPointEncryption::Open)
    } else if equals(code, "1") {
        Some(AccessPointEncryption::Wep)
    } else if equals(code, "2") {
        Some(AccessPointEncryption::WpaPsk)
    } else if equals(code, "3") {
        Some(AccessPointEncryption::Wpa2Psk)
    } else if equals(code, "4") {
        Some(AccessPointEncryption::WpaWpa2Psk)
    } else if equals(code, "5") {
        Some(AccessPointEncryption::Wpa2Enterprise)
    } else if equals(code, "6") {
        Some(AccessPointEncryption::Wpa3Psk)
    } else if equals(code, "7") {
        Some(AccessPointEncryption::WapiPsk)
    } else if equals(code, "8") {
        Some(AccessPointEncryption::Owe)
    } else {
        None
    }
}

fn parse_ipd(args: &[u8], data: &[u8]) -> (reply: AtReply<Vec<u8>>)
    ensures
        reply@ == spec_parse_ipd(args@, data@),
{
    let first = match split_once(args, ',' as u8) {
        Some(parts) => parts,
        None => return AtReply::Empty,
    };
    let second = match split_once(first.1, ':' as u8) {
        Some(parts) => parts,
        None => return AtReply::Empty,
    };
    let link_id = match number(first.0, u8::MAX as u32) {
        Some(value) => value,
        None => return AtReply::Empty,
    };
    let length = match number(second.0, u16::MAX as u32) {
        Some(value) => value,
        None => return AtReply::Empty,
    };
    if second.1.len() == 0 && length as usize == data.len() && data.len()
        <= MAX_NETWORK_BUFFER_SIZE {
        AtReply::IpData(
            IpData { link_id: link_id as u8, length: length as u16, data: copy_bytes(data) },
        )
    } else {
        AtReply::Empty
    }
}

fn parse_cwstate(args: &[u8]) -> (reply: AtReply<Vec<u8>>)
    ensures
        reply@ == spec_parse_cwstate(args@),
{
    let code = match split_once(args, ',' as u8) {
        Some(parts) => parts.0,
        None => args,
    };
    match cw_state(code) {
        Some(state) => AtReply::CwState(state),
        None => AtReply::Empty,
    }
}

fn parse_cipstate(args: &[u8]) -> (reply: AtReply<Vec<u8>>)
    ensures
        reply@ == spec_parse_cipstate(args@),
{
    let first = match split_once(args, ',' as u8) {
        Some(parts) => parts,
        None => return AtReply::Empty,
    };
    let second = match split_once(first.1, ',' as u8) {
        Some(parts) => parts,
        None => return AtReply::Empty,
    };
    let third = match split_once(second.1, ',' as u8) {
        Some(parts) => parts,
        None => return AtReply::Empty,
    };
    let link_id = match number(first.0, u8::MAX as u32) {
        Some(value) => value,
        None => return AtReply::Empty,
    };
    if second.0.len() <= ADDRESS_TEXT_SIZE && third.0.len() <= ADDRESS_TEXT_SIZE {
        AtReply::CIpState(
            ConnectionIpState {
                link_id: link_id as u8,
                link_type: copy_bytes(second.0),
                remote_ip: copy_bytes(third.0),
            },
        )
    } else {
        AtReply::Empty
    }
}

fn parse_cwlap(args: &[u8]) -> (reply: AtReply<Vec<u8>>)
    ensures
        reply@ == spec_parse_cwlap(args@),
{
    let first = match split_once(args, ',' as u8) {
        Some(parts) => parts,
        None => return AtReply::Empty,
    };
    let second = match split_once(first.1, ',' as u8) {
        Some(parts) => parts,
        None => return AtReply::Empty,
    };
    let third = match split_once(second.1, ',' as u8) {
        Some(parts) => parts,
        None => return AtReply::Empty,
    };
    let encryption = match encryption(first.0) {
        Some(value) => value,
        None => return AtReply::Empty,
    };
    let rssi = match number(third.0, u16::MAX as u32) {
        Some(value) => value,
        None => return AtReply::Empty,
    };
    if second.0.len() <= SSID_TEXT_SIZE {
        AtReply::CWLAP(
            AccessPointInfo { encryption, ssid: copy_bytes(second.0), rssi: rssi as u16 },
        )
    } else {
        AtReply::Empty
    }
}

fn parse_cipsta(args: &[u8]) -> (reply: AtReply<Vec<u8>>)
    ensures
        reply@ == spec_parse_cipsta(args@),
{
    proof {
        lemma_texts_are_plain();
    }
    let parts = match split_once(args, ':' as u8) {
        Some(parts) => parts,
        None => return AtReply::Empty,
    };
    let fits = parts.1.len() <= ADDRESS_TEXT_SIZE;
    if equals(parts.0, "ip") && fits {
        AtReply::IpSta(IpSta::Ip(copy_bytes(parts.1)))
    } else if equals(parts.0, "gateway") && fits {
        AtReply::IpSta(IpSta::Gateway(copy_bytes(parts.1)))
    } else if equals(parts.0, "netmask") && fits {
        AtReply::IpSta(IpSta::Netmask(copy_bytes(parts.1)))
    } else if equals(parts.0, "ip6ll") {
        AtReply::IpSta(IpSta::Ip6Ll)
    } else if equals(parts.0, "ip6gl") {
        AtReply::IpSta(IpSta::Ip6Gl)
    } else {
        AtReply::Empty
    }
}

fn parse_cifsr(args: &[u8]) -> (reply: AtReply<Vec<u8>>)
    ensures
        reply@ == spec_parse_cifsr(args@),
{
    proof {
        lemma_texts_are_plain();
    }
    let parts = match split_once(args, ',' as u8) {
        Some(parts) => parts,
        None => return AtReply::Empty,
    };
    if equals(parts.0, "APIP") {
        if parts.1.len() <= ADDRESS_TEXT_SIZE {
            AtReply::CIFSR(AddressInfo::AccessPointIp(copy_bytes(parts.1)))
        } else {
            AtReply::Empty
        }
    } else if equals(parts.0, "APIP6LL") {
        AtReply::CIFSR(AddressInfo::AccessPointIpV6Ll)
    } else if equals(parts.0, "APIP6GL") {
        AtReply::CIFSR(AddressInfo::AccessPointIpV6Gl)
    } else if equals(parts.0, "APMAC") {
        if parts.1.len() <= MAC_TEXT_SIZE {
            AtReply::CIFSR(AddressInfo::AccessPointMac(copy_bytes(parts.1)))
        } else {
            AtReply::Empty
        }
    } else if equals(parts.0, "STAIP") {
        if parts.1.len() <= ADDRESS_TEXT_SIZE {
            AtReply::CIFSR(AddressInfo::StationIp(copy_bytes(parts.1)))
        } else {
            AtReply::Empty
        }
    } else if equals(parts.0, "STAIP6LL") {
        AtReply::CIFSR(AddressInfo::StationIpV6Ll)
    } else if equals(parts.0, "STAIP6GL") {
        AtReply::CIFSR(AddressInfo::StationIpV6Gl)
    } else if equals(parts.0, "STAMAC") {
        if parts.1.len() <= MAC_TEXT_SIZE {
            AtReply::CIFSR(AddressInfo::StationMac(copy_bytes(parts.1)))
        } else {
            AtReply::Empty
        }
    } else if equals(parts.0, "ETHIP") {
        AtReply::CIFSR(AddressInfo::EthIp)
    } else if equals(parts.0, "ETHIP6LL") {
        AtReply::CIFSR(AddressInfo::EthIpV6Ll)
    } else if equals(parts.0, "ETHIP6GL") {
        AtReply::CIFSR(AddressInfo::EthIpV6Gl)
    } else if equals(parts.0, "ETHMAC") {
        AtReply::CIFSR(AddressInfo::EthMac)
    } else {
        AtReply::Empty
    }
}

fn parse_tagged(line: &[u8], data: &[u8]) -> (reply: AtReply<Vec<u8>>)
    ensures
        reply@ == spec_parse_tagged(line@, data@),
{
    proof {
        lemma_texts_are_plain();
    }
    if let Some(args) = strip_prefix(line, "IPD,") {
        parse_ipd(args, data)
    } else if let Some(args) = strip_prefix(line, "CWSTATE:") {
        parse_cwstate(args)
    } else if let Some(args) = strip_prefix(line, "CIPSTATE:") {
        parse_cipstate(args)
    } else if let Some(args) = strip_prefix(line, "CWLAP:") {
        parse_cwlap(args)
    } else if let Some(args) = strip_prefix(line, "CIPSTA:") {
        parse_cipsta(args)
    } else if let Some(args) = strip_prefix(line, "CIFSR:") {
        parse_cifsr(args)
    } else {
        AtReply::Empty
    }
}

fn parse_plain(line: &[u8]) -> (reply: AtReply<Vec<u8>>)
    ensures
        reply@ == spec_parse_plain(line@),
{
    proof {
        lemma_texts_are_plain();
    }
    if equals(line, "OK") {
        AtReply::Okay
    } else if equals(line, "SEND OK") {
        AtReply::SendOk
    } else if equals(line, "SEND ERROR") {
        AtReply::Error
    } else if equals(line, "WIFI CONNECTED") {
        AtReply::WifiConnected
    } else if equals(line, "WIFI GOT IP") {
        AtReply::WifiGotIp
    } else if strip_prefix(line, "ERROR").is_some() {
        AtReply::Error
    } else {
        AtReply::Empty
    }
}

impl AtReply<Vec<u8>> {
    /// Reads a line of the module, `d` being the bytes received after it.
    pub fn parse(s: &[u8], d: &[u8]) -> (reply: AtReply<Vec<u8>>)
        ensures
            reply@ == spec_parse(s@, d@),
    {
        proof {
            lemma_texts_are_plain();
        }
        if s.len() == 0 {
            AtReply::Empty
        } else if let Some(rest) = strip_prefix(s, "+") {
            parse_tagged(rest, d)
        } else {
            parse_plain(s)
        }
    }
}

/// The port that the server listens on.
pub const SERVER_PORT: u16 = 3333;

/// Seconds between two tries to join the network again.
pub const RECONNECT_INTERVAL: u32 = 5;

/// Number of tries to join the network again.
pub const RECONNECT_REPEAT: usize = 10;

/// Microseconds that most commands are given to be answered.
pub const COMMAND_TIMEOUT_MICROS: u64 = 4_000_000;

/// Microseconds that sending data, and the first command, are given.
pub const SEND_TIMEOUT_MICROS: u64 = 5_000_000;

/// Microseconds that joining or listing networks is given.
pub const SCAN_TIMEOUT_MICROS: u64 = 10_000_000;

/// The mode of the radio.
#[derive(Clone, Copy, Debug, PartialEq, Eq, Structural)]
pub enum CwMode {
    Null,
    Station,
    SoftAp,
    SoftApStation,
}

impl CwMode {
    /// The digit that stands for the mode in a command.
    pub open spec fn spec_as_str(self) -> Seq<char> {
        match self {
            CwMode::Null => "0"@,
            CwMode::Station => "1"@,
            CwMode::SoftAp => "2"@,
            CwMode::SoftApStation => "3"@,
        }
    }

    /// The digit that stands for the mode in a command.
    pub fn as_str(&self) -> (code: &'static str)
        ensures
            code@ == self.spec_as_str(),
    {
        match self {
            CwMode::Null => "0",
            CwMode::Station => "1",
            CwMode::SoftAp => "2",
            CwMode::SoftApStation => "3",
        }
    }
}

/// How received data is handed over.
#[derive(Clone, Copy, Debug, PartialEq, Eq, Structural)]
pub enum CIpRecvMode {
    Active,
    Passive,
}

impl CIpRecvMode {
    /// The digit that stands for the mode in a command.
    pub open spec fn spec_as_str(self) -> Seq<char> {
        match self {
            CIpRecvMode::Active => "0"@,
            CIpRecvMode::Passive => "1"@,
        }
    }

    /// The digit that stands for the mode in a command.
    pub fn as_str(&self) -> (code: &'static str)
        ensures
            code@ == self.spec_as_str(),
    {
        match self {
            CIpRecvMode::Active => "0",
            CIpRecvMode::Passive => "1",
        }
    }
}

/// A command to the module.
#[derive(Clone, Debug, PartialEq, Eq)]
pub enum AtCommand<T> {
    At,
    AtRst,
    AtRfPower,
    AtCwMode(CwMode),
    AtCIpRecvMode(CIpRecvMode),
    AtCwJap { ssid: T, secret: T },
    ATCwReConnCfg { interval: u32, repeat: usize },
    AtCwLap,
    AtCwAutoConn(bool),
    AtCwState,
    AtCwHostname(T),
    AtCIpState,
    AtCIpSend { link_id: u8, data: T },
    AtCIFSR,
    AtCIpMux(bool),
    AtCIpServCreate(u16),
    AtCIpServShutdown(bool),
    AtCIpServMaxConn(u8),
    AtCIpServTimeout(u16),
    AtCIpDInfo(bool),
    ATCIpTcpOpt {
        link_id: u8,
        so_linger: Option<u16>,
        tcp_nodelay: bool,
        so_sndtimeo: u16,
        keep_alive: u16,
    },
}

impl View for AtCommand<Vec<u8>> {
    type V = AtCommand<Seq<u8>>;

    open spec fn view(&self) -> AtCommand<Seq<u8>> {
        match *self {
            AtCommand::At => AtCommand::At,
            AtCommand::AtRst => AtCommand::AtRst,
            AtCommand::AtRfPower => AtCommand::AtRfPower,
            AtCommand::AtCwMode(mode) => AtCommand::AtCwMode(mode),
            AtCommand::AtCIpRecvMode(mode) => AtCommand::AtCIpRecvMode(mode),
            AtCommand::AtCwJap { ssid, secret } => AtCommand::AtCwJap {
                ssid: ssid@,
                secret: secret@,
            },
            AtCommand::ATCwReConnCfg { interval, repeat } => AtCommand::ATCwReConnCfg {
                interval,
                repeat,
            },
            AtCommand::AtCwLap => AtCommand::AtCwLap,
            AtCommand::AtCwAutoConn(on) => AtCommand::AtCwAutoConn(on),
            AtCommand::AtCwState => AtCommand::AtCwState,
            AtCommand::AtCwHostname(name) => AtCommand::AtCwHostname(name@),
            AtCommand::AtCIpState => AtCommand::AtCIpState,
            AtCommand::AtCIpSend { link_id, data } => AtCommand::AtCIpSend { link_id, data: data@ },
            AtCommand::AtCIFSR => AtCommand::AtCIFSR,
            AtCommand::AtCIpMux(on) => AtCommand::AtCIpMux(on),
            AtCommand::AtCIpServCreate(port) => AtCommand::AtCIpServCreate(port),
            AtCommand::AtCIpServShutdown(all) => AtCommand::AtCIpServShutdown(all),
            AtCommand::AtCIpServMaxConn(max) => AtCommand::AtCIpServMaxConn(max),
            AtCommand::AtCIpServTimeout(timeout) => AtCommand::AtCIpServTimeout(timeout),
            AtCommand::AtCIpDInfo(show) => AtCommand::AtCIpDInfo(show),
            AtCommand::ATCIpTcpOpt {
                link_id,
                so_linger,
                tcp_nodelay,
                so_sndtimeo,
                keep_alive,
            } => AtCommand::ATCIpTcpOpt { link_id, so_linger, tcp_nodelay, so_sndtimeo, keep_alive },
        }
    }
}

/// The status that the dialogue falls back to when a command is not
/// answered in time.
#[derive(Clone, Copy, Debug, PartialEq, Eq, Structural)]
pub enum RequiredNetworkStatus {
    Initial,
    NeedsRescan,
}

/// Whether a connection is open, and how far its setting up has come.
#[derive(Clone, Copy, Debug, PartialEq, Eq, Structural)]
pub enum ConnectionStatus {
    Closed,
    SettingVerbosity,
    SettingIpOptions,
    Open,
}

/// One of the connections that the module serves.
#[derive(Clone, Copy, Debug, PartialEq, Eq, Structural)]
pub struct ConnectionInfo {
    pub id: u8,
    pub status: ConnectionStatus,
}

/// Where the dialogue with the module stands.
#[derive(Clone, Debug, PartialEq, Eq)]
pub enum NetworkStatus<T> {
    Initial,
    Checking,
    SettingPower,
    SettingMode,
    SettingRecvMode,
    SettingReconnection,
    SettingAutoconnect,
    CheckingState,
    WaitingReconnection,
    ListingAp,
    JoiningAp { connected: bool, has_ip: bool },
    GettingIpAddress,
    SettingHostName,
    SettingMux,
    CreatingServer,
    SettingServerMaxConn,
    SettingConnectionVerbosity { link_id: u8 },
    SettingConnectionIpOptions { link_id: u8 },
    SendingData { link_id: u8, data: T },
    Ready,
    NeedsReset,
    NeedsRescan,
    NeedsStateCheck,
    Resetting,
}

impl View for NetworkStatus<Vec<u8>> {
    type V = NetworkStatus<Seq<u8>>;

    open spec fn view(&self) -> NetworkStatus<Seq<u8>> {
        match *self {
            NetworkStatus::Initial => NetworkStatus::Initial,
            NetworkStatus::Checking => NetworkStatus::Checking,
            NetworkStatus::SettingPower => NetworkStatus::SettingPower,
            NetworkStatus::SettingMode => NetworkStatus::SettingMode,
            NetworkStatus::SettingRecvMode => NetworkStatus::SettingRecvMode,
            NetworkStatus::SettingReconnection => NetworkStatus::SettingReconnection,
            NetworkStatus::SettingAutoconnect => NetworkStatus::SettingAutoconnect,
            NetworkStatus::CheckingState => NetworkStatus::CheckingState,
            NetworkStatus::WaitingReconnection => NetworkStatus::WaitingReconnection,
            NetworkStatus::ListingAp => NetworkStatus::ListingAp,
            NetworkStatus::JoiningAp { connected, has_ip } => NetworkStatus::JoiningAp {
                connected,
                has_ip,
            },
            NetworkStatus::GettingIpAddress => NetworkStatus::GettingIpAddress,
            NetworkStatus::SettingHostName => NetworkStatus::SettingHostName,
            NetworkStatus::SettingMux => NetworkStatus::SettingMux,
            NetworkStatus::CreatingServer => NetworkStatus::CreatingServer,
            NetworkStatus::SettingServerMaxConn => NetworkStatus::SettingServerMaxConn,
            NetworkStatus::SettingConnectionVerbosity { link_id } => {
                NetworkStatus::SettingConnectionVerbosity { link_id }
            },
            NetworkStatus::SettingConnectionIpOptions { link_id } => {
                NetworkStatus::SettingConnectionIpOptions { link_id }
            },
            NetworkStatus::SendingData { link_id, data } => NetworkStatus::SendingData {
                link_id,
                data: data@,
            },
            NetworkStatus::Ready => NetworkStatus::Ready,
            NetworkStatus::NeedsReset => NetworkStatus::NeedsReset,
            NetworkStatus::NeedsRescan => NetworkStatus::NeedsRescan,
            NetworkStatus::NeedsStateCheck => NetworkStatus::NeedsStateCheck,
            NetworkStatus::Resetting => NetworkStatus::Resetting,
        }
    }
}

impl RequiredNetworkStatus {
    /// The status of the dialogue that this stands for.
    pub fn status(&self) -> (status: NetworkStatus<Vec<u8>>)
        ensures
            status@ == match *self {
                RequiredNetworkStatus::Initial => NetworkStatus::<Seq<u8>>::Initial,
                RequiredNetworkStatus::NeedsRescan => NetworkStatus::<Seq<u8>>::NeedsRescan,
            },
    {
        match self {
            RequiredNetworkStatus::Initial => NetworkStatus::Initial,
            RequiredNetworkStatus::NeedsRescan => NetworkStatus::NeedsRescan,
        }
    }
}

impl<T> NetworkStatus<T> {
    /// The name of the status in the log.
    pub open spec fn spec_description(self) -> Seq<char> {
        match self {
            NetworkStatus::Initial => "INITIAL"@,
            NetworkStatus::Checking => "CHECKING"@,
            NetworkStatus::SettingPower => "SETTING-POWER"@,
            NetworkStatus::SettingMode => "SETTING-MODE"@,
            NetworkStatus::SettingRecvMode => "SETTING-RECV-MODE"@,
            NetworkStatus::SettingReconnection => "SETTING-RECONNECTION"@,
            NetworkStatus::SettingAutoconnect => "SETTING-AUTOCONNECT"@,
            NetworkStatus::CheckingState => "CHECKING-STATE"@,
            NetworkStatus::WaitingReconnection => "WAITING-CONNECTION"@,
            NetworkStatus::ListingAp => "LISTING-AP"@,
            NetworkStatus::JoiningAp { .. } => "JOINING-AP"@,
            NetworkStatus::GettingIpAddress => "GETTING-IP-ADDRESS"@,
            NetworkStatus::SettingHostName => "SETTING-HOST-NAME"@,
            NetworkStatus::SettingMux => "SETTING-MUX"@,
            NetworkStatus::CreatingServer => "CREATING-SERVER"@,
            NetworkStatus::SettingServerMaxConn => "SETTING-SERVER-MAX-CONN"@,
            NetworkStatus::SettingConnectionVerbosity { .. } => "SETTING-CONNECTION-VERBOSITY"@,
            NetworkStatus::SettingConnectionIpOptions { .. } => "SETTING-CONNECTION-IP-OPTIONS"@,
            NetworkStatus::SendingData { .. } => "SENDING-DATA"@,
            NetworkStatus::Ready => "READY"@,
            NetworkStatus::NeedsReset => "NEEDS-RESET"@,
            NetworkStatus::NeedsRescan => "NEEDS-RESCAN"@,
            NetworkStatus::NeedsStateCheck => "NEEDS-STATE-CHECK"@,
            NetworkStatus::Resetting => "RESETTING"@,
        }
    }

    /// The name of the status in the log.
    pub fn description(&self) -> (name: &'static str)
        ensures
            name@ == self.spec_description(),
    {
        match self {
            NetworkStatus::Initial => "INITIAL",
            NetworkStatus::Checking => "CHECKING",
            NetworkStatus::SettingPower => "SETTING-POWER",
            NetworkStatus::SettingMode => "SETTING-MODE",
            NetworkStatus::SettingRecvMode => "SETTING-RECV-MODE",
            NetworkStatus::SettingReconnection => "SETTING-RECONNECTION",
            NetworkStatus::SettingAutoconnect => "SETTING-AUTOCONNECT",
            NetworkStatus::CheckingState => "CHECKING-STATE",
            NetworkStatus::WaitingReconnection => "WAITING-CONNECTION",
            NetworkStatus::ListingAp => "LISTING-AP",
            NetworkStatus::JoiningAp { .. } => "JOINING-AP",
            NetworkStatus::GettingIpAddress => "GETTING-IP-ADDRESS",
            NetworkStatus::SettingHostName => "SETTING-HOST-NAME",
            NetworkStatus::SettingMux => "SETTING-MUX",
            NetworkStatus::CreatingServer => "CREATING-SERVER",
            NetworkStatus::SettingServerMaxConn => "SETTING-SERVER-MAX-CONN",
            NetworkStatus::SettingConnectionVerbosity { .. } => "SETTING-CONNECTION-VERBOSITY",
            NetworkStatus::SettingConnectionIpOptions { .. } => "SETTING-CONNECTION-IP-OPTIONS",
            NetworkStatus::SendingData { .. } => "SENDING-DATA",
            NetworkStatus::Ready => "READY",
            NetworkStatus::NeedsReset => "NEEDS-RESET",
            NetworkStatus::NeedsRescan => "NEEDS-RESCAN",
            NetworkStatus::NeedsStateCheck => "NEEDS-STATE-CHECK",
            NetworkStatus::Resetting => "RESETTING",
        }
    }
}

impl<T> AtReply<T> {
    /// The name of the reply in the log.
    pub open spec fn spec_description(self) -> Seq<char> {
        match self {
            AtReply::Empty => "EMPTY"@,
            AtReply::Okay => "OK"@,
            AtReply::Error => "ERROR"@,
            AtReply::WifiConnected => "WIFI-CONNECTED"@,
            AtReply::WifiGotIp => "WIFI-GOT_IP"@,
            AtReply::CwState(_) => "CWSTATE"@,
            AtReply::IpSta(_) => "IPSTA"@,
            AtReply::CIpState(_) => "CIPSTATE"@,
            AtReply::CWLAP(_) => "CWLAP"@,
            AtReply::SendOk => "SEND-OK"@,
            AtReply::IpData(_) => "IPDATA"@,
            AtReply::CIFSR(_) => "CIFSR"@,
        }
    }

    /// The name of the reply in the log.
    pub fn description(&self) -> (name: &'static str)
        ensures
            name@ == self.spec_description(),
    {
        match self {
            AtReply::Empty => "EMPTY",
            AtReply::Okay => "OK",
            AtReply::Error => "ERROR",
            AtReply::WifiConnected => "WIFI-CONNECTED",
            AtReply::WifiGotIp => "WIFI-GOT_IP",
            AtReply::CwState(_) => "CWSTATE",
            AtReply::IpSta(_) => "IPSTA",
            AtReply::CIpState(_) => "CIPSTATE",
            AtReply::CWLAP(_) => "CWLAP",
            AtReply::SendOk => "SEND-OK",
            AtReply::IpData(_) => "IPDATA",
            AtReply::CIFSR(_) => "CIFSR",
        }
    }
}

impl<T> AtCommand<T> {
    /// The time, in microseconds, that the command is given to be
    /// answered, and the status to fall back to when it is not.
    pub open spec fn spec_timeout(self) -> (u64, RequiredNetworkStatus) {
        match self {
            AtCommand::AtCwJap { .. } | AtCommand::AtCwLap => (
                SCAN_TIMEOUT_MICROS,
                RequiredNetworkStatus::NeedsRescan,
            ),
            AtCommand::AtCIpSend { .. } => (SEND_TIMEOUT_MICROS, RequiredNetworkStatus::Initial),
            _ => (COMMAND_TIMEOUT_MICROS, RequiredNetworkStatus::Initial),
        }
    }

    /// The time that the command is given to be answered, and the status
    /// to fall back to when it is not.
    pub fn timeout(&self) -> (limit: (Duration, RequiredNetworkStatus))
        ensures
            limit.0.micros == self.spec_timeout().0,
            limit.1 == self.spec_timeout().1,
    {
        match self {
            AtCommand::AtCwJap { .. } | AtCommand::AtCwLap => (
                Duration::from_micros(SCAN_TIMEOUT_MICROS),
                RequiredNetworkStatus::NeedsRescan,
            ),
            AtCommand::AtCIpSend { .. } => (
                Duration::from_micros(SEND_TIMEOUT_MICROS),
                RequiredNetworkStatus::Initial,
            ),
            _ => (Duration::from_micros(COMMAND_TIMEOUT_MICROS), RequiredNetworkStatus::Initial),
        }
    }
}

/// What ends the message that is being received.
#[derive(Clone, Copy, Debug, PartialEq, Eq, Structural)]
pub enum ExpectedTermination {
    Newline,
    Bytes(usize),
}

impl ExpectedTermination {
    /// A message begins with a line.
    pub fn start() -> (expected: ExpectedTermination)
        ensures
            expected == ExpectedTermination::Newline,
    {
        ExpectedTermination::Newline
    }
}

/// The networks that the vehicle may join: two names, each with its secret.
#[derive(Clone, Debug, PartialEq, Eq)]
pub struct KnownNetworks<T> {
    pub ssid1: T,
    pub secret1: T,
    pub ssid2: T,
    pub secret2: T,
}

impl View for KnownNetworks<Vec<u8>> {
    type V = KnownNetworks<Seq<u8>>;

    open spec fn view(&self) -> KnownNetworks<Seq<u8>> {
        KnownNetworks {
            ssid1: self.ssid1@,
            secret1: self.secret1@,
            ssid2: self.ssid2@,
            secret2: self.secret2@,
        }
    }
}

/// The bytes that a text in memory holds, if there is one.
pub open spec fn spec_text_view(text: Option<Vec<u8>>) -> Option<Seq<u8>> {
    match text {
        Some(t) => Some(t@),
        None => None,
    }
}

/// The command, if there is one, with its texts as sequences of bytes.
pub open spec fn spec_command_view(command: Option<AtCommand<Vec<u8>>>) -> Option<
    AtCommand<Seq<u8>>,
> {
    match command {
        Some(c) => Some(c@),
        None => None,
    }
}

/// `arrayvec::ArrayString`, a text of at most `CAP` bytes that lies in
/// place: the line of a message is gathered in one.
#[verifier::external_type_specification]
#[verifier::external_body]
pub struct ExArrayString<const CAP: usize>(ArrayString<CAP>);

/// `arrayvec::ArrayVec`, a vector of at most `CAP` items that lies in
/// place: the data of a message is gathered in one.
#[verifier::external_type_specification]
#[verifier::external_body]
#[verifier::reject_recursive_types(T)]
pub struct ExArrayVec<T, const CAP: usize>(ArrayVec<T, CAP>);

/// The bytes that the line of a message holds.
pub uninterp spec fn spec_line_bytes(line: ArrayString<MAX_NETWORK_BUFFER_SIZE>) -> Seq<u8>;

/// The bytes that the data of a message holds.
pub uninterp spec fn spec_data_bytes(data: ArrayVec<u8, MAX_NETWORK_BUFFER_SIZE>) -> Seq<u8>;

/// `ArrayString::new`: a line that holds nothing.
#[verifier::external_body]
fn line_new() -> (line: ArrayString<MAX_NETWORK_BUFFER_SIZE>)
    ensures
        spec_line_bytes(line) == Seq::<u8>::empty(),
{
    ArrayString::new()
}

/// `ArrayString::push`, with the character whose code is `byte`: the
/// bytes of that character follow those that the line held. It panics
/// where they do not fit, which the caller rules out.
#[verifier::external_body]
fn line_push(line: &mut ArrayString<MAX_NETWORK_BUFFER_SIZE>, byte: u8)
    requires
        spec_line_bytes(*old(line)).len() + spec_char_bytes(byte).len() <= MAX_NETWORK_BUFFER_SIZE,
    ensures
        spec_line_bytes(*final(line)) == spec_line_bytes(*old(line)) + spec_char_bytes(byte),
{
    line.push(byte as char)
}

/// `ArrayString::clear`: the line holds nothing afterwards.
#[verifier::external_body]
fn line_clear(line: &mut ArrayString<MAX_NETWORK_BUFFER_SIZE>)
    ensures
        spec_line_bytes(*final(line)) == Seq::<u8>::empty(),
{
    line.clear()
}

/// `ArrayString::as_str`, read as bytes: the bytes that the line holds.
#[verifier::external_body]
fn line_bytes(line: &ArrayString<MAX_NETWORK_BUFFER_SIZE>) -> (bytes: &[u8])
    ensures
        bytes@ == spec_line_bytes(*line),
{
    line.as_str().as_bytes()
}

/// `ArrayVec::new`: data that holds nothing.
#[verifier::external_body]
fn data_new() -> (data: ArrayVec<u8, MAX_NETWORK_BUFFER_SIZE>)
    ensures
        spec_data_bytes(data) == Seq::<u8>::empty(),
{
    ArrayVec::new()
}

/// `ArrayVec::push`: `byte` follows the bytes that the data held. It
/// panics where the data is full, which the caller rules out.
#[verifier::external_body]
fn data_push(data: &mut ArrayVec<u8, MAX_NETWORK_BUFFER_SIZE>, byte: u8)
    requires
        spec_data_bytes(*old(data)).len() < MAX_NETWORK_BUFFER_SIZE,
    ensures
        spec_data_bytes(*final(data)) == spec_data_bytes(*old(data)).push(byte),
{
    data.push(byte)
}

/// `ArrayVec::as_slice`: the bytes that the data holds.
#[verifier::external_body]
fn data_slice(data: &ArrayVec<u8, MAX_NETWORK_BUFFER_SIZE>) -> (bytes: &[u8])
    ensures
        bytes@ == spec_data_bytes(*data),
{
    data.as_slice()
}

/// All that the dialogue with the module remembers.
pub struct Esp32C3 {
    pub current_ap_ssid: Option<Vec<u8>>,
    pub current_ap_secret: Option<Vec<u8>>,
    pub ip_address: Option<Vec<u8>>,
    pub status: NetworkStatus<Vec<u8>>,
    pub connections: [ConnectionInfo; MAX_CONNECTIONS],
    pub last_received: Option<Vec<u8>>,
    pub current_reply: ArrayString<MAX_NETWORK_BUFFER_SIZE>,
    pub current_data: ArrayVec<u8, MAX_NETWORK_BUFFER_SIZE>,
    pub expected_termination: ExpectedTermination,
    pub command_deadline: Instant,
    pub deadline_status: RequiredNetworkStatus,
}

/// The dialogue as contracts see it.
pub struct Esp32C3View {
    pub current_ap_ssid: Option<Seq<u8>>,
    pub current_ap_secret: Option<Seq<u8>>,
    pub ip_address: Option<Seq<u8>>,
    pub status: NetworkStatus<Seq<u8>>,
    pub connections: Seq<ConnectionInfo>,
    pub last_received: Option<Seq<u8>>,
    pub current_reply: Seq<u8>,
    pub current_data: Seq<u8>,
    pub expected_termination: ExpectedTermination,
    pub command_deadline: Instant,
    pub deadline_status: RequiredNetworkStatus,
}

impl View for Esp32C3 {
    type V = Esp32C3View;

    open spec fn view(&self) -> Esp32C3View {
        Esp32C3View {
            current_ap_ssid: spec_text_view(self.current_ap_ssid),
            current_ap_secret: spec_text_view(self.current_ap_secret),
            ip_address: spec_text_view(self.ip_address),
            status: self.status@,
            connections: self.connections@,
            last_received: spec_text_view(self.last_received),
            current_reply: spec_line_bytes(self.current_reply),
            current_data: spec_data_bytes(self.current_data),
            expected_termination: self.expected_termination,
            command_deadline: self.command_deadline,
            deadline_status: self.deadline_status,
        }
    }
}

/// Four connections, all closed.
pub open spec fn spec_closed_connections() -> Seq<ConnectionInfo> {
    Seq::new(
        MAX_CONNECTIONS as nat,
        |i: int| ConnectionInfo { id: i as u8, status: ConnectionStatus::Closed },
    )
}

/// The first open connection from place `from` on, or the number of
/// connections where none is open.
pub open spec fn spec_first_open(connections: Seq<ConnectionInfo>, from: int) -> int
    decreases MAX_CONNECTIONS - from,
{
    if from < 0 || from >= MAX_CONNECTIONS {
        MAX_CONNECTIONS as int
    } else if connections[from].status == ConnectionStatus::Open {
        from
    } else {
        spec_first_open(connections, from + 1)
    }
}

impl Esp32C3View {
    /// The dialogue with every connection closed and the module to be reset.
    pub open spec fn spec_reset(self) -> Esp32C3View {
        Esp32C3View {
            connections: spec_closed_connections(),
            status: NetworkStatus::NeedsReset,
            ..self
        }
    }

    /// The dialogue with every connection closed and the networks to be
    /// listed anew.
    pub open spec fn spec_rescan(self) -> Esp32C3View {
        Esp32C3View {
            connections: spec_closed_connections(),
            status: NetworkStatus::NeedsRescan,
            ..self
        }
    }

    /// The dialogue with the connection `link_id` closed, if there is such
    /// a connection.
    pub open spec fn spec_close(self, link_id: u8) -> Esp32C3View {
        if link_id < MAX_CONNECTIONS {
            Esp32C3View {
                connections: self.connections.update(
                    link_id as int,
                    ConnectionInfo {
                        status: ConnectionStatus::Closed,
                        ..self.connections[link_id as int]
                    },
                ),
                ..self
            }
        } else {
            self
        }
    }

    /// The step that sends `data` to the first open connection from place
    /// `from` on: the dialogue then waits for that to be done. With no
    /// such connection nothing happens.
    pub open spec fn spec_send_to_next(self, from: int, data: Seq<u8>) -> (
        Esp32C3View,
        Option<AtCommand<Seq<u8>>>,
    ) {
        let id = spec_first_open(self.connections, from);
        if 0 <= from && id < MAX_CONNECTIONS {
            (
                Esp32C3View { status: NetworkStatus::SendingData { link_id: id as u8, data }, ..self },
                Some(AtCommand::AtCIpSend { link_id: id as u8, data }),
            )
        } else {
            (self, None)
        }
    }

    /// The step on the reply that all is well: the setting up moves on by
    /// one command; a join without a network, an address or a link falls
    /// back to listing the networks; data goes on to the next connection.
    pub open spec fn spec_handle_ok(self) -> (Esp32C3View, Option<AtCommand<Seq<u8>>>) {
        match self.status {
            NetworkStatus::Initial => (self, None),
            NetworkStatus::Checking => (
                Esp32C3View { status: NetworkStatus::SettingPower, ..self },
                Some(AtCommand::AtRfPower),
            ),
            NetworkStatus::SettingPower => (
                Esp32C3View { status: NetworkStatus::SettingMode, ..self },
                Some(AtCommand::AtCwMode(CwMode::Station)),
            ),
            NetworkStatus::SettingMode => (
                Esp32C3View { status: NetworkStatus::SettingRecvMode, ..self },
                Some(AtCommand::AtCIpRecvMode(CIpRecvMode::Active)),
            ),
            NetworkStatus::SettingRecvMode => (
                Esp32C3View { status: NetworkStatus::SettingReconnection, ..self },
                Some(AtCommand::ATCwReConnCfg {
                    interval: RECONNECT_INTERVAL,
                    repeat: RECONNECT_REPEAT,
                }),
            ),
            NetworkStatus::SettingReconnection => (
                Esp32C3View { status: NetworkStatus::SettingAutoconnect, ..self },
                Some(AtCommand::AtCwAutoConn(true)),
            ),
            NetworkStatus::SettingAutoconnect => (
                Esp32C3View { status: NetworkStatus::ListingAp, ..self },
                Some(AtCommand::AtCwLap),
            ),
            NetworkStatus::CheckingState => (self.spec_rescan(), None),
            NetworkStatus::WaitingReconnection => (self.spec_rescan(), None),
            NetworkStatus::ListingAp => if self.current_ap_ssid is Some && self.current_ap_secret
                is Some {
                (
                    Esp32C3View {
                        status: NetworkStatus::JoiningAp { connected: false, has_ip: false },
                        ..self
                    },
                    Some(
                        AtCommand::AtCwJap {
                            ssid: self.current_ap_ssid->Some_0,
                            secret: self.current_ap_secret->Some_0,
                        },
                    ),
                )
            } else {
                (self.spec_rescan(), None)
            },
            NetworkStatus::JoiningAp { connected, .. } => if connected {
                (
                    Esp32C3View { status: NetworkStatus::GettingIpAddress, ..self },
                    Some(AtCommand::AtCIFSR),
                )
            } else {
                (self.spec_rescan(), None)
            },
            NetworkStatus::GettingIpAddress => if self.ip_address is Some {
                (
                    Esp32C3View { status: NetworkStatus::SettingHostName, ..self },
                    Some(AtCommand::AtCwHostname(text("countryman"@))),
                )
            } else {
                (self.spec_rescan(), None)
            },
            NetworkStatus::SettingHostName => (
                Esp32C3View { status: NetworkStatus::SettingMux, ..self },
                Some(AtCommand::AtCIpMux(true)),
            ),
            NetworkStatus::SettingMux => (
                Esp32C3View { status: NetworkStatus::SettingServerMaxConn, ..self },
                Some(AtCommand::AtCIpServMaxConn(MAX_CONNECTIONS as u8)),
            ),
            NetworkStatus::CreatingServer => (
                Esp32C3View { status: NetworkStatus::Ready, ..self },
                None,
            ),
            NetworkStatus::SettingServerMaxConn => (
                Esp32C3View { status: NetworkStatus::CreatingServer, ..self },
                Some(AtCommand::AtCIpServCreate(SERVER_PORT)),
            ),
            NetworkStatus::SettingConnectionVerbosity { link_id } => (
                Esp32C3View { status: NetworkStatus::SettingConnectionIpOptions { link_id }, ..self },
                Some(
                    AtCommand::ATCIpTcpOpt {
                        link_id,
                        so_linger: None,
                        tcp_nodelay: false,
                        so_sndtimeo: 0,
                        keep_alive: 0,
                    },
                ),
            ),
            NetworkStatus::SettingConnectionIpOptions { .. } => (
                Esp32C3View { status: NetworkStatus::Ready, ..self },
                None,
            ),
            NetworkStatus::SendingData { link_id, data } => self.spec_send_to_next(
                link_id as int,
                data,
            ),
            NetworkStatus::Ready => (self, None),
            NetworkStatus::NeedsReset => (self, None),
            NetworkStatus::NeedsRescan => (self, None),
            NetworkStatus::NeedsStateCheck => (self, None),
            NetworkStatus::Resetting => (Esp32C3View { status: NetworkStatus::Initial, ..self }, None),
        }
    }

    /// The step on the reply that something failed: while setting up the
    /// module or when ready, the module is to be reset; while joining a
    /// network or setting up the server, the networks are to be listed
    /// anew; while dealing with a connection, that connection is closed.
    pub open spec fn spec_handle_error(self) -> Esp32C3View {
        match self.status {
            NetworkStatus::Initial => self.spec_reset(),
            NetworkStatus::Checking => self.spec_reset(),
            NetworkStatus::SettingPower => self.spec_reset(),
            NetworkStatus::SettingMode => self.spec_reset(),
            NetworkStatus::SettingRecvMode => self.spec_reset(),
            NetworkStatus::SettingReconnection => self.spec_reset(),
            NetworkStatus::SettingAutoconnect => self.spec_reset(),
            NetworkStatus::CheckingState => self.spec_reset(),
            NetworkStatus::WaitingReconnection => self.spec_reset(),
            NetworkStatus::ListingAp => self.spec_rescan(),
            NetworkStatus::JoiningAp { .. } => self.spec_rescan(),
            NetworkStatus::GettingIpAddress => self.spec_rescan(),
            NetworkStatus::SettingHostName => self.spec_rescan(),
            NetworkStatus::SettingMux => self.spec_rescan(),
            NetworkStatus::CreatingServer => self.spec_rescan(),
            NetworkStatus::SettingServerMaxConn => self.spec_rescan(),
            NetworkStatus::SettingConnectionVerbosity { link_id } => self.spec_close(link_id),
            NetworkStatus::SettingConnectionIpOptions { link_id } => self.spec_close(link_id),
            NetworkStatus::SendingData { link_id, .. } => self.spec_close(link_id),
            NetworkStatus::Ready => self.spec_reset(),
            NetworkStatus::NeedsReset => self,
            NetworkStatus::NeedsRescan => self,
            NetworkStatus::NeedsStateCheck => self,
            NetworkStatus::Resetting => self,
        }
    }

    /// The step on the state of the link: while the state is being
    /// checked, a link that stands leads on to the server, one that is
    /// being made is waited for, and any other state has the networks
    /// listed anew, as has a state that was not asked for.
    pub open spec fn spec_handle_cw_state(self, state: CwState) -> (
        Esp32C3View,
        Option<AtCommand<Seq<u8>>>,
    ) {
        if self.status == NetworkStatus::<Seq<u8>>::CheckingState && state == CwState::Connected {
            (
                Esp32C3View { status: NetworkStatus::GettingIpAddress, ..self },
                Some(AtCommand::AtCIpState),
            )
        } else if self.status == NetworkStatus::<Seq<u8>>::CheckingState && state
            == CwState::Connecting {
            (Esp32C3View { status: NetworkStatus::WaitingReconnection, ..self }, None)
        } else {
            (self.spec_rescan(), None)
        }
    }

    /// The dialogue after an access point was listed: where its name is
    /// one of the two known ones, that network and its secret are the ones
    /// to join, the second known network before the first.
    pub open spec fn spec_handle_access_point(
        self,
        ssid: Seq<u8>,
        networks: KnownNetworks<Seq<u8>>,
    ) -> Esp32C3View {
        if ssid == networks.ssid2 {
            Esp32C3View {
                current_ap_ssid: Some(networks.ssid2),
                current_ap_secret: Some(networks.secret2),
                ..self
            }
        } else if ssid == networks.ssid1 {
            Esp32C3View {
                current_ap_ssid: Some(networks.ssid1),
                current_ap_secret: Some(networks.secret1),
                ..self
            }
        } else {
            self
        }
    }

    /// The dialogue after a reply, and the command that follows, if any.
    pub open spec fn spec_handle_reply(
        self,
        reply: AtReply<Seq<u8>>,
        networks: KnownNetworks<Seq<u8>>,
    ) -> (Esp32C3View, Option<AtCommand<Seq<u8>>>) {
        match reply {
            AtReply::Empty => if self.status == NetworkStatus::<Seq<u8>>::Checking {
                (self.spec_reset(), None)
            } else {
                (self, None)
            },
            AtReply::Okay => self.spec_handle_ok(),
            AtReply::Error => (self.spec_handle_error(), None),
            AtReply::WifiConnected => (
                Esp32C3View {
                    status: NetworkStatus::JoiningAp {
                        connected: true,
                        has_ip: self.status matches NetworkStatus::JoiningAp { has_ip, .. }
                            && has_ip,
                    },
                    ..self
                },
                None,
            ),
            AtReply::WifiGotIp => (
                Esp32C3View {
                    status: NetworkStatus::JoiningAp {
                        connected: !(self.status matches NetworkStatus::JoiningAp { connected, .. }
                            && !connected),
                        has_ip: true,
                    },
                    ..self
                },
                None,
            ),
            AtReply::CwState(state) => self.spec_handle_cw_state(state),
            AtReply::IpSta(IpSta::Ip(address)) => (
                Esp32C3View { ip_address: Some(address), ..self },
                None,
            ),
            AtReply::IpSta(_) => (self, None),
            AtReply::CIpState(connection) => (
                Esp32C3View {
                    status: NetworkStatus::SettingConnectionIpOptions { link_id: connection.link_id },
                    ..self
                },
                Some(AtCommand::AtCIpDInfo(false)),
            ),
            AtReply::CWLAP(ap) => (self.spec_handle_access_point(ap.ssid, networks), None),
            AtReply::SendOk => (self, None),
            AtReply::IpData(received) => (
                Esp32C3View { last_received: Some(received.data), ..self },
                None,
            ),
            AtReply::CIFSR(AddressInfo::StationIp(address)) => (
                Esp32C3View { ip_address: Some(address), ..self },
                None,
            ),
            AtReply::CIFSR(_) => (self, None),
        }
    }

    /// The step that the dialogue takes by itself, before any byte is
    /// looked at: a dialogue that has not begun, or is to be reset, to
    /// list the networks or to check the link, sends the command for that.
    pub open spec fn spec_auto_action(self) -> (Esp32C3View, Option<AtCommand<Seq<u8>>>) {
        match self.status {
            NetworkStatus::Initial => (
                Esp32C3View { status: NetworkStatus::Checking, ..self },
                Some(AtCommand::At),
            ),
            NetworkStatus::NeedsReset => (
                Esp32C3View { status: NetworkStatus::Resetting, ..self },
                Some(AtCommand::AtRst),
            ),
            NetworkStatus::NeedsRescan => (
                Esp32C3View { status: NetworkStatus::ListingAp, ..self },
                Some(AtCommand::AtCwLap),
            ),
            NetworkStatus::NeedsStateCheck => (
                Esp32C3View { status: NetworkStatus::CheckingState, ..self },
                Some(AtCommand::AtCwState),
            ),
            _ => (self, None),
        }
    }

    /// Whether data can be sent: the dialogue is ready and a connection is open.
    pub open spec fn spec_can_send(self) -> bool {
        self.status == NetworkStatus::<Seq<u8>>::Ready && spec_first_open(self.connections, 0)
            < MAX_CONNECTIONS
    }
}

impl Esp32C3 {
    /// The dialogue before it has begun, at `now`.
    pub fn init(now: Instant) -> (esp: Esp32C3)
        ensures
            esp@.current_ap_ssid is None,
            esp@.current_ap_secret is None,
            esp@.ip_address is None,
            esp@.status == NetworkStatus::<Seq<u8>>::Initial,
            esp@.connections == spec_closed_connections(),
            spec_connections_in_place(esp@.connections),
            esp@.last_received is None,
            esp@.current_reply == Seq::<u8>::empty(),
            esp@.current_data == Seq::<u8>::empty(),
            esp@.expected_termination == ExpectedTermination::Newline,
            esp@.command_deadline@ == crate::arith::saturate_u64(now@ + SEND_TIMEOUT_MICROS),
            esp@.deadline_status == RequiredNetworkStatus::Initial,
    {
        let connections = [
            ConnectionInfo { id: 0, status: ConnectionStatus::Closed },
            ConnectionInfo { id: 1, status: ConnectionStatus::Closed },
            ConnectionInfo { id: 2, status: ConnectionStatus::Closed },
            ConnectionInfo { id: 3, status: ConnectionStatus::Closed },
        ];
        assert(connections@ =~= spec_closed_connections());
        Esp32C3 {
            current_ap_ssid: None,
            current_ap_secret: None,
            ip_address: None,
            status: NetworkStatus::Initial,
            connections,
            last_received: None,
            current_reply: line_new(),
            current_data: data_new(),
            expected_termination: ExpectedTermination::start(),
            command_deadline: Instant::from_micros(
                Duration::from_micros(now.as_micros()).saturating_add(
                    Duration::from_micros(SEND_TIMEOUT_MICROS),
                ).as_micros(),
            ),
            deadline_status: RequiredNetworkStatus::Initial,
        }
    }

    /// The first open connection from place `from` on, or the number of
    /// connections where none is open.
    fn first_open(&self, from: usize) -> (id: usize)
        ensures
            id == spec_first_open(self.connections@, from as int),
            from <= id || id == MAX_CONNECTIONS,
            id <= MAX_CONNECTIONS,
    {
        let mut id: usize = from;
        while id < MAX_CONNECTIONS && !matches!(self.connections[id].status, ConnectionStatus::Open)
            invariant
                from <= id,
                spec_first_open(self.connections@, from as int) == spec_first_open(
                    self.connections@,
                    id as int,
                ),
            decreases MAX_CONNECTIONS - id,
        {
            id = id + 1;
        }
        if id > MAX_CONNECTIONS {
            MAX_CONNECTIONS
        } else {
            id
        }
    }

    /// Whether data can be sent: the dialogue is ready and a connection is open.
    pub fn can_send(&self) -> (can: bool)
        ensures
            can == self@.spec_can_send(),
    {
        match &self.status {
            NetworkStatus::Ready => self.first_open(0) < MAX_CONNECTIONS,
            _ => false,
        }
    }

    /// Closes every connection.
    fn reset_connections(&mut self)
        ensures
            final(self)@ == (Esp32C3View { connections: spec_closed_connections(), ..old(self)@ }),
    {
        self.connections = [
            ConnectionInfo { id: 0, status: ConnectionStatus::Closed },
            ConnectionInfo { id: 1, status: ConnectionStatus::Closed },
            ConnectionInfo { id: 2, status: ConnectionStatus::Closed },
            ConnectionInfo { id: 3, status: ConnectionStatus::Closed },
        ];
        assert(self.connections@ =~= spec_closed_connections());
    }

    fn reset(&mut self)
        ensures
            final(self)@ == old(self)@.spec_reset(),
    {
        self.reset_connections();
        self.status = NetworkStatus::NeedsReset;
    }

    fn rescan(&mut self)
        ensures
            final(self)@ == old(self)@.spec_rescan(),
    {
        self.reset_connections();
        self.status = NetworkStatus::NeedsRescan;
    }

    fn close(&mut self, link_id: u8)
        ensures
            final(self)@ == old(self)@.spec_close(link_id),
    {
        if (link_id as usize) < MAX_CONNECTIONS {
            let mut connection = self.connections[link_id as usize];
            connection.status = ConnectionStatus::Closed;
            self.connections[link_id as usize] = connection;
        }
    }

    /// Sends `data` to the first open connection from place `from` on.
    fn send_data_to_next_connection(&mut self, from: usize, data: Vec<u8>) -> (command: Option<
        AtCommand<Vec<u8>>,
    >)
        ensures
            final(self)@ == old(self)@.spec_send_to_next(from as int, data@).0,
            spec_command_view(command) == old(self)@.spec_send_to_next(from as int, data@).1,
    {
        let id = self.first_open(from);
        if id < MAX_CONNECTIONS {
            let link_id = id as u8;
            self.status = NetworkStatus::SendingData { link_id, data: copy_bytes(data.as_slice()) };
            Some(AtCommand::AtCIpSend { link_id, data })
        } else {
            None
        }
    }

    /// The step that the dialogue takes by itself.
    pub fn auto_action(&mut self) -> (command: Option<AtCommand<Vec<u8>>>)
        ensures
            final(self)@ == old(self)@.spec_auto_action().0,
            spec_command_view(command) == old(self)@.spec_auto_action().1,
    {
        match &self.status {
            NetworkStatus::Initial => {
                self.status = NetworkStatus::Checking;
                Some(AtCommand::At)
            },
            NetworkStatus::NeedsReset => {
                self.status = NetworkStatus::Resetting;
                Some(AtCommand::AtRst)
            },
            NetworkStatus::NeedsRescan => {
                self.status = NetworkStatus::ListingAp;
                Some(AtCommand::AtCwLap)
            },
            NetworkStatus::NeedsStateCheck => {
                self.status = NetworkStatus::CheckingState;
                Some(AtCommand::AtCwState)
            },
            _ => None,
        }
    }

    fn handle_ok(&mut self) -> (command: Option<AtCommand<Vec<u8>>>)
        ensures
            final(self)@ == old(self)@.spec_handle_ok().0,
            spec_command_view(command) == old(self)@.spec_handle_ok().1,
    {
        match &self.status {
            NetworkStatus::Initial => None,
            NetworkStatus::Checking => {
                self.status = NetworkStatus::SettingPower;
                Some(AtCommand::AtRfPower)
            },
            NetworkStatus::SettingPower => {
                self.status = NetworkStatus::SettingMode;
                Some(AtCommand::AtCwMode(CwMode::Station))
            },
            NetworkStatus::SettingMode => {
                self.status = NetworkStatus::SettingRecvMode;
                Some(AtCommand::AtCIpRecvMode(CIpRecvMode::Active))
            },
            NetworkStatus::SettingRecvMode => {
                self.status = NetworkStatus::SettingReconnection;
                Some(AtCommand::ATCwReConnCfg {
                        interval: RECONNECT_INTERVAL,
                        repeat: RECONNECT_REPEAT,
                    })
            },
            NetworkStatus::SettingReconnection => {
                self.status = NetworkStatus::SettingAutoconnect;
                Some(AtCommand::AtCwAutoConn(true))
            },
            NetworkStatus::SettingAutoconnect => {
                self.status = NetworkStatus::ListingAp;
                Some(AtCommand::AtCwLap)
            },
            NetworkStatus::CheckingState => {
                self.rescan();
                None
            },
            NetworkStatus::WaitingReconnection => {
                self.rescan();
                None
            },
            NetworkStatus::ListingAp => {
                let join = match (&self.current_ap_ssid, &self.current_ap_secret) {
                    (Some(ssid), Some(secret)) => Some(
                        AtCommand::AtCwJap {
                            ssid: copy_bytes(ssid.as_slice()),
                            secret: copy_bytes(secret.as_slice()),
                        },
                    ),
                    _ => None,
                };
                if join.is_some() {
                    self.status = NetworkStatus::JoiningAp { connected: false, has_ip: false };
                } else {
                    self.rescan();
                }
                join
            },
            NetworkStatus::JoiningAp { connected, .. } => {
                if *connected {
                    self.status = NetworkStatus::GettingIpAddress;
                    Some(AtCommand::AtCIFSR)
                } else {
                    self.rescan();
                    None
                }
            },
            NetworkStatus::GettingIpAddress => {
                if self.ip_address.is_some() {
                    self.status = NetworkStatus::SettingHostName;
                    Some(AtCommand::AtCwHostname(hostname()))
                } else {
                    self.rescan();
                    None
                }
            },
            NetworkStatus::SettingHostName => {
                self.status = NetworkStatus::SettingMux;
                Some(AtCommand::AtCIpMux(true))
            },
            NetworkStatus::SettingMux => {
                self.status = NetworkStatus::SettingServerMaxConn;
                Some(AtCommand::AtCIpServMaxConn(MAX_CONNECTIONS as u8))
            },
            NetworkStatus::CreatingServer => {
                self.status = NetworkStatus::Ready;
                None
            },
            NetworkStatus::SettingServerMaxConn => {
                self.status = NetworkStatus::CreatingServer;
                Some(AtCommand::AtCIpServCreate(SERVER_PORT))
            },
            NetworkStatus::SettingConnectionVerbosity { link_id } => {
                let link_id = *link_id;
                self.status = NetworkStatus::SettingConnectionIpOptions { link_id };
                Some(
                    AtCommand::ATCIpTcpOpt {
                        link_id,
                        so_linger: None,
                        tcp_nodelay: false,
                        so_sndtimeo: 0,
                        keep_alive: 0,
                    },
                )
            },
            NetworkStatus::SettingConnectionIpOptions { .. } => {
                self.status = NetworkStatus::Ready;
                None
            },
            NetworkStatus::SendingData { link_id, data } => {
                let from = *link_id as usize;
                let data = copy_bytes(data.as_slice());
                self.send_data_to_next_connection(from, data)
            },
            NetworkStatus::Ready => None,
            NetworkStatus::NeedsReset => None,
            NetworkStatus::NeedsRescan => None,
            NetworkStatus::NeedsStateCheck => None,
            NetworkStatus::Resetting => {
                self.status = NetworkStatus::Initial;
                None
            },
        }
    }

    fn handle_error(&mut self)
        ensures
            final(self)@ == old(self)@.spec_handle_error(),
    {
        match &self.status {
            NetworkStatus::Initial => self.reset(),
            NetworkStatus::Checking => self.reset(),
            NetworkStatus::SettingPower => self.reset(),
            NetworkStatus::SettingMode => self.reset(),
            NetworkStatus::SettingRecvMode => self.reset(),
            NetworkStatus::SettingReconnection => self.reset(),
            NetworkStatus::SettingAutoconnect => self.reset(),
            NetworkStatus::CheckingState => self.reset(),
            NetworkStatus::WaitingReconnection => self.reset(),
            NetworkStatus::ListingAp => self.rescan(),
            NetworkStatus::JoiningAp { .. } => self.rescan(),
            NetworkStatus::GettingIpAddress => self.rescan(),
            NetworkStatus::SettingHostName => self.rescan(),
            NetworkStatus::SettingMux => self.rescan(),
            NetworkStatus::CreatingServer => self.rescan(),
            NetworkStatus::SettingServerMaxConn => self.rescan(),
            NetworkStatus::SettingConnectionVerbosity { link_id } => {
                let link_id = *link_id;
                self.close(link_id);
            },
            NetworkStatus::SettingConnectionIpOptions { link_id } => {
                let link_id = *link_id;
                self.close(link_id);
            },
            NetworkStatus::SendingData { link_id, .. } => {
                let link_id = *link_id;
                self.close(link_id);
            },
            NetworkStatus::Ready => self.reset(),
            NetworkStatus::NeedsReset => {},
            NetworkStatus::NeedsRescan => {},
            NetworkStatus::NeedsStateCheck => {},
            NetworkStatus::Resetting => {},
        }
    }

    fn handle_cw_state(&mut self, state: CwState) -> (command: Option<AtCommand<Vec<u8>>>)
        ensures
            final(self)@ == old(self)@.spec_handle_cw_state(state).0,
            spec_command_view(command) == old(self)@.spec_handle_cw_state(state).1,
    {
        let checking = matches!(&self.status, NetworkStatus::CheckingState);
        if checking && matches!(state, CwState::Connected) {
            self.status = NetworkStatus::GettingIpAddress;
            Some(AtCommand::AtCIpState)
        } else if checking && matches!(state, CwState::Connecting) {
            self.status = NetworkStatus::WaitingReconnection;
            None
        } else {
            self.rescan();
            None
        }
    }

    fn handle_access_point(&mut self, ssid: &Vec<u8>, networks: &KnownNetworks<Vec<u8>>)
        ensures
            final(self)@ == old(self)@.spec_handle_access_point(ssid@, networks@),
    {
        if same_bytes(ssid.as_slice(), networks.ssid2.as_slice()) {
            self.current_ap_ssid = Some(copy_bytes(networks.ssid2.as_slice()));
            self.current_ap_secret = Some(copy_bytes(networks.secret2.as_slice()));
        } else if same_bytes(ssid.as_slice(), networks.ssid1.as_slice()) {
            self.current_ap_ssid = Some(copy_bytes(networks.ssid1.as_slice()));
            self.current_ap_secret = Some(copy_bytes(networks.secret1.as_slice()));
        }
    }

    /// Takes a reply of the module; returns the command that follows, if any.
    pub fn handle_reply(
        &mut self,
        reply: &AtReply<Vec<u8>>,
        networks: &KnownNetworks<Vec<u8>>,
    ) -> (command: Option<AtCommand<Vec<u8>>>)
        ensures
            final(self)@ == old(self)@.spec_handle_reply(reply@, networks@).0,
            spec_command_view(command) == old(self)@.spec_handle_reply(reply@, networks@).1,
    {
        match reply {
            AtReply::Empty => {
                if matches!(&self.status, NetworkStatus::Checking) {
                    self.reset();
                }
                None
            },
            AtReply::Okay => self.handle_ok(),
            AtReply::Error => {
                self.handle_error();
                None
            },
            AtReply::WifiConnected => {
                let has_ip = match &self.status {
                    NetworkStatus::JoiningAp { has_ip, .. } => *has_ip,
                    _ => false,
                };
                self.status = NetworkStatus::JoiningAp { connected: true, has_ip };
                None
            },
            AtReply::WifiGotIp => {
                let connected = match &self.status {
                    NetworkStatus::JoiningAp { connected, .. } => *connected,
                    _ => true,
                };
                self.status = NetworkStatus::JoiningAp { connected, has_ip: true };
                None
            },
            AtReply::CwState(state) => self.handle_cw_state(*state),
            AtReply::IpSta(IpSta::Ip(address)) => {
                self.ip_address = Some(copy_bytes(address.as_slice()));
                None
            },
            AtReply::IpSta(_) => None,
            AtReply::CIpState(connection) => {
                self.status = NetworkStatus::SettingConnectionIpOptions {
                    link_id: connection.link_id,
                };
                Some(AtCommand::AtCIpDInfo(false))
            },
            AtReply::CWLAP(ap) => {
                self.handle_access_point(&ap.ssid, networks);
                None
            },
            AtReply::SendOk => None,
            AtReply::IpData(received) => {
                self.last_received = Some(copy_bytes(received.data.as_slice()));
                None
            },
            AtReply::CIFSR(AddressInfo::StationIp(address)) => {
                self.ip_address = Some(copy_bytes(address.as_slice()));
                None
            },
            AtReply::CIFSR(_) => None,
        }
    }
}

/// The name that the vehicle takes on the network.
fn hostname() -> (name: Vec<u8>)
    ensures
        name@ == text("countryman"@),
{
    broadcast use vstd::string::is_ascii_spec_bytes;

    proof {
        reveal_strlit("countryman");
        assert(is_ascii("countryman"));
    }
    let bytes = "countryman".as_bytes();
    assert(bytes@ =~= text("countryman"@));
    copy_bytes(bytes)
}

/// Whether two texts hold the same bytes.
fn same_bytes(a: &[u8], b: &[u8]) -> (same: bool)
    ensures
        same == (a@ == b@),
{
    if a.len() != b.len() {
        return false;
    }
    let mut i: usize = 0;
    while i < a.len()
        invariant
            i <= a.len(),
            a.len() == b.len(),
            forall|j: int| 0 <= j < i ==> a@[j] == b@[j],
        decreases a.len() - i,
    {
        if a[i] != b[i] {
            return false;
        }
        i = i + 1;
    }
    assert(a@ =~= b@);
    true
}

/// The bytes that a text holds for the character whose code is `b`: the
/// byte itself below 128, two bytes from there on.
pub open spec fn spec_char_bytes(b: u8) -> Seq<u8> {
    if b < 0x80 {
        seq![b]
    } else {
        seq![0xc0u8 | (b >> 6), 0x80u8 | (b & 0x3f)]
    }
}

/// The digits of `n` in base ten, the highest first.
pub open spec fn spec_decimal(n: nat) -> Seq<u8>
    decreases n,
{
    if n < 10 {
        seq![(48 + n) as u8]
    } else {
        spec_decimal(n / 10).push((48 + n % 10) as u8)
    }
}

/// A sixteen-bit value written as a signed number: from 32768 on it
/// stands for the negative number 65536 below it.
pub open spec fn spec_signed_decimal(v: u16) -> Seq<u8> {
    if v < 0x8000 {
        spec_decimal(v as nat)
    } else {
        seq![45u8] + spec_decimal((0x1_0000 - v) as nat)
    }
}

/// The digit that stands for a switch in a command.
pub open spec fn spec_switch(on: bool) -> Seq<u8> {
    if on {
        seq![49u8]
    } else {
        seq![48u8]
    }
}

/// The bytes of `data` as the characters of a text.
pub open spec fn spec_chars_bytes(data: Seq<u8>) -> Seq<u8>
    decreases data.len(),
{
    if data.len() == 0 {
        Seq::empty()
    } else {
        spec_chars_bytes(data.drop_last()) + spec_char_bytes(data.last())
    }
}

/// The end of a command.
pub open spec fn spec_command_end() -> Seq<u8> {
    seq![10u8, 13u8]
}

impl AtCommand<Seq<u8>> {
    /// The bytes that are sent for the command.
    pub open spec fn spec_build(self) -> Seq<u8> {
        match self {
            AtCommand::At => text("ATE0"@) + spec_command_end(),
            AtCommand::AtRst => text("AT+RST"@) + spec_command_end(),
            AtCommand::AtRfPower => text("AT+RFPOWER=84"@) + spec_command_end(),
            AtCommand::AtCwMode(mode) => text("AT+CWMODE="@) + text(mode.spec_as_str())
                + spec_command_end(),
            AtCommand::AtCIpRecvMode(mode) => text("AT+CIPRECVMODE="@) + text(mode.spec_as_str())
                + spec_command_end(),
            AtCommand::AtCwJap { ssid, secret } => text("AT+CWJAP=\""@) + ssid + text("\",\""@)
                + secret + text("\""@) + spec_command_end(),
            AtCommand::ATCwReConnCfg { interval, repeat } => text("AT+CWRECONNCFG="@)
                + spec_decimal(interval as nat) + text(","@) + spec_decimal(repeat as nat)
                + spec_command_end(),
            AtCommand::AtCwLap => text("AT+CWLAP"@) + spec_command_end(),
            AtCommand::AtCwAutoConn(on) => text("AT+CWAUTOCONN="@) + spec_switch(on)
                + spec_command_end(),
            AtCommand::AtCwState => text("AT+CWSTATE?"@) + spec_command_end(),
            AtCommand::AtCwHostname(name) => text("AT+CWHOSTNAME=\""@) + name + text("\""@)
                + spec_command_end(),
            AtCommand::AtCIpState => text("AT+CIPSTA?"@) + spec_command_end(),
            AtCommand::AtCIpSend { link_id, data } => text("AT+CIPSEND:"@) + spec_decimal(
                link_id as nat,
            ) + text(","@) + spec_decimal(data.len()) + spec_chars_bytes(data) + seq![10u8],
            AtCommand::AtCIFSR => text("AT+CIFSR"@) + spec_command_end(),
            AtCommand::AtCIpMux(on) => text("AT+CIPMUX="@) + spec_switch(on) + spec_command_end(),
            AtCommand::AtCIpServCreate(port) => text("AT+CIPSERVER=1,"@) + spec_decimal(
                port as nat,
            ) + text(",\"TCP\",0"@) + spec_command_end(),
            AtCommand::AtCIpServShutdown(all) => text("ATCIPSERVER=0,"@) + spec_switch(all)
                + spec_command_end(),
            AtCommand::AtCIpServMaxConn(max) => text("AT+CIPSERVERMAXCONN:"@) + spec_decimal(
                max as nat,
            ) + spec_command_end(),
            AtCommand::AtCIpServTimeout(timeout) => text("AT+CIPSTO:"@) + spec_decimal(
                timeout as nat,
            ) + spec_command_end(),
            AtCommand::AtCIpDInfo(show) => text("AT+CIPDINFO:"@) + spec_switch(show)
                + spec_command_end(),
            AtCommand::ATCIpTcpOpt { link_id, so_linger, tcp_nodelay, so_sndtimeo, keep_alive } => {
                text("AT+CIPTCPOPT:"@) + spec_decimal(link_id as nat) + text(","@) + (
                match so_linger {
                    Some(linger) => spec_signed_decimal(linger),
                    None => seq![45u8, 49u8],
                }) + text(","@) + spec_switch(tcp_nodelay) + text(","@) + spec_decimal(
                    so_sndtimeo as nat,
                ) + text(","@) + spec_decimal(keep_alive as nat) + spec_command_end()
            },
        }
    }
}

/// Appends the bytes of a text of plain characters.
fn push_text(out: &mut Vec<u8>, lit: &str)
    requires
        is_ascii(lit),
    ensures
        final(out)@ == old(out)@ + text(lit@),
{
    broadcast use vstd::string::is_ascii_spec_bytes;

    let bytes = lit.as_bytes();
    assert(bytes@ =~= text(lit@));
    push_bytes(out, bytes);
}

/// Appends bytes as they are.
fn push_bytes(out: &mut Vec<u8>, bytes: &[u8])
    ensures
        final(out)@ == old(out)@ + bytes@,
{
    let mut i: usize = 0;
    while i < bytes.len()
        invariant
            i <= bytes.len(),
            out@ == old(out)@ + bytes@.take(i as int),
        decreases bytes.len() - i,
    {
        out.push(bytes[i]);
        assert(bytes@.take(i + 1) =~= bytes@.take(i as int).push(bytes@[i as int]));
        i = i + 1;
    }
    assert(bytes@.take(i as int) =~= bytes@);
}

/// Appends the bytes that a text holds for the character with code `b`.
fn push_char(out: &mut Vec<u8>, b: u8)
    ensures
        final(out)@ == old(out)@ + spec_char_bytes(b),
{
    if b < 0x80 {
        out.push(b);
    } else {
        out.push(0xc0u8 | (b >> 6));
        out.push(0x80u8 | (b & 0x3f));
    }
    assert(out@ =~= old(out)@ + spec_char_bytes(b));
}

/// Appends bytes as the characters of a text.
fn push_chars(out: &mut Vec<u8>, data: &[u8])
    ensures
        final(out)@ == old(out)@ + spec_chars_bytes(data@),
{
    let mut i: usize = 0;
    assert(spec_chars_bytes(data@.take(0)) =~= Seq::<u8>::empty());
    while i < data.len()
        invariant
            i <= data.len(),
            out@ =~= old(out)@ + spec_chars_bytes(data@.take(i as int)),
        decreases data.len() - i,
    {
        push_char(out, data[i]);
        proof {
            let longer = data@.take(i + 1);
            assert(longer.drop_last() =~= data@.take(i as int));
            assert(longer.last() == data@[i as int]);
        }
        i = i + 1;
    }
    assert(data@.take(i as int) =~= data@);
}

/// Appends the digits of `n` in base ten.
fn push_decimal(out: &mut Vec<u8>, n: u64)
    ensures
        final(out)@ == old(out)@ + spec_decimal(n as nat),
    decreases n,
{
    if n >= 10 {
        push_decimal(out, n / 10);
    }
    let digit: u64 = n % 10;
    out.push(48u8 + digit as u8);
    assert(out@ =~= old(out)@ + spec_decimal(n as nat));
}

/// Appends a sixteen-bit value written as a signed number.
fn push_signed_decimal(out: &mut Vec<u8>, v: u16)
    ensures
        final(out)@ == old(out)@ + spec_signed_decimal(v),
{
    if v < 0x8000 {
        push_decimal(out, v as u64);
    } else {
        out.push(45u8);
        push_decimal(out, 0x1_0000u64 - v as u64);
    }
    assert(out@ =~= old(out)@ + spec_signed_decimal(v));
}

/// Appends the digit that stands for a switch.
fn push_switch(out: &mut Vec<u8>, on: bool)
    ensures
        final(out)@ == old(out)@ + spec_switch(on),
{
    if on {
        out.push(49u8);
    } else {
        out.push(48u8);
    }
    assert(out@ =~= old(out)@ + spec_switch(on));
}

/// Appends the end of a command.
fn push_command_end(out: &mut Vec<u8>)
    ensures
        final(out)@ == old(out)@ + spec_command_end(),
{
    out.push(10u8);
    out.push(13u8);
    assert(out@ =~= old(out)@ + spec_command_end());
}

/// The texts of the commands hold plain characters only.
proof fn lemma_commands_are_plain()
    ensures
        is_ascii("ATE0"),
        is_ascii("AT+RST"),
        is_ascii("AT+RFPOWER=84"),
        is_ascii("AT+CWMODE="),
        is_ascii("AT+CIPRECVMODE="),
        is_ascii("AT+CWJAP=\""),
        is_ascii("\",\""),
        is_ascii("\""),
        is_ascii("AT+CWRECONNCFG="),
        is_ascii(","),
        is_ascii("AT+CWLAP"),
        is_ascii("AT+CWAUTOCONN="),
        is_ascii("AT+CWSTATE?"),
        is_ascii("AT+CWHOSTNAME=\""),
        is_ascii("AT+CIPSTA?"),
        is_ascii("AT+CIPSEND:"),
        is_ascii("AT+CIFSR"),
        is_ascii("AT+CIPMUX="),
        is_ascii("AT+CIPSERVER=1,"),
        is_ascii(",\"TCP\",0"),
        is_ascii("ATCIPSERVER=0,"),
        is_ascii("AT+CIPSERVERMAXCONN:"),
        is_ascii("AT+CIPSTO:"),
        is_ascii("AT+CIPDINFO:"),
        is_ascii("AT+CIPTCPOPT:"),
        is_ascii("0"),
        is_ascii("1"),
        is_ascii("2"),
        is_ascii("3"),
{
    reveal_strlit("ATE0");
    reveal_strlit("AT+RST");
    reveal_strlit("AT+RFPOWER=84");
    reveal_strlit("AT+CWMODE=");
    reveal_strlit("AT+CIPRECVMODE=");
    reveal_strlit("AT+CWJAP=\"");
    reveal_strlit("\",\"");
    reveal_strlit("\"");
    reveal_strlit("AT+CWRECONNCFG=");
    reveal_strlit(",");
    reveal_strlit("AT+CWLAP");
    reveal_strlit("AT+CWAUTOCONN=");
    reveal_strlit("AT+CWSTATE?");
    reveal_strlit("AT+CWHOSTNAME=\"");
    reveal_strlit("AT+CIPSTA?");
    reveal_strlit("AT+CIPSEND:");
    reveal_strlit("AT+CIFSR");
    reveal_strlit("AT+CIPMUX=");
    reveal_strlit("AT+CIPSERVER=1,");
    reveal_strlit(",\"TCP\",0");
    reveal_strlit("ATCIPSERVER=0,");
    reveal_strlit("AT+CIPSERVERMAXCONN:");
    reveal_strlit("AT+CIPSTO:");
    reveal_strlit("AT+CIPDINFO:");
    reveal_strlit("AT+CIPTCPOPT:");
    reveal_strlit("0");
    reveal_strlit("1");
    reveal_strlit("2");
    reveal_strlit("3");
}

impl AtCommand<Vec<u8>> {
    /// The bytes that are sent for the command.
    pub fn build(&self) -> (bytes: Vec<u8>)
        ensures
            bytes@ == self@.spec_build(),
    {
        proof {
            lemma_commands_are_plain();
        }
        let mut out: Vec<u8> = Vec::new();
        match self {
            AtCommand::At => {
                push_text(&mut out, "ATE0");
                push_command_end(&mut out);
            },
            AtCommand::AtRst => {
                push_text(&mut out, "AT+RST");
                push_command_end(&mut out);
            },
            AtCommand::AtRfPower => {
                push_text(&mut out, "AT+RFPOWER=84");
                push_command_end(&mut out);
            },
            AtCommand::AtCwMode(mode) => {
                push_text(&mut out, "AT+CWMODE=");
                push_text(&mut out, mode.as_str());
                push_command_end(&mut out);
            },
            AtCommand::AtCIpRecvMode(mode) => {
                push_text(&mut out, "AT+CIPRECVMODE=");
                push_text(&mut out, mode.as_str());
                push_command_end(&mut out);
            },
            AtCommand::AtCwJap { ssid, secret } => {
                push_text(&mut out, "AT+CWJAP=\"");
                push_bytes(&mut out, ssid.as_slice());
                push_text(&mut out, "\",\"");
                push_bytes(&mut out, secret.as_slice());
                push_text(&mut out, "\"");
                push_command_end(&mut out);
            },
            AtCommand::ATCwReConnCfg { interval, repeat } => {
                push_text(&mut out, "AT+CWRECONNCFG=");
                push_decimal(&mut out, *interval as u64);
                push_text(&mut out, ",");
                push_decimal(&mut out, *repeat as u64);
                push_command_end(&mut out);
            },
            AtCommand::AtCwLap => {
                push_text(&mut out, "AT+CWLAP");
                push_command_end(&mut out);
            },
            AtCommand::AtCwAutoConn(on) => {
                push_text(&mut out, "AT+CWAUTOCONN=");
                push_switch(&mut out, *on);
                push_command_end(&mut out);
            },
            AtCommand::AtCwState => {
                push_text(&mut out, "AT+CWSTATE?");
                push_command_end(&mut out);
            },
            AtCommand::AtCwHostname(name) => {
                push_text(&mut out, "AT+CWHOSTNAME=\"");
                push_bytes(&mut out, name.as_slice());
                push_text(&mut out, "\"");
                push_command_end(&mut out);
            },
            AtCommand::AtCIpState => {
                push_text(&mut out, "AT+CIPSTA?");
                push_command_end(&mut out);
            },
            AtCommand::AtCIpSend { link_id, data } => {
                push_text(&mut out, "AT+CIPSEND:");
                push_decimal(&mut out, *link_id as u64);
                push_text(&mut out, ",");
                push_decimal(&mut out, data.len() as u64);
                push_chars(&mut out, data.as_slice());
                out.push(10u8);
            },
            AtCommand::AtCIFSR => {
                push_text(&mut out, "AT+CIFSR");
                push_command_end(&mut out);
            },
            AtCommand::AtCIpMux(on) => {
                push_text(&mut out, "AT+CIPMUX=");
                push_switch(&mut out, *on);
                push_command_end(&mut out);
            },
            AtCommand::AtCIpServCreate(port) => {
                push_text(&mut out, "AT+CIPSERVER=1,");
                push_decimal(&mut out, *port as u64);
                push_text(&mut out, ",\"TCP\",0");
                push_command_end(&mut out);
            },
            AtCommand::AtCIpServShutdown(all) => {
                push_text(&mut out, "ATCIPSERVER=0,");
                push_switch(&mut out, *all);
                push_command_end(&mut out);
            },
            AtCommand::AtCIpServMaxConn(max) => {
                push_text(&mut out, "AT+CIPSERVERMAXCONN:");
                push_decimal(&mut out, *max as u64);
                push_command_end(&mut out);
            },
            AtCommand::AtCIpServTimeout(timeout) => {
                push_text(&mut out, "AT+CIPSTO:");
                push_decimal(&mut out, *timeout as u64);
                push_command_end(&mut out);
            },
            AtCommand::AtCIpDInfo(show) => {
                push_text(&mut out, "AT+CIPDINFO:");
                push_switch(&mut out, *show);
                push_command_end(&mut out);
            },
            AtCommand::ATCIpTcpOpt { link_id, so_linger, tcp_nodelay, so_sndtimeo, keep_alive } => {
                push_text(&mut out, "AT+CIPTCPOPT:");
                push_decimal(&mut out, *link_id as u64);
                push_text(&mut out, ",");
                match so_linger {
                    Some(linger) => push_signed_decimal(&mut out, *linger),
                    None => {
                        out.push(45u8);
                        out.push(49u8);
                    },
                }
                push_text(&mut out, ",");
                push_switch(&mut out, *tcp_nodelay);
                push_text(&mut out, ",");
                push_decimal(&mut out, *so_sndtimeo as u64);
                push_text(&mut out, ",");
                push_decimal(&mut out, *keep_alive as u64);
                push_command_end(&mut out);
            },
        }
        assert(out@ =~= self@.spec_build());
        out
    }
}

impl Esp32C3View {
    /// The dialogue after `command` was sent at `now`: the command is to
    /// be answered within its time, counted from `now`.
    pub open spec fn spec_apply_command(self, command: AtCommand<Seq<u8>>, now: Instant) -> Esp32C3View {
        Esp32C3View {
            command_deadline: Instant {
                micros: crate::arith::saturate_u64(now@ + command.spec_timeout().0) as u64,
            },
            deadline_status: command.spec_timeout().1,
            ..self
        }
    }

    /// A step whose command, if it has one, is sent at `now`.
    pub open spec fn spec_sent(step: (Esp32C3View, Option<AtCommand<Seq<u8>>>), now: Instant) -> (
        Esp32C3View,
        Option<AtCommand<Seq<u8>>>,
    ) {
        match step.1 {
            Some(command) => (step.0.spec_apply_command(command, now), step.1),
            None => step,
        }
    }

    /// The step that sends `data` when the dialogue is ready: the first
    /// `MAX_NETWORK_BUFFER_SIZE` bytes go to the first open connection.
    pub open spec fn spec_send_data(self, data: Seq<u8>) -> (
        Esp32C3View,
        Option<AtCommand<Seq<u8>>>,
    ) {
        if self.spec_can_send() {
            self.spec_send_to_next(0, data.take(MAX_NETWORK_BUFFER_SIZE as int))
        } else {
            (self, None)
        }
    }

    /// Whether there is room for the byte `byte` of a message.
    pub open spec fn spec_has_room(self, byte: u8) -> bool {
        match self.expected_termination {
            ExpectedTermination::Newline => self.current_reply.len() + spec_char_bytes(byte).len()
                <= MAX_NETWORK_BUFFER_SIZE,
            ExpectedTermination::Bytes(remaining) => remaining > 0 && self.current_data.len()
                < MAX_NETWORK_BUFFER_SIZE,
        }
    }

    /// The step at the end of a message: data that came with it is kept
    /// as the last received, the line is read as a reply and emptied, and
    /// the dialogue takes the reply; the command that follows is sent at `now`.
    pub open spec fn spec_complete(self, now: Instant, networks: KnownNetworks<Seq<u8>>) -> (
        Esp32C3View,
        Option<AtCommand<Seq<u8>>>,
    ) {
        let kept = if self.current_data.len() > 0 {
            Esp32C3View { last_received: Some(self.current_data), ..self }
        } else {
            self
        };
        let reply = spec_parse(self.current_reply, self.current_data);
        let emptied = Esp32C3View { current_reply: Seq::empty(), ..kept };
        Esp32C3View::spec_sent(emptied.spec_handle_reply(reply, networks), now)
    }

    /// The step on one byte of a message. A byte of a line joins the
    /// line; the end of a line ends the message. A colon in a line that
    /// begins with `IPD,` has the module reset: the length of the data is
    /// read up to and with that colon, and so is never a number. A byte of
    /// data joins the data, and the last one that was expected ends the
    /// message.
    pub open spec fn spec_receive(
        self,
        byte: u8,
        now: Instant,
        networks: KnownNetworks<Seq<u8>>,
    ) -> (Esp32C3View, Option<AtCommand<Seq<u8>>>) {
        match self.expected_termination {
            ExpectedTermination::Newline => {
                let taken = Esp32C3View {
                    current_reply: self.current_reply + spec_char_bytes(byte),
                    ..self
                };
                if byte == 10 || byte == 13 {
                    taken.spec_complete(now, networks)
                } else if byte == 58 && spec_starts_with(taken.current_reply, text("IPD,"@)) {
                    (taken.spec_reset(), None)
                } else {
                    (taken, None)
                }
            },
            ExpectedTermination::Bytes(remaining) => {
                let taken = Esp32C3View {
                    current_data: self.current_data.push(byte),
                    expected_termination: ExpectedTermination::Bytes((remaining - 1) as usize),
                    ..self
                };
                if remaining == 1 {
                    taken.spec_complete(now, networks)
                } else {
                    (taken, None)
                }
            },
        }
    }

    /// Whether the step at `now` leaves the byte aside: the dialogue has
    /// a command of its own to send, or the answer to the last command is
    /// overdue.
    pub open spec fn spec_leaves_byte(self, now: Instant) -> bool {
        self.spec_auto_action().1 is Some || now@ > self.command_deadline@
    }

    /// The step at `now`, with the byte that came in, if one did. A
    /// command that the dialogue sends by itself comes first. Then, where
    /// the answer to the last command is overdue, the dialogue falls back
    /// to the status that goes with that command. Else the byte is taken.
    pub open spec fn spec_update(
        self,
        received: Option<u8>,
        now: Instant,
        networks: KnownNetworks<Seq<u8>>,
    ) -> (Esp32C3View, Option<AtCommand<Seq<u8>>>) {
        if self.spec_auto_action().1 is Some {
            Esp32C3View::spec_sent(self.spec_auto_action(), now)
        } else if now@ > self.command_deadline@ {
            (
                Esp32C3View {
                    status: match self.deadline_status {
                        RequiredNetworkStatus::Initial => NetworkStatus::Initial,
                        RequiredNetworkStatus::NeedsRescan => NetworkStatus::NeedsRescan,
                    },
                    ..self
                },
                None,
            )
        } else {
            match received {
                Some(byte) => self.spec_receive(byte, now, networks),
                None => (self, None),
            }
        }
    }
}

impl Esp32C3 {
    /// Notes that `command` is sent at `now`.
    fn apply_command(&mut self, command: &AtCommand<Vec<u8>>, now: Instant)
        ensures
            final(self)@ == old(self)@.spec_apply_command(command@, now),
    {
        let (limit, status) = command.timeout();
        self.command_deadline = Instant::from_micros(
            Duration::from_micros(now.as_micros()).saturating_add(limit).as_micros(),
        );
        self.deadline_status = status;
    }

    /// Notes that the command of a step, if it has one, is sent at `now`.
    fn sent(&mut self, command: Option<AtCommand<Vec<u8>>>, now: Instant) -> (same: Option<
        AtCommand<Vec<u8>>,
    >)
        ensures
            same == command,
            final(self)@ == Esp32C3View::spec_sent((old(self)@, spec_command_view(command)), now).0,
    {
        match &command {
            Some(c) => self.apply_command(c, now),
            None => {},
        }
        command
    }

    /// Whether there is room for the byte `byte` of a message.
    pub fn has_room(&self, byte: u8) -> (room: bool)
        ensures
            room == self@.spec_has_room(byte),
    {
        match self.expected_termination {
            ExpectedTermination::Newline => {
                let width: usize = if byte < 0x80 {
                    1
                } else {
                    2
                };
                line_bytes(&self.current_reply).len() <= MAX_NETWORK_BUFFER_SIZE - width
            },
            ExpectedTermination::Bytes(remaining) => remaining > 0 && data_slice(
                &self.current_data,
            ).len() < MAX_NETWORK_BUFFER_SIZE,
        }
    }

    /// Whether the step at `now` leaves the byte aside.
    pub fn leaves_byte(&self, now: Instant) -> (leaves: bool)
        ensures
            leaves == self@.spec_leaves_byte(now),
    {
        matches!(
            &self.status,
            NetworkStatus::Initial | NetworkStatus::NeedsReset | NetworkStatus::NeedsRescan
                | NetworkStatus::NeedsStateCheck
        ) || now.as_micros() > self.command_deadline.as_micros()
    }

    /// Sends `data` when the dialogue is ready and a connection is open;
    /// returns the command to send at `now`, if any. Data to send has at
    /// least `MAX_NETWORK_BUFFER_SIZE` bytes.
    pub fn send(&mut self, data: &[u8], now: Instant) -> (command: Option<AtCommand<Vec<u8>>>)
        requires
            old(self)@.spec_can_send() ==> data@.len() >= MAX_NETWORK_BUFFER_SIZE,
        ensures
            final(self)@ == Esp32C3View::spec_sent(old(self)@.spec_send_data(data@), now).0,
            spec_command_view(command) == Esp32C3View::spec_sent(
                old(self)@.spec_send_data(data@),
                now,
            ).1,
    {
        if self.can_send() {
            let head = copy_bytes(slice_subrange(data, 0, MAX_NETWORK_BUFFER_SIZE));
            assert(head@ =~= data@.take(MAX_NETWORK_BUFFER_SIZE as int));
            let command = self.send_data_to_next_connection(0, head);
            self.sent(command, now)
        } else {
            None
        }
    }

    /// Ends a message.
    fn complete(&mut self, now: Instant, networks: &KnownNetworks<Vec<u8>>) -> (command: Option<
        AtCommand<Vec<u8>>,
    >)
        ensures
            final(self)@ == old(self)@.spec_complete(now, networks@).0,
            spec_command_view(command) == old(self)@.spec_complete(now, networks@).1,
    {
        if data_slice(&self.current_data).len() > 0 {
            self.last_received = Some(copy_bytes(data_slice(&self.current_data)));
        }
        let reply = AtReply::parse(line_bytes(&self.current_reply), data_slice(&self.current_data));
        line_clear(&mut self.current_reply);
        let command = self.handle_reply(&reply, networks);
        self.sent(command, now)
    }

    /// Takes one byte of a message.
    fn receive(&mut self, byte: u8, now: Instant, networks: &KnownNetworks<Vec<u8>>) -> (command:
        Option<AtCommand<Vec<u8>>>)
        requires
            old(self)@.spec_has_room(byte),
        ensures
            final(self)@ == old(self)@.spec_receive(byte, now, networks@).0,
            spec_command_view(command) == old(self)@.spec_receive(byte, now, networks@).1,
    {
        match self.expected_termination {
            ExpectedTermination::Newline => {
                line_push(&mut self.current_reply, byte);
                if byte == 10 || byte == 13 {
                    self.complete(now, networks)
                } else if byte == 58 && begins_data(line_bytes(&self.current_reply)) {
                    self.reset();
                    None
                } else {
                    None
                }
            },
            ExpectedTermination::Bytes(remaining) => {
                data_push(&mut self.current_data, byte);
                self.expected_termination = ExpectedTermination::Bytes(remaining - 1);
                if remaining == 1 {
                    self.complete(now, networks)
                } else {
                    None
                }
            },
        }
    }

    /// The step at `now`, with the byte that came in, if one did; returns
    /// the command to send, if any. A byte that is taken needs room.
    pub fn update(
        &mut self,
        received: Option<u8>,
        now: Instant,
        networks: &KnownNetworks<Vec<u8>>,
    ) -> (command: Option<AtCommand<Vec<u8>>>)
        requires
            received matches Some(byte) ==> old(self)@.spec_leaves_byte(now) || old(
                self,
            )@.spec_has_room(byte),
        ensures
            final(self)@ == old(self)@.spec_update(received, now, networks@).0,
            spec_command_view(command) == old(self)@.spec_update(received, now, networks@).1,
    {
        let command = self.auto_action();
        if command.is_some() {
            return self.sent(command, now);
        }
        if now.as_micros() > self.command_deadline.as_micros() {
            self.status = self.deadline_status.status();
            return None;
        }
        match received {
            Some(byte) => self.receive(byte, now, networks),
            None => None,
        }
    }
}

/// Whether a line begins as one that brings data.
fn begins_data(line: &[u8]) -> (begins: bool)
    ensures
        begins == spec_starts_with(line@, text("IPD,"@)),
{
    proof {
        reveal_strlit("IPD,");
        assert(is_ascii("IPD,"));
    }
    strip_prefix(line, "IPD,").is_some()
}

/// Whether there are `MAX_CONNECTIONS` connections, each at the place of
/// its number.
pub open spec fn spec_connections_in_place(connections: Seq<ConnectionInfo>) -> bool {
    &&& connections.len() == MAX_CONNECTIONS
    &&& forall|i: int| 0 <= i < MAX_CONNECTIONS ==> (#[trigger] connections[i]).id == i
}

/// The first open connection from a place on, where there is one, is open
/// and not before that place, and no connection between the two is open.
pub proof fn lemma_first_open(connections: Seq<ConnectionInfo>, from: int)
    requires
        connections.len() == MAX_CONNECTIONS,
        0 <= from,
    ensures
        spec_first_open(connections, from) == MAX_CONNECTIONS || (from <= spec_first_open(
            connections,
            from,
        ) < MAX_CONNECTIONS && connections[spec_first_open(connections, from)].status
            == ConnectionStatus::Open),
        forall|i: int|
            from <= i < spec_first_open(connections, from) ==> (#[trigger] connections[i]).status
                != ConnectionStatus::Open,
    decreases MAX_CONNECTIONS - from,
{
    if from < MAX_CONNECTIONS && connections[from].status != ConnectionStatus::Open {
        lemma_first_open(connections, from + 1);
    }
}

/// A reply leaves every connection at the place of its number, and a
/// command that sends data names a connection that is open.
pub proof fn lemma_reply_keeps_connections(
    state: Esp32C3View,
    reply: AtReply<Seq<u8>>,
    networks: KnownNetworks<Seq<u8>>,
)
    requires
        spec_connections_in_place(state.connections),
    ensures
        spec_connections_in_place(state.spec_handle_reply(reply, networks).0.connections),
        state.spec_handle_reply(reply, networks).1 matches Some(AtCommand::AtCIpSend { link_id, .. })
            ==> link_id < MAX_CONNECTIONS && state.connections[link_id as int].status
            == ConnectionStatus::Open,
{
    if let NetworkStatus::SendingData { link_id, .. } = state.status {
        lemma_first_open(state.connections, link_id as int);
    }
}

/// A step leaves every connection at the place of its number, and a
/// command that sends data names a connection that is open.
pub proof fn lemma_update_keeps_connections(
    state: Esp32C3View,
    received: Option<u8>,
    now: Instant,
    networks: KnownNetworks<Seq<u8>>,
)
    requires
        spec_connections_in_place(state.connections),
    ensures
        spec_connections_in_place(state.spec_update(received, now, networks).0.connections),
        state.spec_update(received, now, networks).1 matches Some(AtCommand::AtCIpSend { link_id, .. })
            ==> link_id < MAX_CONNECTIONS && state.connections[link_id as int].status
            == ConnectionStatus::Open,
{
    if let Some(byte) = received {
        let line = Esp32C3View {
            current_reply: state.current_reply + spec_char_bytes(byte),
            ..state
        };
        lemma_complete_keeps_connections(line, now, networks);
        if let ExpectedTermination::Bytes(remaining) = state.expected_termination {
            let data = Esp32C3View {
                current_data: state.current_data.push(byte),
                expected_termination: ExpectedTermination::Bytes((remaining - 1) as usize),
                ..state
            };
            lemma_complete_keeps_connections(data, now, networks);
        }
    }
}

/// The end of a message leaves every connection at the place of its
/// number, and a command that sends data names a connection that is open.
proof fn lemma_complete_keeps_connections(
    state: Esp32C3View,
    now: Instant,
    networks: KnownNetworks<Seq<u8>>,
)
    requires
        spec_connections_in_place(state.connections),
    ensures
        spec_connections_in_place(state.spec_complete(now, networks).0.connections),
        state.spec_complete(now, networks).1 matches Some(AtCommand::AtCIpSend { link_id, .. })
            ==> link_id < MAX_CONNECTIONS && state.connections[link_id as int].status
            == ConnectionStatus::Open,
{
    let kept = if state.current_data.len() > 0 {
        Esp32C3View { last_received: Some(state.current_data), ..state }
    } else {
        state
    };
    let emptied = Esp32C3View { current_reply: Seq::empty(), ..kept };
    lemma_reply_keeps_connections(
        emptied,
        spec_parse(state.current_reply, state.current_data),
        networks,
    );
}

/// Data is sent only to a connection that is open, and only by a dialogue
/// that is ready; the dialogue then waits for the data to be sent.
pub proof fn lemma_send_needs_an_open_connection(state: Esp32C3View, data: Seq<u8>)
    requires
        spec_connections_in_place(state.connections),
    ensures
        state.spec_send_data(data).1 is Some <==> state.spec_can_send(),
        state.spec_send_data(data).1 matches Some(command) ==> command matches AtCommand::AtCIpSend {
            link_id,
            data: sent,
        } && link_id < MAX_CONNECTIONS && state.connections[link_id as int].status
            == ConnectionStatus::Open && sent == data.take(MAX_NETWORK_BUFFER_SIZE as int)
            && state.spec_send_data(data).0.status == (NetworkStatus::SendingData {
            link_id,
            data: sent,
        }),
        state.spec_send_data(data).1 is None ==> state.spec_send_data(data).0 == state,
{
    lemma_first_open(state.connections, 0);
}

} // verus!
