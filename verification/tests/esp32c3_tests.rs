use countryman::esp32c3::{
    AccessPointEncryption, AccessPointInfo, AddressInfo, AtReply, ConnectionIpState, CwState,
    IpData, IpSta,
};

fn parse(line: &str) -> AtReply<Vec<u8>> {
    AtReply::parse(line.as_bytes(), &[])
}

fn bytes(text: &str) -> Vec<u8> {
    text.as_bytes().to_vec()
}

#[test]
fn plain_lines_are_read() {
    assert_eq!(parse(""), AtReply::Empty);
    assert_eq!(parse("OK"), AtReply::Okay);
    assert_eq!(parse("SEND OK"), AtReply::SendOk);
    assert_eq!(parse("SEND ERROR"), AtReply::Error);
    assert_eq!(parse("WIFI CONNECTED"), AtReply::WifiConnected);
    assert_eq!(parse("WIFI GOT IP"), AtReply::WifiGotIp);
    assert_eq!(parse("ERROR"), AtReply::Error);
    assert_eq!(parse("ERROR: 12"), AtReply::Error);
    assert_eq!(parse("ERR"), AtReply::Empty);
    assert_eq!(parse("OK "), AtReply::Empty);
    assert_eq!(parse("ok"), AtReply::Empty);
    assert_eq!(parse("busy p..."), AtReply::Empty);
}

#[test]
fn unknown_tags_are_empty() {
    assert_eq!(parse("+"), AtReply::Empty);
    assert_eq!(parse("+FOO:1"), AtReply::Empty);
    assert_eq!(parse("+IPD"), AtReply::Empty);
    assert_eq!(parse("+cwstate:2"), AtReply::Empty);
}

#[test]
fn the_state_of_the_link_is_read() {
    assert_eq!(parse("+CWSTATE:0"), AtReply::CwState(CwState::Idle));
    assert_eq!(parse("+CWSTATE:1,\"net\""), AtReply::CwState(CwState::ConnectedWithoutIpAddress));
    assert_eq!(parse("+CWSTATE:2,\"net\""), AtReply::CwState(CwState::Connected));
    assert_eq!(parse("+CWSTATE:3"), AtReply::CwState(CwState::Connecting));
    assert_eq!(parse("+CWSTATE:4,"), AtReply::CwState(CwState::Disconnected));
    assert_eq!(parse("+CWSTATE:5"), AtReply::Empty);
    assert_eq!(parse("+CWSTATE:"), AtReply::Empty);
    assert_eq!(parse("+CWSTATE:02"), AtReply::Empty);
}

#[test]
fn received_data_is_read() {
    assert_eq!(
        AtReply::parse(b"+IPD,2,5:", b"hello"),
        AtReply::IpData(IpData { link_id: 2, length: 5, data: bytes("hello") })
    );
    assert_eq!(
        AtReply::parse(b"+IPD,+3,005:", b"hello"),
        AtReply::IpData(IpData { link_id: 3, length: 5, data: bytes("hello") })
    );
    assert_eq!(
        AtReply::parse(b"+IPD,0,0:", b""),
        AtReply::IpData(IpData { link_id: 0, length: 0, data: Vec::new() })
    );
    assert_eq!(AtReply::parse(b"+IPD,2,4:", b"hello"), AtReply::Empty);
    assert_eq!(AtReply::parse(b"+IPD,2,5:x", b"hello"), AtReply::Empty);
    assert_eq!(AtReply::parse(b"+IPD,2,5", b"hello"), AtReply::Empty);
    assert_eq!(AtReply::parse(b"+IPD,2:5", b"hello"), AtReply::Empty);
    assert_eq!(AtReply::parse(b"+IPD,256,5:", b"hello"), AtReply::Empty);
    assert_eq!(AtReply::parse(b"+IPD,255,5:", b"hello").clone(), AtReply::IpData(IpData {
        link_id: 255,
        length: 5,
        data: bytes("hello")
    }));
    assert_eq!(AtReply::parse(b"+IPD,-1,5:", b"hello"), AtReply::Empty);
    assert_eq!(AtReply::parse(b"+IPD,,5:", b"hello"), AtReply::Empty);
    assert_eq!(AtReply::parse(b"+IPD,+,5:", b"hello"), AtReply::Empty);
    assert_eq!(AtReply::parse(b"+IPD,1,65536:", b"hello"), AtReply::Empty);
    assert_eq!(AtReply::parse(b"+IPD,1,5a:", b"hello"), AtReply::Empty);
}

#[test]
fn received_data_must_fit_a_message() {
    let full = vec![7u8; 256];
    assert_eq!(
        AtReply::parse(b"+IPD,1,256:", &full),
        AtReply::IpData(IpData { link_id: 1, length: 256, data: full.clone() })
    );
    let long = vec![7u8; 257];
    assert_eq!(AtReply::parse(b"+IPD,1,257:", &long), AtReply::Empty);
}

#[test]
fn connections_are_read() {
    assert_eq!(
        parse("+CIPSTATE:1,\"TCP\",\"192.168.1.7\",5000,3333,1"),
        AtReply::CIpState(ConnectionIpState {
            link_id: 1,
            link_type: bytes("\"TCP\""),
            remote_ip: bytes("\"192.168.1.7\""),
        })
    );
    assert_eq!(parse("+CIPSTATE:1,\"TCP\",\"192.168.1.7\""), AtReply::Empty);
    assert_eq!(parse("+CIPSTATE:x,\"TCP\",\"192.168.1.7\","), AtReply::Empty);
    assert_eq!(parse("+CIPSTATE:1,0123456789abcdefg,ip,"), AtReply::Empty);
    assert_eq!(
        parse("+CIPSTATE:1,0123456789abcdef,ip,"),
        AtReply::CIpState(ConnectionIpState {
            link_id: 1,
            link_type: bytes("0123456789abcdef"),
            remote_ip: bytes("ip"),
        })
    );
}

#[test]
fn access_points_are_read() {
    assert_eq!(
        parse("+CWLAP:3,\"home\",62,\"aa:bb\",6"),
        AtReply::CWLAP(AccessPointInfo {
            encryption: AccessPointEncryption::Wpa2Psk,
            ssid: bytes("\"home\""),
            rssi: 62,
        })
    );
    let codes = [
        ("0", AccessPointEncryption::Open),
        ("1", AccessPointEncryption::Wep),
        ("2", AccessPointEncryption::WpaPsk),
        ("4", AccessPointEncryption::WpaWpa2Psk),
        ("5", AccessPointEncryption::Wpa2Enterprise),
        ("6", AccessPointEncryption::Wpa3Psk),
        ("7", AccessPointEncryption::WapiPsk),
        ("8", AccessPointEncryption::Owe),
    ];
    for (code, encryption) in codes.iter() {
        let line = format!("+CWLAP:{},n,1,", code);
        assert_eq!(
            parse(&line),
            AtReply::CWLAP(AccessPointInfo { encryption: *encryption, ssid: bytes("n"), rssi: 1 })
        );
    }
    assert_eq!(parse("+CWLAP:9,n,1,"), AtReply::Empty);
    assert_eq!(parse("+CWLAP:3,n,-62,"), AtReply::Empty);
    assert_eq!(parse("+CWLAP:3,n,62"), AtReply::Empty);
    assert_eq!(parse("+CWLAP:3,0123456789012345678901234567890123,1,"), AtReply::Empty);
}

#[test]
fn station_addresses_are_read() {
    assert_eq!(
        parse("+CIPSTA:ip:\"192.168.1.9\""),
        AtReply::IpSta(IpSta::Ip(bytes("\"192.168.1.9\"")))
    );
    assert_eq!(parse("+CIPSTA:gateway:g"), AtReply::IpSta(IpSta::Gateway(bytes("g"))));
    assert_eq!(parse("+CIPSTA:netmask:"), AtReply::IpSta(IpSta::Netmask(Vec::new())));
    assert_eq!(parse("+CIPSTA:ip6ll:\"fe80::1234:5678:9abc:def0\""), AtReply::IpSta(IpSta::Ip6Ll));
    assert_eq!(parse("+CIPSTA:ip6gl:x"), AtReply::IpSta(IpSta::Ip6Gl));
    assert_eq!(parse("+CIPSTA:ip:0123456789abcdefg"), AtReply::Empty);
    assert_eq!(parse("+CIPSTA:dns:x"), AtReply::Empty);
    assert_eq!(parse("+CIPSTA:ip"), AtReply::Empty);
}

#[test]
fn own_addresses_are_read() {
    assert_eq!(parse("+CIFSR:STAIP,\"10.0.0.2\""), AtReply::CIFSR(AddressInfo::StationIp(bytes("\"10.0.0.2\""))));
    assert_eq!(parse("+CIFSR:APIP,a"), AtReply::CIFSR(AddressInfo::AccessPointIp(bytes("a"))));
    assert_eq!(
        parse("+CIFSR:STAMAC,\"aa:bb:cc:dd:ee:ff\""),
        AtReply::CIFSR(AddressInfo::StationMac(bytes("\"aa:bb:cc:dd:ee:ff\"")))
    );
    assert_eq!(parse("+CIFSR:APMAC,m"), AtReply::CIFSR(AddressInfo::AccessPointMac(bytes("m"))));
    assert_eq!(parse("+CIFSR:APIP6LL,x"), AtReply::CIFSR(AddressInfo::AccessPointIpV6Ll));
    assert_eq!(parse("+CIFSR:APIP6GL,x"), AtReply::CIFSR(AddressInfo::AccessPointIpV6Gl));
    assert_eq!(parse("+CIFSR:STAIP6LL,x"), AtReply::CIFSR(AddressInfo::StationIpV6Ll));
    assert_eq!(parse("+CIFSR:STAIP6GL,x"), AtReply::CIFSR(AddressInfo::StationIpV6Gl));
    assert_eq!(parse("+CIFSR:ETHIP,x"), AtReply::CIFSR(AddressInfo::EthIp));
    assert_eq!(parse("+CIFSR:ETHIP6LL,x"), AtReply::CIFSR(AddressInfo::EthIpV6Ll));
    assert_eq!(parse("+CIFSR:ETHIP6GL,x"), AtReply::CIFSR(AddressInfo::EthIpV6Gl));
    assert_eq!(parse("+CIFSR:ETHMAC,x"), AtReply::CIFSR(AddressInfo::EthMac));
    assert_eq!(parse("+CIFSR:STAIP,0123456789abcdefg"), AtReply::Empty);
    assert_eq!(parse("+CIFSR:STAMAC,0123456789abcdef012345678"), AtReply::Empty);
    assert_eq!(parse("+CIFSR:STAIP"), AtReply::Empty);
    assert_eq!(parse("+CIFSR:WHAT,x"), AtReply::Empty);
}
