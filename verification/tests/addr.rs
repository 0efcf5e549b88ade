use rubydns::addr::{reverse16, reverse32, Addr, IpAddr, SocketAddr};

#[test]
fn encode_loopback_port_53() {
    let addr = Addr::encode(0x7f00_0001, 53);
    assert_eq!(addr, Addr { addr: 0x0100_007f, port: 0x3500 });
}

#[test]
fn encode_lays_octets_out_in_network_order() {
    let addr = Addr::encode(u32::from_be_bytes([8, 8, 4, 4]), 0x1234);
    assert_eq!(addr.addr.to_le_bytes(), [8, 8, 4, 4]);
    assert_eq!(addr.port.to_le_bytes(), [0x12, 0x34]);
}

#[test]
fn encode_agrees_with_big_endian_conversion_of_std() {
    let little_endian = 1u16.to_be() != 1;
    if little_endian {
        let bits = u32::from_be_bytes([192, 168, 1, 20]);
        assert_eq!(Addr::encode(bits, 8053).addr, bits.to_be());
        assert_eq!(Addr::encode(bits, 8053).port, 8053u16.to_be());
        assert_eq!(Addr { addr: bits.to_be(), port: 8053u16.to_be() }.decode().port, 8053);
    }
}

#[test]
fn decode_reads_back_what_encode_wrote() {
    let addr = Addr::encode(0xc0a8_0114, 65535).decode();
    assert_eq!(addr, SocketAddr { ip: IpAddr::V4(0xc0a8_0114), port: 65535 });
}

#[test]
fn decode_is_always_ipv4() {
    let addr = Addr { addr: 0, port: 0 }.decode();
    assert_eq!(addr, SocketAddr { ip: IpAddr::V4(0), port: 0 });
}

#[test]
fn reverse_examples() {
    assert_eq!(reverse32(0x0102_0304), 0x0403_0201);
    assert_eq!(reverse32(0), 0);
    assert_eq!(reverse32(u32::MAX), u32::MAX);
    assert_eq!(reverse16(0x0102), 0x0201);
    assert_eq!(reverse16(0x00ff), 0xff00);
}

#[test]
fn reverse_twice_is_identity() {
    for x in [0u32, 1, 0x7f00_0001, 0xdead_beef, u32::MAX] {
        assert_eq!(reverse32(reverse32(x)), x);
    }
    for x in [0u16, 1, 53, 0xabcd, u16::MAX] {
        assert_eq!(reverse16(reverse16(x)), x);
    }
}
