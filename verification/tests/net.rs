use rubydns::addr::{Addr, IpAddr, SocketAddr};
use rubydns::net::tcp::{TcpListener, TcpStream};
use rubydns::net::udp::UdpSocket;
use rubydns::net::{from_errno, get_ipv4_be, request_addr, IoError};

const V4: SocketAddr = SocketAddr { ip: IpAddr::V4(0x0808_0808), port: 53 };
const V6: SocketAddr = SocketAddr { ip: IpAddr::V6(1), port: 53 };

#[test]
fn errno_becomes_os_error() {
    assert_eq!(from_errno(9), IoError::Os(9));
    assert_eq!(from_errno(0), IoError::Os(0));
    assert_eq!(from_errno(u32::MAX), IoError::Os(-1));
}

#[test]
fn ipv4_address_in_interface_form() {
    assert_eq!(get_ipv4_be(&V4), Ok(0x0808_0808));
    let local = SocketAddr { ip: IpAddr::V4(0x7f00_0001), port: 53 };
    assert_eq!(get_ipv4_be(&local), Ok(0x0100_007f));
    assert_eq!(request_addr(&local), Ok(Addr { addr: 0x0100_007f, port: 0x3500 }));
}

#[test]
fn ipv6_address_is_unsupported() {
    assert_eq!(get_ipv4_be(&V6), Err(IoError::Unsupported));
    assert_eq!(request_addr(&V6), Err(IoError::Unsupported));
    assert_eq!(UdpSocket::bind_request(&V6), Err(IoError::Unsupported));
    assert_eq!(TcpStream::connect_request(&V6), Err(IoError::Unsupported));
    assert_eq!(TcpListener::listen_request(&V6), Err(IoError::Unsupported));
}

#[test]
fn udp_bind_keeps_the_hosts_descriptor() {
    assert_eq!(UdpSocket::bind_request(&V4), Ok(Addr::encode(0x0808_0808, 53)));
    let socket = UdpSocket::bind(Ok(17)).unwrap();
    assert_eq!(socket.fd(), 17);
    assert_eq!(UdpSocket::bind(Err(98)).unwrap_err(), IoError::Os(98));
}

#[test]
fn udp_connect_asks_for_own_descriptor_and_address() {
    let socket = UdpSocket::bind(Ok(17)).unwrap();
    assert_eq!(socket.connect_request(&V4), Ok((17, Addr::encode(0x0808_0808, 53))));
    assert_eq!(socket.connect_request(&V6), Err(IoError::Unsupported));
    assert_eq!(socket.connect(Ok(())), Ok(()));
    assert_eq!(socket.connect(Err(111)), Err(IoError::Os(111)));
}

#[test]
fn udp_send_counts_bytes() {
    let socket = UdpSocket::bind(Ok(17)).unwrap();
    assert_eq!(socket.send(Ok(29)), Ok(29));
    assert_eq!(socket.send(Err(9)), Err(IoError::Os(9)));
    assert_eq!(socket.send_to_request(&V4), Ok((17, Addr::encode(0x0808_0808, 53))));
    assert_eq!(socket.send_to(Ok(0)), Ok(0));
    assert_eq!(socket.send_to(Err(9)), Err(IoError::Os(9)));
}

#[test]
fn udp_recv_hands_on_the_bytes() {
    let socket = UdpSocket::bind(Ok(17)).unwrap();
    assert_eq!(socket.recv(Ok(vec![1, 2, 3])), Ok(vec![1, 2, 3]));
    assert_eq!(socket.recv(Ok(vec![])), Ok(vec![]));
    assert_eq!(socket.recv(Err(9)), Err(IoError::Os(9)));
    assert_eq!(socket.recv_size(Ok(vec![4, 5])), Ok(vec![4, 5]));
    assert_eq!(socket.recv_size(Err(11)), Err(IoError::Os(11)));
}

#[test]
fn udp_recv_from_decodes_the_sender() {
    let socket = UdpSocket::bind(Ok(17)).unwrap();
    let wire = Addr { addr: 0x0100_007f, port: 0x3500 };
    let expected = SocketAddr { ip: IpAddr::V4(0x7f00_0001), port: 53 };
    assert_eq!(socket.recv_from(Ok((vec![7], wire))), Ok((vec![7], expected)));
    assert_eq!(socket.recv_from(Err(95)), Err(IoError::Os(95)));
}

#[test]
fn tcp_connect_keeps_the_hosts_descriptor() {
    assert_eq!(TcpStream::connect_request(&V4), Ok(Addr::encode(0x0808_0808, 53)));
    assert_eq!(TcpStream::connect(Ok(5)).unwrap().fd(), 5);
    assert_eq!(TcpStream::connect(Err(111)).unwrap_err(), IoError::Os(111));
}

#[test]
fn tcp_read_copies_what_fits() {
    let stream = TcpStream::connect(Ok(5)).unwrap();
    let mut buf = vec![0u8; 4];
    assert_eq!(stream.inner_read(&mut buf, Ok(vec![1, 2])), Ok(2));
    assert_eq!(buf, vec![1, 2, 0, 0]);
    let mut buf = vec![9u8; 2];
    assert_eq!(stream.inner_read(&mut buf, Ok(vec![1, 2, 3, 4])), Ok(2));
    assert_eq!(buf, vec![1, 2]);
    let mut buf = vec![9u8; 3];
    assert_eq!(stream.inner_read(&mut buf, Ok(vec![])), Ok(0));
    assert_eq!(buf, vec![9, 9, 9]);
    let mut buf: Vec<u8> = Vec::new();
    assert_eq!(stream.inner_read(&mut buf, Ok(vec![1])), Ok(0));
    assert!(buf.is_empty());
}

#[test]
fn tcp_read_failure_leaves_buffer() {
    let stream = TcpStream::connect(Ok(5)).unwrap();
    let mut buf = vec![9u8; 3];
    assert_eq!(stream.inner_read(&mut buf, Err(104)), Err(IoError::Os(104)));
    assert_eq!(buf, vec![9, 9, 9]);
}

#[test]
fn tcp_write_and_flush_results() {
    let stream = TcpStream::connect(Ok(5)).unwrap();
    assert_eq!(stream.inner_write(Ok(10)), Ok(10));
    assert_eq!(stream.inner_write(Err(32)), Err(IoError::Os(32)));
    assert_eq!(stream.inner_flush(Ok(())), Ok(()));
    assert_eq!(stream.inner_flush(Err(9)), Err(IoError::Os(9)));
}

#[test]
fn tcp_listen_and_accept() {
    assert_eq!(TcpListener::listen_request(&V4), Ok(Addr::encode(0x0808_0808, 53)));
    let listener = TcpListener::listen(Ok(3)).unwrap();
    assert_eq!(listener.fd(), 3);
    assert_eq!(TcpListener::listen(Err(98)).unwrap_err(), IoError::Os(98));
    let peer = Addr { addr: 0x0100_007f, port: 0x3500 };
    let (stream, addr) = listener.accept(Ok((8, peer))).unwrap();
    assert_eq!(stream.fd(), 8);
    assert_eq!(addr, SocketAddr { ip: IpAddr::V4(0x7f00_0001), port: 53 });
    assert_eq!(listener.accept(Err(9)).unwrap_err(), IoError::Os(9));
}
