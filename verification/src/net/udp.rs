//! A UDP socket of a plugin.

use crate::addr::{Addr, SocketAddr};
use crate::net::{
    from_errno, request_addr, spec_bytes, spec_count, spec_done, spec_from_errno, spec_opened,
    spec_request_addr, IoError,
};
use vstd::prelude::*;

verus! {

/// A UDP socket that the host holds for the plugin.
#[derive(Debug)]
pub struct UdpSocket {
    fd: u32,
}

impl UdpSocket {
    /// The descriptor by which the host knows this socket.
    pub closed spec fn spec_fd(&self) -> u32 {
        self.fd
    }

    /// The descriptor by which the host knows this socket. The host is asked
    /// to close it when the plugin is done with the socket.
    pub fn fd(&self) -> (fd: u32)
        ensures
            fd == self.spec_fd(),
    {
        self.fd
    }

    /// What to ask the host in order to bind a socket to `addr`.
    pub fn bind_request(addr: &SocketAddr) -> (request: Result<Addr, IoError>)
        ensures
            request == spec_request_addr(*addr),
    {
        request_addr(addr)
    }

    /// The socket that the host bound, from its answer to the bind.
    pub fn bind(answer: Result<u32, u32>) -> (socket: Result<UdpSocket, IoError>)
        ensures
            match socket {
                Ok(s) => spec_opened(answer) == Ok::<u32, IoError>(s.spec_fd()),
                Err(err) => spec_opened(answer) == Err::<u32, IoError>(err),
            },
    {
        match answer {
            Ok(fd) => Ok(UdpSocket { fd }),
            Err(errno) => Err(from_errno(errno)),
        }
    }

    /// What to ask the host in order to connect this socket to `addr`: the
    /// descriptor and the address in interface form.
    pub fn connect_request(&self, addr: &SocketAddr) -> (request: Result<(u32, Addr), IoError>)
        ensures
            match spec_request_addr(*addr) {
                Ok(wire) => request == Ok::<(u32, Addr), IoError>((self.spec_fd(), wire)),
                Err(err) => request == Err::<(u32, Addr), IoError>(err),
            },
    {
        match request_addr(addr) {
            Ok(wire) => Ok((self.fd, wire)),
            Err(err) => Err(err),
        }
    }

    /// The plugin's result for a connect, from the host's answer.
    pub fn connect(&self, answer: Result<(), u32>) -> (done: Result<(), IoError>)
        ensures
            done == spec_done(answer),
    {
        match answer {
            Ok(()) => Ok(()),
            Err(errno) => Err(from_errno(errno)),
        }
    }

    /// The number of bytes sent, from the host's answer to a send.
    pub fn send(&self, answer: Result<u64, u32>) -> (sent: Result<usize, IoError>)
        ensures
            sent == spec_count(answer),
    {
        match answer {
            Ok(n) => Ok(#[verifier::truncate] (n as usize)),
            Err(errno) => Err(from_errno(errno)),
        }
    }

    /// The bytes received, from the host's answer to a receive.
    pub fn recv(&self, answer: Result<Vec<u8>, u32>) -> (data: Result<Vec<u8>, IoError>)
        ensures
            match data {
                Ok(bytes) => spec_bytes(answer) == Ok::<Seq<u8>, IoError>(bytes@),
                Err(err) => spec_bytes(answer) == Err::<Seq<u8>, IoError>(err),
            },
    {
        match answer {
            Ok(bytes) => Ok(bytes),
            Err(errno) => Err(from_errno(errno)),
        }
    }

    /// The bytes received, from the host's answer to a receive of at most a
    /// given size.
    pub fn recv_size(&self, answer: Result<Vec<u8>, u32>) -> (data: Result<Vec<u8>, IoError>)
        ensures
            match data {
                Ok(bytes) => spec_bytes(answer) == Ok::<Seq<u8>, IoError>(bytes@),
                Err(err) => spec_bytes(answer) == Err::<Seq<u8>, IoError>(err),
            },
    {
        self.recv(answer)
    }

    /// What to ask the host in order to send to `addr`: the descriptor and
    /// the address in interface form.
    pub fn send_to_request(&self, addr: &SocketAddr) -> (request: Result<(u32, Addr), IoError>)
        ensures
            match spec_request_addr(*addr) {
                Ok(wire) => request == Ok::<(u32, Addr), IoError>((self.spec_fd(), wire)),
                Err(err) => request == Err::<(u32, Addr), IoError>(err),
            },
    {
        self.connect_request(addr)
    }

    /// The number of bytes sent, from the host's answer to a send to a given
    /// address.
    pub fn send_to(&self, answer: Result<u64, u32>) -> (sent: Result<usize, IoError>)
        ensures
            sent == spec_count(answer),
    {
        self.send(answer)
    }

    /// The bytes received and their sender, from the host's answer to a
    /// receive that reports the sender.
    pub fn recv_from(&self, answer: Result<(Vec<u8>, Addr), u32>) -> (received: Result<
        (Vec<u8>, SocketAddr),
        IoError,
    >)
        ensures
            match answer {
                Ok((data, source)) => received == Ok::<(Vec<u8>, SocketAddr), IoError>(
                    (data, source.spec_decode()),
                ),
                Err(errno) => received == Err::<(Vec<u8>, SocketAddr), IoError>(
                    spec_from_errno(errno),
                ),
            },
    {
        match answer {
            Ok((data, source)) => Ok((data, source.decode())),
            Err(errno) => Err(from_errno(errno)),
        }
    }
}

} // verus!
