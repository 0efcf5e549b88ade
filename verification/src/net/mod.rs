//! Sockets as a plugin sees them.
//!
//! A plugin has no sockets of its own: it asks the host, and holds the
//! descriptor that the host answered with. Each operation here comes in two
//! parts. The `*_request` function says what to ask the host; the function
//! named after the operation takes the host's answer and gives the plugin
//! its result.

pub mod tcp;
pub mod udp;

use crate::addr::{Addr, IpAddr, SocketAddr};
use vstd::prelude::*;

verus! {

/// Why an operation on a plugin's socket failed.
#[derive(Clone, Copy, Debug, PartialEq, Eq, Structural)]
pub enum IoError {
    /// The host reported this error number.
    Os(i32),
    /// The address is not an IPv4 address.
    Unsupported,
}

/// The error that stands for an error number of the host.
pub open spec fn spec_from_errno(errno: u32) -> IoError {
    IoError::Os(errno as i32)
}

/// The error that stands for an error number of the host.
pub fn from_errno(errno: u32) -> (err: IoError)
    ensures
        err == spec_from_errno(errno),
{
    IoError::Os(#[verifier::truncate] (errno as i32))
}

/// The interface form of `addr`, which must be an IPv4 address.
pub open spec fn spec_request_addr(addr: SocketAddr) -> Result<Addr, IoError> {
    match addr.ip {
        IpAddr::V4(bits) => Ok(Addr::spec_encode(bits, addr.port)),
        IpAddr::V6(_) => Err(IoError::Unsupported),
    }
}

/// The IPv4 address of `addr` in interface form; an IPv6 address is refused
/// as unsupported.
pub fn get_ipv4_be(addr: &SocketAddr) -> (answer: Result<u32, IoError>)
    ensures
        match spec_request_addr(*addr) {
            Ok(wire) => answer == Ok::<u32, IoError>(wire.addr),
            Err(err) => answer == Err::<u32, IoError>(err),
        },
{
    match addr.ip {
        IpAddr::V4(bits) => Ok(Addr::encode(bits, addr.port).addr),
        IpAddr::V6(_) => Err(IoError::Unsupported),
    }
}

/// The interface form of `addr`; an IPv6 address is refused as unsupported.
pub fn request_addr(addr: &SocketAddr) -> (answer: Result<Addr, IoError>)
    ensures
        answer == spec_request_addr(*addr),
{
    match get_ipv4_be(addr) {
        Err(err) => Err(err),
        Ok(ip) => Ok(Addr { addr: ip, port: crate::addr::reverse16(addr.port) }),
    }
}

/// The plugin's result for a call that the host answers with a descriptor.
pub open spec fn spec_opened(answer: Result<u32, u32>) -> Result<u32, IoError> {
    match answer {
        Ok(fd) => Ok(fd),
        Err(errno) => Err(spec_from_errno(errno)),
    }
}

/// The plugin's result for a call that the host answers with a byte count.
pub open spec fn spec_count(answer: Result<u64, u32>) -> Result<usize, IoError> {
    match answer {
        Ok(n) => Ok(n as usize),
        Err(errno) => Err(spec_from_errno(errno)),
    }
}

/// The plugin's result for a call that the host answers with nothing.
pub open spec fn spec_done(answer: Result<(), u32>) -> Result<(), IoError> {
    match answer {
        Ok(()) => Ok(()),
        Err(errno) => Err(spec_from_errno(errno)),
    }
}

/// The plugin's result for a call that the host answers with bytes.
pub open spec fn spec_bytes(answer: Result<Vec<u8>, u32>) -> Result<Seq<u8>, IoError> {
    match answer {
        Ok(data) => Ok(data@),
        Err(errno) => Err(spec_from_errno(errno)),
    }
}

} // verus!
