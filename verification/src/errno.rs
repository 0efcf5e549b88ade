//! Error numbers as the capability interface reports them to a plugin.

use vstd::prelude::*;

verus! {

/// The error number reported for a failure that carries none of the
/// operating system's.
pub const GENERIC_ERROR: u32 = 1;

/// Why a socket call failed: the operating system's error number, where the
/// failure came with one.
#[derive(Clone, Copy, Debug, PartialEq, Eq, Structural)]
pub struct IoFailure {
    pub raw_os_error: Option<i32>,
}

/// The error number that stands for a failure: the operating system's number
/// reinterpreted as unsigned, or `GENERIC_ERROR` where there is none.
pub open spec fn spec_errno(err: IoFailure) -> u32 {
    match err.raw_os_error {
        Some(code) => code as u32,
        None => GENERIC_ERROR,
    }
}

/// Maps a failed socket call to the error number handed to the plugin.
pub fn io_err_to_errno(err: IoFailure) -> (errno: u32)
    ensures
        errno == spec_errno(err),
{
    match err.raw_os_error {
        Some(code) => #[verifier::truncate] (code as u32),
        None => GENERIC_ERROR,
    }
}

/// The two error numbers that the host reports of its own accord.
#[derive(Clone, Copy, Debug, PartialEq, Eq, Structural)]
pub struct HostErrnos {
    /// The descriptor names no open socket, or one of the wrong kind.
    pub bad_descriptor: u32,
    /// The address is not an IPv4 address.
    pub not_supported: u32,
}

/// `libc::EBADF`, the platform's number for a bad descriptor.
#[verifier::external_body]
fn platform_ebadf() -> u32 {
    libc::EBADF as u32
}

/// `libc::ENOTSUP`, the platform's number for an unsupported operation.
#[verifier::external_body]
fn platform_enotsup() -> u32 {
    libc::ENOTSUP as u32
}

impl HostErrnos {
    /// The error numbers of the platform that the host runs on.
    pub fn platform() -> HostErrnos {
        HostErrnos { bad_descriptor: platform_ebadf(), not_supported: platform_enotsup() }
    }
}

} // verus!
