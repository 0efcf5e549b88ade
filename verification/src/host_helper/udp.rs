//! The UDP sockets that one plugin instance holds open.
//!
//! The table owns each socket under the descriptor that the plugin knows it
//! by. The socket type is left open: the table never looks inside a socket,
//! it only keeps it, lends it and drops it. Each call of the plugin is
//! answered in two steps: `socket` finds the socket or refuses the
//! descriptor, and once the caller has done the input or output the matching
//! `inner_*` function turns what the operating system reported into the
//! plugin's result.

use crate::addr::{Addr, IpAddr, SocketAddr};
use crate::errno::{io_err_to_errno, spec_errno, HostErrnos, IoFailure};
use std::collections::HashMap;
use vstd::prelude::*;

verus! {

broadcast use vstd::std_specs::hash::group_hash_axioms;

/// The descriptor under which a socket with the operating system's
/// descriptor `raw` is kept.
pub open spec fn spec_descriptor(raw: i32) -> u32 {
    raw as u32
}

/// The descriptor under which a socket with the operating system's
/// descriptor `raw` is kept.
pub fn descriptor(raw: i32) -> (fd: u32)
    ensures
        fd == spec_descriptor(raw),
{
    #[verifier::truncate]
    (raw as u32)
}

/// The first `n` bytes of `buf`, or all of it where it is shorter.
pub open spec fn spec_received(buf: Seq<u8>, n: usize) -> Seq<u8> {
    if n <= buf.len() {
        buf.subrange(0, n as int)
    } else {
        buf
    }
}

/// A buffer for the operating system to receive into: zeros, as many as the
/// plugin asked for as far as the machine can address them.
pub fn recv_buffer(buf_size: u64) -> (buf: Vec<u8>)
    ensures
        buf@ == Seq::new((buf_size as usize) as nat, |i: int| 0u8),
{
    let size: usize = #[verifier::truncate] (buf_size as usize);
    let buf = vec![0u8; size];
    assert(buf@ =~= Seq::new(size as nat, |i: int| 0u8));
    buf
}

/// What a plugin gets for a send: the number of bytes sent, or the error
/// number of the failure.
pub open spec fn spec_sent(outcome: Result<usize, IoFailure>) -> Result<u64, u32> {
    match outcome {
        Ok(sent) => Ok(sent as u64),
        Err(err) => Err(spec_errno(err)),
    }
}

/// What a plugin gets for a receive into `buf`: the bytes received, or the
/// error number of the failure.
pub open spec fn spec_recv(buf: Seq<u8>, outcome: Result<usize, IoFailure>) -> Result<
    Seq<u8>,
    u32,
> {
    match outcome {
        Ok(n) => Ok(spec_received(buf, n)),
        Err(err) => Err(spec_errno(err)),
    }
}

/// What a plugin gets for a receive into `buf` that also reports the sender.
/// A sender with an IPv6 address is refused as not supported.
pub open spec fn spec_recv_from(
    buf: Seq<u8>,
    outcome: Result<(usize, SocketAddr), IoFailure>,
    errnos: HostErrnos,
) -> Result<(Seq<u8>, Addr), u32> {
    match outcome {
        Err(err) => Err(spec_errno(err)),
        Ok((n, source)) => match source.ip {
            IpAddr::V4(bits) => Ok((spec_received(buf, n), Addr::spec_encode(bits, source.port))),
            IpAddr::V6(_) => Err(errnos.not_supported),
        },
    }
}

/// Cuts a receive buffer down to the `n` bytes that were received.
pub fn received(buf: Vec<u8>, n: usize) -> (data: Vec<u8>)
    ensures
        data@ == spec_received(buf@, n),
{
    let mut data = buf;
    if n <= data.len() {
        data.truncate(n);
    }
    data
}

/// The table of open UDP sockets of one plugin instance.
#[derive(Debug)]
pub struct UdpHelper<S> {
    fd_map: HashMap<u32, S>,
    errnos: HostErrnos,
}

impl<S> View for UdpHelper<S> {
    type V = Map<u32, S>;

    closed spec fn view(&self) -> Map<u32, S> {
        self.fd_map@
    }
}

impl<S> UdpHelper<S> {
    /// The error numbers that this table reports of its own accord.
    pub closed spec fn errnos(&self) -> HostErrnos {
        self.errnos
    }

    /// What `socket` answers for `fd`.
    pub open spec fn spec_socket(&self, fd: u32) -> Result<S, u32> {
        if self@.contains_key(fd) {
            Ok(self@[fd])
        } else {
            Err(self.errnos().bad_descriptor)
        }
    }

    /// An empty table that reports the platform's error numbers.
    pub fn new() -> (helper: Self)
        ensures
            helper@ == Map::<u32, S>::empty(),
    {
        UdpHelper { fd_map: HashMap::new(), errnos: HostErrnos::platform() }
    }

    /// An empty table that reports the given error numbers.
    pub fn with_errnos(errnos: HostErrnos) -> (helper: Self)
        ensures
            helper@ == Map::<u32, S>::empty(),
            helper.errnos() == errnos,
    {
        UdpHelper { fd_map: HashMap::new(), errnos }
    }

    /// The error numbers that this table reports of its own accord.
    pub fn host_errnos(&self) -> (errnos: HostErrnos)
        ensures
            errnos == self.errnos(),
    {
        self.errnos
    }

    /// The number of open sockets.
    pub fn len(&self) -> (n: usize)
        ensures
            n == self@.len(),
    {
        self.fd_map.len()
    }

    /// The socket that the plugin knows as `fd`, or the error number for a
    /// bad descriptor where it knows none.
    pub fn socket(&self, fd: u32) -> (found: Result<&S, u32>)
        ensures
            match found {
                Ok(socket) => self.spec_socket(fd) == Ok::<S, u32>(*socket),
                Err(errno) => self.spec_socket(fd) == Err::<S, u32>(errno),
            },
    {
        match self.fd_map.get(&fd) {
            None => Err(self.errnos.bad_descriptor),
            Some(socket) => Ok(socket),
        }
    }

    /// Takes over a socket that the operating system has bound, and answers
    /// the plugin with its descriptor. A failed bind changes nothing and is
    /// answered with its error number.
    pub fn inner_bind(&mut self, bound: Result<(i32, S), IoFailure>) -> (answer: Result<u32, u32>)
        ensures
            final(self).errnos() == old(self).errnos(),
            match bound {
                Ok((raw, socket)) => {
                    &&& answer == Ok::<u32, u32>(spec_descriptor(raw))
                    &&& final(self)@ == old(self)@.insert(spec_descriptor(raw), socket)
                },
                Err(err) => {
                    &&& answer == Err::<u32, u32>(spec_errno(err))
                    &&& final(self)@ == old(self)@
                },
            },
    {
        match bound {
            Err(err) => Err(io_err_to_errno(err)),
            Ok((raw, socket)) => {
                let fd = descriptor(raw);
                self.fd_map.insert(fd, socket);
                Ok(fd)
            },
        }
    }

    /// The plugin's result for a connect.
    pub fn inner_connect(outcome: Result<(), IoFailure>) -> (answer: Result<(), u32>)
        ensures
            match outcome {
                Ok(()) => answer == Ok::<(), u32>(()),
                Err(err) => answer == Err::<(), u32>(spec_errno(err)),
            },
    {
        match outcome {
            Ok(()) => Ok(()),
            Err(err) => Err(io_err_to_errno(err)),
        }
    }

    /// The plugin's result for a send on a connected socket.
    pub fn inner_send(outcome: Result<usize, IoFailure>) -> (answer: Result<u64, u32>)
        ensures
            answer == spec_sent(outcome),
    {
        match outcome {
            Ok(sent) => Ok(sent as u64),
            Err(err) => Err(io_err_to_errno(err)),
        }
    }

    /// The plugin's result for a receive into `buf`: the buffer cut down to
    /// what was received.
    pub fn inner_recv(buf: Vec<u8>, outcome: Result<usize, IoFailure>) -> (answer: Result<
        Vec<u8>,
        u32,
    >)
        ensures
            match answer {
                Ok(data) => spec_recv(buf@, outcome) == Ok::<Seq<u8>, u32>(data@),
                Err(errno) => spec_recv(buf@, outcome) == Err::<Seq<u8>, u32>(errno),
            },
    {
        match outcome {
            Ok(n) => Ok(received(buf, n)),
            Err(err) => Err(io_err_to_errno(err)),
        }
    }

    /// The plugin's result for a send to a given address.
    pub fn inner_send_to(outcome: Result<usize, IoFailure>) -> (answer: Result<u64, u32>)
        ensures
            answer == spec_sent(outcome),
    {
        match outcome {
            Ok(sent) => Ok(sent as u64),
            Err(err) => Err(io_err_to_errno(err)),
        }
    }

    /// The plugin's result for a receive that reports the sender: the buffer
    /// cut down to what was received, and the sender in interface form.
    pub fn inner_recv_from(
        &self,
        buf: Vec<u8>,
        outcome: Result<(usize, SocketAddr), IoFailure>,
    ) -> (answer: Result<(Vec<u8>, Addr), u32>)
        ensures
            match answer {
                Ok((data, source)) => spec_recv_from(buf@, outcome, self.errnos()) == Ok::<
                    (Seq<u8>, Addr),
                    u32,
                >((data@, source)),
                Err(errno) => spec_recv_from(buf@, outcome, self.errnos()) == Err::<
                    (Seq<u8>, Addr),
                    u32,
                >(errno),
            },
    {
        match outcome {
            Err(err) => Err(io_err_to_errno(err)),
            Ok((n, source)) => match source.ip {
                IpAddr::V6(_) => Err(self.errnos.not_supported),
                IpAddr::V4(bits) => Ok((received(buf, n), Addr::encode(bits, source.port))),
            },
        }
    }

    /// Closes the socket that the plugin knows as `fd`, if there is one.
    pub fn close(&mut self, fd: u32)
        ensures
            final(self)@ == old(self)@.remove(fd),
            final(self).errnos() == old(self).errnos(),
    {
        self.fd_map.remove(&fd);
    }

    /// Closes every socket.
    pub fn reset(&mut self)
        ensures
            final(self)@ == Map::<u32, S>::empty(),
            final(self).errnos() == old(self).errnos(),
    {
        self.fd_map.clear();
    }
}

/// A descriptor that has been closed is a bad descriptor, whatever it named
/// before, and closing it changes what no other descriptor names.
pub proof fn lemma_closed_is_bad_descriptor<S>(
    before: UdpHelper<S>,
    after: UdpHelper<S>,
    fd: u32,
    other: u32,
)
    requires
        after@ == before@.remove(fd),
        after.errnos() == before.errnos(),
        other != fd,
    ensures
        after.spec_socket(fd) == Err::<S, u32>(after.errnos().bad_descriptor),
        after.spec_socket(other) == before.spec_socket(other),
{
}

/// A descriptor names a socket again once a bind has put one under it: it
/// then names that socket.
pub proof fn lemma_bound_is_found<S>(
    before: UdpHelper<S>,
    after: UdpHelper<S>,
    raw: i32,
    socket: S,
)
    requires
        after@ == before@.insert(spec_descriptor(raw), socket),
    ensures
        after.spec_socket(spec_descriptor(raw)) == Ok::<S, u32>(socket),
{
}

/// After a reset every descriptor is a bad descriptor.
pub proof fn lemma_reset_closes_all<S>(after: UdpHelper<S>, fd: u32)
    requires
        after@ == Map::<u32, S>::empty(),
    ensures
        after.spec_socket(fd) == Err::<S, u32>(after.errnos().bad_descriptor),
{
}

/// A receive into a buffer of no bytes that the operating system reports as
/// done gives no bytes, and no error.
pub proof fn lemma_recv_of_nothing(buf: Seq<u8>, n: usize)
    requires
        buf.len() == 0,
    ensures
        spec_recv(buf, Ok(n)) == Ok::<Seq<u8>, u32>(Seq::<u8>::empty()),
{
    assert(spec_received(buf, n) =~= Seq::<u8>::empty());
}

/// What is received is never longer than the buffer it was received into.
pub proof fn lemma_received_fits(buf: Seq<u8>, n: usize)
    ensures
        spec_received(buf, n).len() <= buf.len(),
        spec_received(buf, n).len() <= n,
{
}

} // verus!
