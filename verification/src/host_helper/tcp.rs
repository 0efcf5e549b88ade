//! The TCP sockets that one plugin instance holds open.
//!
//! A descriptor names either a listening socket or a connected stream, and
//! each call of the plugin is for one of the two: accepting on a stream, or
//! reading, writing or flushing a listener, is refused like a descriptor that
//! names nothing. As with UDP, the table lends the socket out and the
//! matching `inner_*` function turns what the operating system reported into
//! the plugin's result.

use crate::addr::{reverse16, Addr, IpAddr, SocketAddr};
use crate::errno::{io_err_to_errno, spec_errno, HostErrnos, IoFailure};
use crate::host_helper::udp::{descriptor, received, spec_descriptor, spec_recv, spec_sent};
use std::collections::HashMap;
use vstd::prelude::*;

verus! {

broadcast use vstd::std_specs::hash::group_hash_axioms;

/// An open TCP socket: a connected stream or a listener.
#[derive(Debug)]
pub enum Tcp<St, Li> {
    Stream(St),
    Listener(Li),
}

/// The IPv4 address of `addr` in interface form, or the error number for an
/// unsupported operation where `addr` is an IPv6 address.
pub open spec fn spec_ipv4_be(addr: SocketAddr, errnos: HostErrnos) -> Result<u32, u32> {
    match addr.ip {
        IpAddr::V4(bits) => Ok(Addr::spec_encode(bits, addr.port).addr),
        IpAddr::V6(_) => Err(errnos.not_supported),
    }
}

/// The IPv4 address of `addr` in interface form; an IPv6 address is refused
/// as not supported.
pub fn get_ipv4_be(addr: &SocketAddr, errnos: HostErrnos) -> (answer: Result<u32, u32>)
    ensures
        answer == spec_ipv4_be(*addr, errnos),
{
    match addr.ip {
        IpAddr::V4(bits) => Ok(Addr::encode(bits, addr.port).addr),
        IpAddr::V6(_) => Err(errnos.not_supported),
    }
}

/// What a plugin gets for an accept that the operating system completed with
/// the descriptor `raw` and the peer `peer`.
pub open spec fn spec_accepted(raw: i32, peer: SocketAddr, errnos: HostErrnos) -> Result<
    (u32, Addr),
    u32,
> {
    match peer.ip {
        IpAddr::V4(bits) => Ok((spec_descriptor(raw), Addr::spec_encode(bits, peer.port))),
        IpAddr::V6(_) => Err(errnos.not_supported),
    }
}

/// The table of open TCP sockets of one plugin instance.
#[derive(Debug)]
pub struct TcpHelper<St, Li> {
    fd_map: HashMap<u32, Tcp<St, Li>>,
    errnos: HostErrnos,
}

impl<St, Li> View for TcpHelper<St, Li> {
    type V = Map<u32, Tcp<St, Li>>;

    closed spec fn view(&self) -> Map<u32, Tcp<St, Li>> {
        self.fd_map@
    }
}

impl<St, Li> TcpHelper<St, Li> {
    /// The error numbers that this table reports of its own accord.
    pub closed spec fn errnos(&self) -> HostErrnos {
        self.errnos
    }

    /// What `get_tcp_stream` answers for `fd`.
    pub open spec fn spec_stream(&self, fd: u32) -> Result<St, u32> {
        if self@.contains_key(fd) && self@[fd] is Stream {
            Ok(self@[fd]->Stream_0)
        } else {
            Err(self.errnos().bad_descriptor)
        }
    }

    /// What `get_tcp_listener` answers for `fd`.
    pub open spec fn spec_listener(&self, fd: u32) -> Result<Li, u32> {
        if self@.contains_key(fd) && self@[fd] is Listener {
            Ok(self@[fd]->Listener_0)
        } else {
            Err(self.errnos().bad_descriptor)
        }
    }

    /// An empty table that reports the platform's error numbers.
    pub fn new() -> (helper: Self)
        ensures
            helper@ == Map::<u32, Tcp<St, Li>>::empty(),
    {
        TcpHelper { fd_map: HashMap::new(), errnos: HostErrnos::platform() }
    }

    /// An empty table that reports the given error numbers.
    pub fn with_errnos(errnos: HostErrnos) -> (helper: Self)
        ensures
            helper@ == Map::<u32, Tcp<St, Li>>::empty(),
            helper.errnos() == errnos,
    {
        TcpHelper { fd_map: HashMap::new(), errnos }
    }

    /// The error numbers that this table reports of its own accord.
    pub fn host_errnos(&self) -> (errnos: HostErrnos)
        ensures
            errnos == self.errnos(),
    {
        self.errnos
    }

    /// The number of open sockets.
    pub fn len(&self) -> (n: usize)
        ensures
            n == self@.len(),
    {
        self.fd_map.len()
    }

    /// The connected stream that the plugin knows as `fd`. A descriptor that
    /// names nothing, or names a listener, is a bad descriptor.
    pub fn get_tcp_stream(&self, fd: u32) -> (found: Result<&St, u32>)
        ensures
            match found {
                Ok(stream) => self.spec_stream(fd) == Ok::<St, u32>(*stream),
                Err(errno) => self.spec_stream(fd) == Err::<St, u32>(errno),
            },
    {
        match self.fd_map.get(&fd) {
            None => Err(self.errnos.bad_descriptor),
            Some(Tcp::Listener(_)) => Err(self.errnos.bad_descriptor),
            Some(Tcp::Stream(stream)) => Ok(stream),
        }
    }

    /// The listener that the plugin knows as `fd`. A descriptor that names
    /// nothing, or names a connected stream, is a bad descriptor.
    pub fn get_tcp_listener(&self, fd: u32) -> (found: Result<&Li, u32>)
        ensures
            match found {
                Ok(listener) => self.spec_listener(fd) == Ok::<Li, u32>(*listener),
                Err(errno) => self.spec_listener(fd) == Err::<Li, u32>(errno),
            },
    {
        match self.fd_map.get(&fd) {
            None => Err(self.errnos.bad_descriptor),
            Some(Tcp::Stream(_)) => Err(self.errnos.bad_descriptor),
            Some(Tcp::Listener(listener)) => Ok(listener),
        }
    }

    /// Takes over a listener that the operating system has bound, and
    /// answers the plugin with its descriptor. A failed bind changes nothing
    /// and is answered with its error number.
    pub fn inner_bind(&mut self, bound: Result<(i32, Li), IoFailure>) -> (answer: Result<
        u32,
        u32,
    >)
        ensures
            final(self).errnos() == old(self).errnos(),
            match bound {
                Ok((raw, listener)) => {
                    &&& answer == Ok::<u32, u32>(spec_descriptor(raw))
                    &&& final(self)@ == old(self)@.insert(
                        spec_descriptor(raw),
                        Tcp::Listener(listener),
                    )
                },
                Err(err) => {
                    &&& answer == Err::<u32, u32>(spec_errno(err))
                    &&& final(self)@ == old(self)@
                },
            },
    {
        match bound {
            Err(err) => Err(io_err_to_errno(err)),
            Ok((raw, listener)) => {
                let fd = descriptor(raw);
                self.fd_map.insert(fd, Tcp::Listener(listener));
                Ok(fd)
            },
        }
    }

    /// Takes over a stream that a listener has accepted, and answers the
    /// plugin with its descriptor and the peer in interface form. The stream
    /// is kept even where the peer has an IPv6 address and the plugin is
    /// told that this is not supported. A failed accept changes nothing and
    /// is answered with its error number.
    pub fn inner_accept(&mut self, accepted: Result<(i32, St, SocketAddr), IoFailure>) -> (answer:
        Result<(u32, Addr), u32>)
        ensures
            final(self).errnos() == old(self).errnos(),
            match accepted {
                Ok((raw, stream, peer)) => {
                    &&& answer == spec_accepted(raw, peer, old(self).errnos())
                    &&& final(self)@ == old(self)@.insert(spec_descriptor(raw), Tcp::Stream(stream))
                },
                Err(err) => {
                    &&& answer == Err::<(u32, Addr), u32>(spec_errno(err))
                    &&& final(self)@ == old(self)@
                },
            },
    {
        match accepted {
            Err(err) => Err(io_err_to_errno(err)),
            Ok((raw, stream, peer)) => {
                let fd = descriptor(raw);
                self.fd_map.insert(fd, Tcp::Stream(stream));
                match get_ipv4_be(&peer, self.errnos) {
                    Err(errno) => Err(errno),
                    Ok(ip) => Ok((fd, Addr { addr: ip, port: reverse16(peer.port) })),
                }
            },
        }
    }

    /// Takes over a stream that the operating system has connected, and
    /// answers the plugin with its descriptor. A failed connect changes
    /// nothing and is answered with its error number.
    pub fn inner_connect(&mut self, connected: Result<(i32, St), IoFailure>) -> (answer: Result<
        u32,
        u32,
    >)
        ensures
            final(self).errnos() == old(self).errnos(),
            match connected {
                Ok((raw, stream)) => {
                    &&& answer == Ok::<u32, u32>(spec_descriptor(raw))
                    &&& final(self)@ == old(self)@.insert(spec_descriptor(raw), Tcp::Stream(stream))
                },
                Err(err) => {
                    &&& answer == Err::<u32, u32>(spec_errno(err))
                    &&& final(self)@ == old(self)@
                },
            },
    {
        match connected {
            Err(err) => Err(io_err_to_errno(err)),
            Ok((raw, stream)) => {
                let fd = descriptor(raw);
                self.fd_map.insert(fd, Tcp::Stream(stream));
                Ok(fd)
            },
        }
    }

    /// The plugin's result for a write.
    pub fn inner_write(outcome: Result<usize, IoFailure>) -> (answer: Result<u64, u32>)
        ensures
            answer == spec_sent(outcome),
    {
        match outcome {
            Ok(written) => Ok(written as u64),
            Err(err) => Err(io_err_to_errno(err)),
        }
    }

    /// The plugin's result for a flush.
    pub fn inner_flush(outcome: Result<(), IoFailure>) -> (answer: Result<(), u32>)
        ensures
            match outcome {
                Ok(()) => answer == Ok::<(), u32>(()),
                Err(err) => answer == Err::<(), u32>(spec_errno(err)),
            },
    {
        match outcome {
            Ok(()) => Ok(()),
            Err(err) => Err(io_err_to_errno(err)),
        }
    }

    /// The plugin's result for a read into `buf`: the buffer cut down to what
    /// was read.
    pub fn inner_read(buf: Vec<u8>, outcome: Result<usize, IoFailure>) -> (answer: Result<
        Vec<u8>,
        u32,
    >)
        ensures
            match answer {
                Ok(data) => spec_recv(buf@, outcome) == Ok::<Seq<u8>, u32>(data@),
                Err(errno) => spec_recv(buf@, outcome) == Err::<Seq<u8>, u32>(errno),
            },
    {
        match outcome {
            Ok(n) => Ok(received(buf, n)),
            Err(err) => Err(io_err_to_errno(err)),
        }
    }

    /// Closes the socket that the plugin knows as `fd`, if there is one.
    pub fn close(&mut self, fd: u32)
        ensures
            final(self)@ == old(self)@.remove(fd),
            final(self).errnos() == old(self).errnos(),
    {
        self.fd_map.remove(&fd);
    }

    /// Closes every socket.
    pub fn reset(&mut self)
        ensures
            final(self)@ == Map::<u32, Tcp<St, Li>>::empty(),
            final(self).errnos() == old(self).errnos(),
    {
        self.fd_map.clear();
    }
}

/// A descriptor that has been closed names neither a stream nor a listener,
/// whatever it named before, and closing it changes what no other descriptor
/// names.
pub proof fn lemma_closed_is_bad_descriptor<St, Li>(
    before: TcpHelper<St, Li>,
    after: TcpHelper<St, Li>,
    fd: u32,
    other: u32,
)
    requires
        after@ == before@.remove(fd),
        after.errnos() == before.errnos(),
        other != fd,
    ensures
        after.spec_stream(fd) == Err::<St, u32>(after.errnos().bad_descriptor),
        after.spec_listener(fd) == Err::<Li, u32>(after.errnos().bad_descriptor),
        after.spec_stream(other) == before.spec_stream(other),
        after.spec_listener(other) == before.spec_listener(other),
{
}

/// A descriptor under which a stream has been put names that stream, and is
/// a bad descriptor for whoever asks for a listener.
pub proof fn lemma_stream_is_no_listener<St, Li>(
    before: TcpHelper<St, Li>,
    after: TcpHelper<St, Li>,
    raw: i32,
    stream: St,
)
    requires
        after@ == before@.insert(spec_descriptor(raw), Tcp::Stream(stream)),
    ensures
        after.spec_stream(spec_descriptor(raw)) == Ok::<St, u32>(stream),
        after.spec_listener(spec_descriptor(raw)) == Err::<Li, u32>(
            after.errnos().bad_descriptor,
        ),
{
}

/// A descriptor under which a listener has been put names that listener, and
/// is a bad descriptor for whoever asks for a stream.
pub proof fn lemma_listener_is_no_stream<St, Li>(
    before: TcpHelper<St, Li>,
    after: TcpHelper<St, Li>,
    raw: i32,
    listener: Li,
)
    requires
        after@ == before@.insert(spec_descriptor(raw), Tcp::Listener(listener)),
    ensures
        after.spec_listener(spec_descriptor(raw)) == Ok::<Li, u32>(listener),
        after.spec_stream(spec_descriptor(raw)) == Err::<St, u32>(after.errnos().bad_descriptor),
{
}

/// After a reset every descriptor is a bad descriptor.
pub proof fn lemma_reset_closes_all<St, Li>(after: TcpHelper<St, Li>, fd: u32)
    requires
        after@ == Map::<u32, Tcp<St, Li>>::empty(),
    ensures
        after.spec_stream(fd) == Err::<St, u32>(after.errnos().bad_descriptor),
        after.spec_listener(fd) == Err::<Li, u32>(after.errnos().bad_descriptor),
{
}

} // verus!
