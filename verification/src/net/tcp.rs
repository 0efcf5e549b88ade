//! The TCP sockets of a plugin: connected streams and listeners.

use crate::addr::{Addr, SocketAddr};
use crate::net::{
    from_errno, request_addr, spec_count, spec_done, spec_from_errno, spec_opened,
    spec_request_addr, IoError,
};
use vstd::prelude::*;

verus! {

/// A connected TCP stream that the host holds for the plugin.
#[derive(Debug)]
pub struct TcpStream {
    fd: u32,
}

/// The number of bytes that a read of `data` puts into a buffer of length
/// `room`.
pub open spec fn spec_read_len(data: Seq<u8>, room: nat) -> nat {
    if data.len() <= room {
        data.len()
    } else {
        room
    }
}

/// The buffer `buf` after a read of `data` into it: as much of `data` as
/// fits, followed by what `buf` held beyond that.
pub open spec fn spec_read_into(buf: Seq<u8>, data: Seq<u8>) -> Seq<u8> {
    let n = spec_read_len(data, buf.len()) as int;
    data.subrange(0, n) + buf.subrange(n, buf.len() as int)
}

impl TcpStream {
    /// The descriptor by which the host knows this stream.
    pub closed spec fn spec_fd(&self) -> u32 {
        self.fd
    }

    /// The descriptor by which the host knows this stream. The host is asked
    /// to close it when the plugin is done with the stream.
    pub fn fd(&self) -> (fd: u32)
        ensures
            fd == self.spec_fd(),
    {
        self.fd
    }

    /// What to ask the host in order to connect a stream to `addr`.
    pub fn connect_request(addr: &SocketAddr) -> (request: Result<Addr, IoError>)
        ensures
            request == spec_request_addr(*addr),
    {
        request_addr(addr)
    }

    /// The stream that the host connected, from its answer to the connect.
    pub fn connect(answer: Result<u32, u32>) -> (stream: Result<TcpStream, IoError>)
        ensures
            match stream {
                Ok(s) => spec_opened(answer) == Ok::<u32, IoError>(s.spec_fd()),
                Err(err) => spec_opened(answer) == Err::<u32, IoError>(err),
            },
    {
        match answer {
            Ok(fd) => Ok(TcpStream { fd }),
            Err(errno) => Err(from_errno(errno)),
        }
    }

    /// Copies what the host read into `buf`, as far as it fits, and reports
    /// how many bytes that was. The host is asked for `buf.len()` bytes at
    /// most, so all of its answer fits unless the host sent more than it was
    /// asked for.
    pub fn inner_read(&self, buf: &mut [u8], answer: Result<Vec<u8>, u32>) -> (read: Result<
        usize,
        IoError,
    >)
        ensures
            match answer {
                Ok(data) => {
                    &&& read == Ok::<usize, IoError>(
                        spec_read_len(data@, old(buf)@.len()) as usize,
                    )
                    &&& final(buf)@ == spec_read_into(old(buf)@, data@)
                },
                Err(errno) => {
                    &&& read == Err::<usize, IoError>(spec_from_errno(errno))
                    &&& final(buf)@ == old(buf)@
                },
            },
    {
        match answer {
            Err(errno) => Err(from_errno(errno)),
            Ok(data) => {
                let n: usize = if data.len() <= buf.len() {
                    data.len()
                } else {
                    buf.len()
                };
                let mut i: usize = 0;
                while i < n
                    invariant
                        i <= n,
                        n <= data@.len(),
                        n <= buf@.len(),
                        buf@.len() == old(buf)@.len(),
                        buf@ == data@.subrange(0, i as int) + old(buf)@.subrange(
                            i as int,
                            old(buf)@.len() as int,
                        ),
                    decreases n - i,
                {
                    buf[i] = data[i];
                    i = i + 1;
                    assert(buf@ =~= data@.subrange(0, i as int) + old(buf)@.subrange(
                        i as int,
                        old(buf)@.len() as int,
                    ));
                }
                assert(buf@ =~= spec_read_into(old(buf)@, data@));
                Ok(n)
            },
        }
    }

    /// The number of bytes written, from the host's answer to a write.
    pub fn inner_write(&self, answer: Result<u64, u32>) -> (written: Result<usize, IoError>)
        ensures
            written == spec_count(answer),
    {
        match answer {
            Ok(n) => Ok(#[verifier::truncate] (n as usize)),
            Err(errno) => Err(from_errno(errno)),
        }
    }

    /// The plugin's result for a flush, from the host's answer.
    pub fn inner_flush(&self, answer: Result<(), u32>) -> (done: Result<(), IoError>)
        ensures
            done == spec_done(answer),
    {
        match answer {
            Ok(()) => Ok(()),
            Err(errno) => Err(from_errno(errno)),
        }
    }
}

/// A TCP listener that the host holds for the plugin.
#[derive(Debug)]
pub struct TcpListener {
    fd: u32,
}

impl TcpListener {
    /// The descriptor by which the host knows this listener.
    pub closed spec fn spec_fd(&self) -> u32 {
        self.fd
    }

    /// The descriptor by which the host knows this listener.
    pub fn fd(&self) -> (fd: u32)
        ensures
            fd == self.spec_fd(),
    {
        self.fd
    }

    /// What to ask the host in order to listen on `addr`.
    pub fn listen_request(addr: &SocketAddr) -> (request: Result<Addr, IoError>)
        ensures
            request == spec_request_addr(*addr),
    {
        request_addr(addr)
    }

    /// The listener that the host bound, from its answer to the bind.
    pub fn listen(answer: Result<u32, u32>) -> (listener: Result<TcpListener, IoError>)
        ensures
            match listener {
                Ok(l) => spec_opened(answer) == Ok::<u32, IoError>(l.spec_fd()),
                Err(err) => spec_opened(answer) == Err::<u32, IoError>(err),
            },
    {
        match answer {
            Ok(fd) => Ok(TcpListener { fd }),
            Err(errno) => Err(from_errno(errno)),
        }
    }

    /// The stream that the host accepted and its peer, from the host's answer
    /// to an accept.
    pub fn accept(&self, answer: Result<(u32, Addr), u32>) -> (accepted: Result<
        (TcpStream, SocketAddr),
        IoError,
    >)
        ensures
            match answer {
                Ok((fd, peer)) => accepted is Ok && accepted->Ok_0.0.spec_fd() == fd
                    && accepted->Ok_0.1 == peer.spec_decode(),
                Err(errno) => accepted is Err && accepted->Err_0 == spec_from_errno(errno),
            },
    {
        match answer {
            Ok((fd, peer)) => Ok((TcpStream { fd }, peer.decode())),
            Err(errno) => Err(from_errno(errno)),
        }
    }
}

} // verus!
