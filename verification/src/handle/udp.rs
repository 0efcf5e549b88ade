//! A listener on a UDP socket.
//!
//! The socket type is left open. Receiving and sending are the caller's; what
//! is decided here is what a received datagram is, and what a send that the
//! operating system reported on amounts to.

use crate::dns::{check_decodes, complaint, decode_failure};
use crate::errno::IoFailure;
use crate::host_helper::udp::{received, spec_received};
use vstd::prelude::*;

verus! {

/// The size of the buffer that a query is received into.
pub const ACCEPT_BUFFER_LEN: u64 = 4096;

/// Why no query was accepted.
#[derive(Debug, PartialEq, Eq)]
pub enum AcceptError {
    /// Receiving failed.
    IoError(IoFailure),
    /// The codec refused what was received; the text is its complaint.
    ProtoError(String),
}

/// Why no query was accepted, with text as a sequence.
pub enum AcceptErrorView {
    IoError(IoFailure),
    ProtoError(Seq<char>),
}

impl View for AcceptError {
    type V = AcceptErrorView;

    open spec fn view(&self) -> AcceptErrorView {
        match self {
            AcceptError::IoError(err) => AcceptErrorView::IoError(*err),
            AcceptError::ProtoError(text) => AcceptErrorView::ProtoError(text@),
        }
    }
}

/// Why an answer was not sent.
#[derive(Clone, Copy, Debug, PartialEq, Eq, Structural)]
pub enum RespondError {
    /// Sending failed.
    IoError(IoFailure),
}

/// What a receive into `buf` amounts to, where the codec's check of the
/// received bytes gives `failure`: the sender and the bytes of the query.
pub open spec fn spec_accept<I>(
    buf: Seq<u8>,
    outcome: Result<(usize, I), IoFailure>,
    failure: Option<Seq<char>>,
) -> Result<(I, Seq<u8>), AcceptErrorView> {
    match outcome {
        Err(err) => Err(AcceptErrorView::IoError(err)),
        Ok((n, source)) => match failure {
            Some(text) => Err(AcceptErrorView::ProtoError(text)),
            None => Ok((source, spec_received(buf, n))),
        },
    }
}

/// An accepted query, with its bytes as a sequence.
pub open spec fn accepted_view<I>(accepted: Result<(I, Vec<u8>), AcceptError>) -> Result<
    (I, Seq<u8>),
    AcceptErrorView,
> {
    match accepted {
        Ok((source, packet)) => Ok((source, packet@)),
        Err(err) => Err(err@),
    }
}

/// The query that a datagram from `source` with the bytes `packet` is, where
/// the codec's check of the bytes gave `checked`.
pub fn accepted<I>(source: I, packet: Vec<u8>, checked: Result<(), String>) -> (query: Result<
    (I, Vec<u8>),
    AcceptError,
>)
    ensures
        accepted_view(query) == match complaint(checked) {
            Some(text) => Err::<(I, Seq<u8>), AcceptErrorView>(AcceptErrorView::ProtoError(text)),
            None => Ok::<(I, Seq<u8>), AcceptErrorView>((source, packet@)),
        },
{
    match checked {
        Ok(()) => Ok((source, packet)),
        Err(text) => Err(AcceptError::ProtoError(text)),
    }
}

/// A listener on a UDP socket of type `S`.
#[derive(Debug)]
pub struct UdpHandle<S> {
    udp_socket: S,
}

impl<S> UdpHandle<S> {
    /// The socket that the listener receives on and sends from.
    pub closed spec fn spec_socket(&self) -> S {
        self.udp_socket
    }

    /// A listener on a socket that is already bound.
    pub fn new(udp_socket: S) -> (handle: Self)
        ensures
            handle.spec_socket() == udp_socket,
    {
        UdpHandle { udp_socket }
    }

    /// The socket that the listener receives on and sends from.
    pub fn socket(&self) -> (socket: &S)
        ensures
            *socket == self.spec_socket(),
    {
        &self.udp_socket
    }

    /// The query that a receive into `buf` brought: the sender and the bytes
    /// received, provided the receive succeeded and the codec decodes the
    /// bytes.
    pub fn accept<I>(&self, buf: Vec<u8>, outcome: Result<(usize, I), IoFailure>) -> (query: Result<
        (I, Vec<u8>),
        AcceptError,
    >)
        ensures
            accepted_view(query) == spec_accept(
                buf@,
                outcome,
                match outcome {
                    Ok((n, _)) => decode_failure(spec_received(buf@, n)),
                    Err(_) => None,
                },
            ),
    {
        match outcome {
            Err(err) => Err(AcceptError::IoError(err)),
            Ok((n, source)) => {
                let packet = received(buf, n);
                let checked = check_decodes(&packet);
                accepted(source, packet, checked)
            },
        }
    }

    /// What a send of an answer amounts to.
    pub fn respond(&self, outcome: Result<usize, IoFailure>) -> (done: Result<(), RespondError>)
        ensures
            match outcome {
                Ok(_) => done == Ok::<(), RespondError>(()),
                Err(err) => done == Err::<(), RespondError>(RespondError::IoError(err)),
            },
    {
        match outcome {
            Ok(_) => Ok(()),
            Err(err) => Err(RespondError::IoError(err)),
        }
    }
}

} // verus!
