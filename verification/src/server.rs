//! What a server does with each query that its listener accepts.

use crate::dns::{bytes_or_text, decoded_wire, known_wire, servfail_reply, servfail_wire};
use crate::handle::udp::AcceptError;
use crate::plugins::pool::CallOutcome;
use crate::plugins::{answer_view, spec_handle_dns, Error, ErrorView};
use vstd::prelude::*;

verus! {

/// What the serving loop does after one round of accepting.
#[derive(Debug, PartialEq, Eq)]
pub enum ServeStep<I> {
    /// Answer this query of this sender, in a task of its own.
    Handle { identify: I, dns_packet: Vec<u8> },
    /// Nothing was accepted; go on accepting.
    Continue,
}

/// The serving loop's next step: a query that was accepted is handled, and a
/// failure to accept one is passed over. The loop ends on neither.
pub fn serve<I>(accepted: Result<(I, Vec<u8>), AcceptError>) -> (step: ServeStep<I>)
    ensures
        match accepted {
            Ok((identify, dns_packet)) => step == (ServeStep::Handle { identify, dns_packet }),
            Err(_) => step is Continue,
        },
{
    match accepted {
        Ok((identify, dns_packet)) => ServeStep::Handle { identify, dns_packet },
        Err(_) => ServeStep::Continue,
    }
}

/// The bytes to answer the request `dns_packet` with, where the chain gave
/// `handled`.
pub open spec fn spec_handle<E>(dns_packet: Seq<u8>, handled: Result<Seq<u8>, ErrorView<E>>) -> Result<
    Seq<u8>,
    Seq<char>,
> {
    match handled {
        Ok(answer) => Ok(answer),
        Err(_) => servfail_wire(dns_packet),
    }
}

/// The bytes to answer the request `dns_packet` with: the chain's answer
/// where it gave one, and else the failure reply to the request. There is
/// nothing to send only where the codec cannot make that reply; the error is
/// then its complaint. What is said of the failure reply is said where no
/// record of the request holds two or more options.
pub fn handle<E>(dns_packet: &Vec<u8>, handled: Result<Vec<u8>, Error<E>>) -> (response: Result<
    Vec<u8>,
    String,
>)
    ensures
        handled is Ok || known_wire(dns_packet@) || decoded_wire(dns_packet@) is Err
            ==> bytes_or_text(response) == spec_handle(dns_packet@, answer_view(handled)),
{
    match handled {
        Ok(answer) => Ok(answer),
        Err(_) => servfail_reply(dns_packet),
    }
}

/// Every query is answered either with what the head plugin returned or with
/// the failure reply to the request: where the plugin returned bytes that the
/// codec decodes, the response is those bytes; in every other case it is the
/// failure reply, and there is no response only where the codec cannot make
/// that reply.
pub proof fn lemma_response_or_servfail<E>(dns_packet: Seq<u8>, outcome: CallOutcome<Vec<u8>, E>)
    ensures
        (outcome matches CallOutcome::Returned(Ok(data)) && crate::dns::decode_failure(data@)
            is None) ==> spec_handle(dns_packet, spec_handle_dns(dns_packet, outcome)) == Ok::<
            Seq<u8>,
            Seq<char>,
        >(outcome->Returned_0->Ok_0@),
        !(outcome matches CallOutcome::Returned(Ok(data)) && crate::dns::decode_failure(data@)
            is None) ==> spec_handle(dns_packet, spec_handle_dns(dns_packet, outcome))
            == servfail_wire(dns_packet),
{
}

} // verus!
