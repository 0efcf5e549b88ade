use rubydns::dns::{servfail_reply, SERVFAIL};
use rubydns::errno::IoFailure;
use rubydns::handle::udp::{accepted, AcceptError, RespondError, UdpHandle, ACCEPT_BUFFER_LEN};
use rubydns::host_helper::udp::recv_buffer;
use rubydns::plugins::Error;
use rubydns::server::{handle, serve, ServeStep};
use trust_dns_proto::op::{Edns, Message, Query};
use trust_dns_proto::rr::{Name, RecordType};

fn query_packet(id: u16) -> Vec<u8> {
    let mut packet = vec![(id >> 8) as u8, id as u8, 0x01, 0x00, 0, 1, 0, 0, 0, 0, 0, 0];
    packet.extend_from_slice(b"\x07example\x03com\x00");
    packet.extend_from_slice(&[0, 1, 0, 1]);
    packet
}

#[test]
fn accept_cuts_the_buffer_and_checks_the_packet() {
    let listener = UdpHandle::new("socket");
    assert_eq!(*listener.socket(), "socket");
    assert_eq!(ACCEPT_BUFFER_LEN, 4096);
    let request = query_packet(0x1234);
    let mut buf = recv_buffer(ACCEPT_BUFFER_LEN);
    buf[..request.len()].copy_from_slice(&request);
    let query = listener.accept(buf, Ok((request.len(), "10.0.0.1:4000")));
    assert_eq!(query, Ok(("10.0.0.1:4000", request)));
}

#[test]
fn accept_refuses_what_does_not_decode() {
    let listener = UdpHandle::new("socket");
    let query = listener.accept(vec![1, 2, 3, 4], Ok((3, "peer")));
    assert!(matches!(query, Err(AcceptError::ProtoError(_))));
    // a datagram of no bytes is no message either
    let query = listener.accept(vec![0; 16], Ok((0, "peer")));
    assert!(matches!(query, Err(AcceptError::ProtoError(_))));
}

#[test]
fn accept_reports_a_failed_receive() {
    let listener = UdpHandle::new("socket");
    let failure = IoFailure { raw_os_error: Some(4) };
    let query: Result<(&str, Vec<u8>), AcceptError> = listener.accept(vec![0; 8], Err(failure));
    assert_eq!(query, Err(AcceptError::IoError(failure)));
}

#[test]
fn accepted_goes_by_the_check() {
    assert_eq!(accepted(1u8, vec![7], Ok(())), Ok((1u8, vec![7])));
    assert_eq!(
        accepted(1u8, vec![7], Err("bad".to_string())),
        Err(AcceptError::ProtoError("bad".to_string()))
    );
}

#[test]
fn respond_result() {
    let listener = UdpHandle::new("socket");
    assert_eq!(listener.respond(Ok(29)), Ok(()));
    let failure = IoFailure { raw_os_error: None };
    assert_eq!(listener.respond(Err(failure)), Err(RespondError::IoError(failure)));
}

#[test]
fn serving_goes_on_after_a_failed_accept() {
    let failure = AcceptError::IoError(IoFailure { raw_os_error: Some(4) });
    assert_eq!(serve::<u8>(Err(failure)), ServeStep::Continue);
    assert_eq!(serve::<u8>(Err(AcceptError::ProtoError("x".to_string()))), ServeStep::Continue);
}

#[test]
fn serving_handles_what_was_accepted() {
    let step = serve(Ok(("peer", vec![1, 2])));
    assert_eq!(step, ServeStep::Handle { identify: "peer", dns_packet: vec![1, 2] });
}

#[test]
fn server_sends_the_chains_answer() {
    let handled: Result<Vec<u8>, Error<&str>> = Ok(vec![5, 6, 7]);
    assert_eq!(handle(&query_packet(1), handled), Ok(vec![5, 6, 7]));
}

#[test]
fn server_answers_servfail_where_the_chain_has_no_answer() {
    let request = query_packet(0x4242);
    let mut expected = request.clone();
    expected[2] = 0x81;
    expected[3] = 0x02;
    for failure in [
        Error::PluginRun("trap"),
        Error::PluginPool("closed"),
        Error::Proto("bad answer".to_string()),
    ] {
        assert_eq!(handle(&request, Err(failure)), Ok(expected.clone()));
    }
}

#[test]
fn server_has_nothing_to_send_for_a_request_that_does_not_decode() {
    let handled: Result<Vec<u8>, Error<&str>> = Err(Error::PluginRun("trap"));
    assert!(handle(&vec![1, 2, 3], handled).is_err());
}

#[test]
fn servfail_reply_keeps_the_identifier_and_sets_flag_and_code() {
    assert_eq!(SERVFAIL, 2);
    for id in [0u16, 1, 0x00ff, 0xff00, u16::MAX] {
        let request = query_packet(id);
        let reply = servfail_reply(&request).unwrap();
        assert!(reply.len() >= 12);
        assert_eq!(reply[..2], request[..2]);
        assert_eq!(reply[2] & 0x80, 0x80);
        assert_eq!(reply[3] & 0x0f, 2);
        // the question is the request's
        assert_eq!(reply[4..], request[4..]);
    }
}

#[test]
fn servfail_reply_to_what_already_is_a_response() {
    let mut request = query_packet(9);
    request[2] = 0x85;
    request[3] = 0x83;
    let reply = servfail_reply(&request).unwrap();
    assert_eq!(reply[2] & 0x80, 0x80);
    assert_eq!(reply[3] & 0x0f, 2);
}

#[test]
fn servfail_reply_needs_a_full_header() {
    assert!(servfail_reply(&Vec::new()).is_err());
    assert!(servfail_reply(&vec![0; 11]).is_err());
    assert!(servfail_reply(&vec![0; 12]).is_ok());
}

#[test]
fn servfail_reply_to_a_request_with_extensions() {
    let mut message = Message::new();
    message.set_id(0x7a7a);
    message.add_query(Query::query(Name::from_ascii("example.org.").unwrap(), RecordType::AAAA));
    let mut edns = Edns::new();
    edns.set_max_payload(1232);
    edns.set_rcode_high(1);
    message.set_edns(edns);
    let request = message.to_vec().unwrap();

    let reply = servfail_reply(&request).unwrap();
    assert_eq!(reply[..2], [0x7a, 0x7a]);
    assert_eq!(reply[2] & 0x80, 0x80);
    assert_eq!(reply[3] & 0x0f, 2);
    let decoded = Message::from_vec(&reply).unwrap();
    assert_eq!(decoded.queries(), message.queries());
    assert!(decoded.edns().is_some());
}
