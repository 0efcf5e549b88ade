//! What the host and its plugins need from the DNS wire format.
//!
//! The format itself is the codec's business. What is decided here is told
//! in plain values: a message is its header's fields, its questions and its
//! records, each question and each record in the bytes that the codec encodes
//! it to. The codec turns a packet into such a message and such a message
//! into a packet; what a reply holds is put together here, field by field.
//!
//! One thing the codec leaves open. It writes the options of an extension
//! record in no fixed order, so the bytes of a record that holds two or more
//! options are not a function of the packet it came from. Such a record is
//! carried like any other, but what is said of bytes is said only of
//! messages without one.

use bincode::Options;
use trust_dns_proto::error::ProtoResult;
use trust_dns_proto::op::{Edns, Message, MessageType, OpCode, Query};
use trust_dns_proto::rr::{RData, Record};
use trust_dns_proto::serialize::binary::{BinDecodable, BinEncodable};
use vstd::prelude::*;

verus! {

/// The response code for a server failure.
pub const SERVFAIL: u16 = 2;

/// The record type of an extension record.
pub const OPT: u8 = 41;

/// The header of a message.
#[derive(Clone, Copy, Debug, PartialEq, Eq, Structural)]
pub struct DnsHeader {
    pub id: u16,
    /// Whether the message is a response; a query where not.
    pub response: bool,
    pub op_code: u8,
    pub authoritative: bool,
    pub truncated: bool,
    pub recursion_desired: bool,
    pub recursion_available: bool,
    pub authentic_data: bool,
    pub checking_disabled: bool,
    /// The response code in full, with the bits that an extension record
    /// carries.
    pub response_code: u16,
    pub query_count: u16,
    pub answer_count: u16,
    pub name_server_count: u16,
    pub additional_count: u16,
}

/// A record as the codec encodes it by itself, with the number of options
/// that it holds if it is an extension record, and 0 if it is not.
///
/// A record is only ever made by decoding a packet.
#[derive(Debug, PartialEq, Eq)]
pub struct DnsRecord {
    bytes: Vec<u8>,
    options: usize,
}

impl DnsRecord {
    /// The bytes of the record.
    pub closed spec fn raw(&self) -> Seq<u8> {
        self.bytes@
    }

    /// The number of options that the record holds.
    pub closed spec fn option_count(&self) -> nat {
        self.options as nat
    }

    /// The bytes of the record.
    pub fn bytes(&self) -> (bytes: &Vec<u8>)
        ensures
            bytes@ == self.raw(),
    {
        &self.bytes
    }

    /// The number of options that the record holds.
    pub fn options(&self) -> (options: usize)
        ensures
            options == self.option_count(),
    {
        self.options
    }
}

impl View for DnsRecord {
    type V = Option<Seq<u8>>;

    /// The bytes of the record, where they are a function of the packet that
    /// the record came from: where it holds at most one option.
    open spec fn view(&self) -> Option<Seq<u8>> {
        if self.option_count() <= 1 {
            Some(self.raw())
        } else {
            None
        }
    }
}

/// A section of records, as a sequence.
pub open spec fn section_view(section: Seq<DnsRecord>) -> Seq<Option<Seq<u8>>> {
    section.map_values(|record: DnsRecord| record@)
}

/// Whether the bytes of every record of a section are known.
pub open spec fn section_known(section: Seq<Option<Seq<u8>>>) -> bool {
    forall|i: int| 0 <= i < section.len() ==> (#[trigger] section[i]) is Some
}

/// The extension record of a message, as a sequence.
pub open spec fn edns_view(edns: Option<DnsRecord>) -> Option<Option<Seq<u8>>> {
    match edns {
        Some(record) => Some(record@),
        None => None,
    }
}

/// The extension record of a message, as a sequence.
pub open spec fn edns_ref_view(edns: Option<&DnsRecord>) -> Option<Option<Seq<u8>>> {
    match edns {
        Some(record) => Some(record@),
        None => None,
    }
}

/// Whether the bytes of a message's extension record are known, if it has
/// one.
pub open spec fn edns_known(edns: Option<Option<Seq<u8>>>) -> bool {
    edns matches Some(record) ==> record is Some
}

/// Whether `bytes` start as an extension record does: with the root name and
/// the record type of an extension record.
pub open spec fn is_opt_record(bytes: Seq<u8>) -> bool {
    bytes.len() >= 3 && bytes[0] == 0 && bytes[1] == 0 && bytes[2] == OPT
}

/// The records of the four sections of a message.
#[derive(Debug, PartialEq, Eq)]
pub struct Sections {
    pub answers: Vec<DnsRecord>,
    pub name_servers: Vec<DnsRecord>,
    pub additionals: Vec<DnsRecord>,
    pub signature: Vec<DnsRecord>,
}

/// The records of the four sections of a message, as sequences.
pub struct SectionsView {
    pub answers: Seq<Option<Seq<u8>>>,
    pub name_servers: Seq<Option<Seq<u8>>>,
    pub additionals: Seq<Option<Seq<u8>>>,
    pub signature: Seq<Option<Seq<u8>>>,
}

impl SectionsView {
    /// Whether the bytes of every record are known.
    pub open spec fn known(self) -> bool {
        &&& section_known(self.answers)
        &&& section_known(self.name_servers)
        &&& section_known(self.additionals)
        &&& section_known(self.signature)
    }
}

impl View for Sections {
    type V = SectionsView;

    open spec fn view(&self) -> SectionsView {
        SectionsView {
            answers: section_view(self.answers@),
            name_servers: section_view(self.name_servers@),
            additionals: section_view(self.additionals@),
            signature: section_view(self.signature@),
        }
    }
}

/// A message: its header, its questions in encoded form, the records of its
/// sections, and its extension record.
#[derive(Debug, PartialEq, Eq)]
pub struct DnsMessage {
    pub header: DnsHeader,
    pub queries: Vec<Vec<u8>>,
    pub sections: Sections,
    pub edns: Option<DnsRecord>,
}

/// A message, as sequences.
pub struct MessageView {
    pub header: DnsHeader,
    pub queries: Seq<Seq<u8>>,
    pub sections: SectionsView,
    pub edns: Option<Option<Seq<u8>>>,
}

impl MessageView {
    /// Whether the bytes of every record are known: no record holds two or
    /// more options.
    pub open spec fn known(self) -> bool {
        self.sections.known() && edns_known(self.edns)
    }
}

impl View for DnsMessage {
    type V = MessageView;

    open spec fn view(&self) -> MessageView {
        MessageView {
            header: self.header,
            queries: self.queries.deep_view(),
            sections: self.sections@,
            edns: edns_view(self.edns),
        }
    }
}

impl DnsMessage {
    /// What holds of every message: its extension record starts as one.
    pub open spec fn wf(&self) -> bool {
        self.edns matches Some(edns) ==> is_opt_record(edns.raw())
    }

    /// Whether the message is well formed. A message that was decoded is, and
    /// stays so as long as no other record is put in the extension record's
    /// place.
    pub fn is_wf(&self) -> (ok: bool)
        ensures
            ok == self.wf(),
    {
        match &self.edns {
            None => true,
            Some(edns) => edns.bytes.len() >= 3 && edns.bytes[0] == 0 && edns.bytes[1] == 0
                && edns.bytes[2] == OPT,
        }
    }
}

/// The codec's complaint about a packet, or `None` where the packet decodes.
pub uninterp spec fn decode_failure(packet: Seq<u8>) -> Option<Seq<char>>;

/// The header of a packet, or the codec's complaint where the packet does not
/// decode.
pub uninterp spec fn header_wire(packet: Seq<u8>) -> Result<DnsHeader, Seq<char>>;

/// The records of the sections of a packet, or the codec's complaint where
/// the packet does not decode or a record does not encode.
pub uninterp spec fn sections_wire(packet: Seq<u8>) -> Result<SectionsView, Seq<char>>;

/// The extension record of a packet, or the codec's complaint where the
/// packet does not decode or the record does not encode.
pub uninterp spec fn edns_wire(packet: Seq<u8>) -> Result<Option<Option<Seq<u8>>>, Seq<char>>;

/// The packet of a message that has the given header and questions and no
/// record, or the codec's complaint.
pub uninterp spec fn head_wire(header: DnsHeader, queries: Seq<Seq<u8>>) -> Result<
    Seq<u8>,
    Seq<char>,
>;

/// The packet of the message that has the header and questions of the packet
/// `head`, the given response code, the given records in its sections and
/// the given extension record, or the codec's complaint. Whatever else
/// `head` holds is left out.
pub uninterp spec fn packet_wire(
    head: Seq<u8>,
    response_code: u16,
    sections: SectionsView,
    edns: Option<Option<Seq<u8>>>,
) -> Result<Seq<u8>, Seq<char>>;

/// The time-to-live of each answer of a packet, in the packet's order, or the
/// codec's complaint where the packet does not decode.
pub uninterp spec fn answer_ttls_wire(packet: Seq<u8>) -> Result<Seq<u32>, Seq<char>>;

/// The encoding of each question of a packet, in the packet's order, or the
/// codec's complaint where the packet does not decode or a question does not
/// encode.
pub uninterp spec fn query_encodings_wire(packet: Seq<u8>) -> Result<Seq<Seq<u8>>, Seq<char>>;

/// The key under which the answer to a list of encoded questions is cached,
/// or the serializer's complaint.
pub uninterp spec fn cache_key_wire(queries: Seq<Seq<u8>>) -> Result<Seq<u8>, Seq<char>>;

/// What a codec call gave, with bytes and text as sequences.
pub open spec fn bytes_or_text(r: Result<Vec<u8>, String>) -> Result<Seq<u8>, Seq<char>> {
    match r {
        Ok(bytes) => Ok(bytes@),
        Err(text) => Err(text@),
    }
}

/// What a codec check gave, with the complaint as a sequence.
pub open spec fn complaint(r: Result<(), String>) -> Option<Seq<char>> {
    match r {
        Ok(()) => None,
        Err(text) => Some(text@),
    }
}

/// What a codec call gave, with numbers and text as sequences.
pub open spec fn numbers_or_text(r: Result<Vec<u32>, String>) -> Result<Seq<u32>, Seq<char>> {
    match r {
        Ok(numbers) => Ok(numbers@),
        Err(text) => Err(text@),
    }
}

/// What a codec call gave, with each byte string and text as sequences.
pub open spec fn byte_strings_or_text(r: Result<Vec<Vec<u8>>, String>) -> Result<
    Seq<Seq<u8>>,
    Seq<char>,
> {
    match r {
        Ok(strings) => Ok(strings.deep_view()),
        Err(text) => Err(text@),
    }
}

/// What decoding a header gave, with text as a sequence.
pub open spec fn header_or_text(r: Result<DnsHeader, String>) -> Result<DnsHeader, Seq<char>> {
    match r {
        Ok(header) => Ok(header),
        Err(text) => Err(text@),
    }
}

/// What decoding sections gave, as sequences.
pub open spec fn sections_or_text(r: Result<Sections, String>) -> Result<SectionsView, Seq<char>> {
    match r {
        Ok(sections) => Ok(sections@),
        Err(text) => Err(text@),
    }
}

/// What decoding an extension record gave, as sequences.
pub open spec fn edns_or_text(r: Result<Option<DnsRecord>, String>) -> Result<
    Option<Option<Seq<u8>>>,
    Seq<char>,
> {
    match r {
        Ok(edns) => Ok(edns_view(edns)),
        Err(text) => Err(text@),
    }
}

/// What decoding a message gave, as sequences.
pub open spec fn message_or_text(r: Result<DnsMessage, String>) -> Result<MessageView, Seq<char>> {
    match r {
        Ok(message) => Ok(message@),
        Err(text) => Err(text@),
    }
}

/// The message that a packet decodes to: its header, its questions, its
/// records and its extension record, or the codec's first complaint.
pub open spec fn decoded_wire(packet: Seq<u8>) -> Result<MessageView, Seq<char>> {
    match header_wire(packet) {
        Err(text) => Err(text),
        Ok(header) => match query_encodings_wire(packet) {
            Err(text) => Err(text),
            Ok(queries) => match sections_wire(packet) {
                Err(text) => Err(text),
                Ok(sections) => match edns_wire(packet) {
                    Err(text) => Err(text),
                    Ok(edns) => Ok(MessageView { header, queries, sections, edns }),
                },
            },
        },
    }
}

/// The packet that a message encodes to, or the codec's complaint.
pub open spec fn encoded_wire(message: MessageView) -> Result<Seq<u8>, Seq<char>> {
    match head_wire(message.header, message.queries) {
        Err(text) => Err(text),
        Ok(head) => packet_wire(
            head,
            message.header.response_code,
            message.sections,
            message.edns,
        ),
    }
}

/// Whether what is said of the bytes of a packet's records holds of this
/// packet: it does not decode, or none of its records holds two or more
/// options.
pub open spec fn known_wire(packet: Seq<u8>) -> bool {
    decoded_wire(packet) matches Ok(message) ==> message.known()
}

/// The reply to a request that reports an error: the request, marked as a
/// response, with the given response code. Its questions and records are the
/// request's.
pub open spec fn spec_error_reply(request: MessageView, response_code: u16) -> MessageView {
    MessageView {
        header: DnsHeader { response: true, response_code, ..request.header },
        ..request
    }
}

/// The failure reply to a request: the packet of the reply that reports a
/// server failure, or the codec's complaint where the request does not decode
/// or the reply does not encode.
pub open spec fn servfail_wire(request: Seq<u8>) -> Result<Seq<u8>, Seq<char>> {
    match decoded_wire(request) {
        Err(text) => Err(text),
        Ok(message) => encoded_wire(spec_error_reply(message, SERVFAIL)),
    }
}

/// `Message::from_vec`: whether the codec decodes the packet, and its
/// complaint where it does not.
#[verifier::external_body]
pub(crate) fn check_decodes(packet: &Vec<u8>) -> (checked: Result<(), String>)
    ensures
        complaint(checked) == decode_failure(packet@),
{
    match Message::from_vec(packet) {
        Ok(_) => Ok(()),
        Err(err) => Err(err.to_string()),
    }
}

/// `Message::from_vec` and the getters of `Header`: the fields of a packet's
/// header. The response code is the one that `from_vec` has put together from
/// the header and the extension record.
#[verifier::external_body]
fn decode_header(packet: &Vec<u8>) -> (header: Result<DnsHeader, String>)
    ensures
        header_or_text(header) == header_wire(packet@),
{
    let message = Message::from_vec(packet).map_err(|err| err.to_string())?;
    Ok(DnsHeader {
        id: message.id(), op_code: message.op_code().into(),
        response: match message.message_type() { MessageType::Response => true, MessageType::Query => false },
        authoritative: message.authoritative(), truncated: message.truncated(),
        recursion_desired: message.recursion_desired(),
        recursion_available: message.recursion_available(),
        authentic_data: message.authentic_data(),
        checking_disabled: message.checking_disabled(),
        response_code: message.response_code().into(),
        query_count: message.query_count(), answer_count: message.answer_count(),
        name_server_count: message.name_server_count(),
        additional_count: message.additional_count(),
    })
}

/// `Message::from_vec`, `Message::into_parts`, and for each record
/// `BinEncodable::to_bytes` and, where `Record::data` is an `RData::OPT`, the
/// number of its options: the records of the sections of a packet.
#[verifier::external_body]
fn decode_sections(packet: &Vec<u8>) -> (sections: Result<Sections, String>)
    ensures
        sections_or_text(sections) == sections_wire(packet@),
{
    let parts = Message::from_vec(packet).map_err(|err| err.to_string())?.into_parts();
    let record = |record: &Record| -> ProtoResult<DnsRecord> {
        let options = match record.data() { Some(RData::OPT(opt)) => opt.as_ref().len(), _ => 0 };
        Ok(DnsRecord { bytes: record.to_bytes()?, options })
    };
    let section = |section: &Vec<Record>| section.iter().map(record).collect::<Result<_, _>>().map_err(|err| err.to_string());
    Ok(Sections { answers: section(&parts.answers)?, name_servers: section(&parts.name_servers)?, additionals: section(&parts.additionals)?, signature: section(&parts.sig0)? })
}

/// `Message::from_vec`, `Message::extensions`, `Record::from` and
/// `BinEncodable::to_bytes`: the extension record of a packet, with the
/// number of its options. The record that `Record::from` makes has the root
/// name, which encodes to one zero byte, and the type `OPT`.
#[verifier::external_body]
fn decode_edns(packet: &Vec<u8>) -> (edns: Result<Option<DnsRecord>, String>)
    ensures
        edns_or_text(edns) == edns_wire(packet@),
        edns matches Ok(Some(record)) ==> is_opt_record(record.raw()),
{
    let message = Message::from_vec(packet).map_err(|err| err.to_string())?;
    match message.extensions() {
        None => Ok(None),
        Some(edns) => {
            let bytes = Record::from(edns).to_bytes().map_err(|err| err.to_string())?;
            Ok(Some(DnsRecord { bytes, options: edns.options().as_ref().len() }))
        },
    }
}

/// `Message::new` with the setters of the header's fields,
/// `OpCode::from_u8`, `Query::from_bytes` for each question,
/// `Message::add_queries` and `Message::to_vec`: the packet of a message with
/// the given header and questions and no record.
#[verifier::external_body]
fn encode_head(header: &DnsHeader, queries: &Vec<Vec<u8>>) -> (head: Result<Vec<u8>, String>)
    ensures
        bytes_or_text(head) == head_wire(*header, queries.deep_view()),
{
    let head = || -> ProtoResult<Vec<u8>> {
        let mut message = Message::new();
        message.set_id(header.id).set_op_code(OpCode::from_u8(header.op_code)?);
        message.set_message_type(if header.response { MessageType::Response } else { MessageType::Query });
        message.set_authoritative(header.authoritative).set_truncated(header.truncated);
        message.set_recursion_desired(header.recursion_desired);
        message.set_recursion_available(header.recursion_available);
        message.set_authentic_data(header.authentic_data);
        message.set_checking_disabled(header.checking_disabled);
        message.set_response_code(header.response_code.into());
        message.add_queries(queries.iter().map(|query| Query::from_bytes(query)).collect::<ProtoResult<Vec<_>>>()?);
        message.to_vec()
    };
    head().map_err(|err| err.to_string())
}

/// `Message::from_vec` on `head`, `Message::into_parts`,
/// `Header::set_response_code`, `Record::from_bytes` for each record,
/// `Edns::from` for the extension record, `Message::from` and
/// `Message::to_vec`: the packet of the message with the header and the
/// questions of `head`, the given response code, and the given records and
/// extension record. Every section and the extension record of what `head`
/// decodes to are replaced, so nothing of `head` but its header and its
/// questions is written. The extension record starts as one does, so
/// `Edns::from` finds the type that it insists on. The counts of the header
/// are those of what is written.
#[verifier::external_body]
fn encode_records(
    head: &Vec<u8>,
    response_code: u16,
    sections: &Sections,
    edns: Option<&DnsRecord>,
) -> (packet: Result<Vec<u8>, String>)
    requires
        edns matches Some(record) ==> is_opt_record(record.raw()),
    ensures
        sections@.known() && edns_known(edns_ref_view(edns)) ==> bytes_or_text(packet)
            == packet_wire(head@, response_code, sections@, edns_ref_view(edns)),
{
    let packet = || -> ProtoResult<Vec<u8>> {
        let mut parts = Message::from_vec(head)?.into_parts();
        parts.header.set_response_code(response_code.into());
        let record = |record: &DnsRecord| Record::from_bytes(&record.bytes);
        let section = |section: &Vec<DnsRecord>| section.iter().map(record).collect::<ProtoResult<_>>();
        parts.answers = section(&sections.answers)?;
        parts.name_servers = section(&sections.name_servers)?;
        parts.additionals = section(&sections.additionals)?;
        parts.sig0 = section(&sections.signature)?;
        parts.edns = edns.map(record).transpose()?.as_ref().map(Edns::from);
        Message::from(parts).to_vec()
    };
    packet().map_err(|err| err.to_string())
}

/// The message that a packet decodes to, or the codec's complaint.
pub fn decode(packet: &Vec<u8>) -> (message: Result<DnsMessage, String>)
    ensures
        message_or_text(message) == decoded_wire(packet@),
        message matches Ok(m) ==> m.wf(),
{
    let header = match decode_header(packet) {
        Ok(header) => header,
        Err(text) => {
            return Err(text);
        },
    };
    let queries = match query_encodings(packet) {
        Ok(queries) => queries,
        Err(text) => {
            return Err(text);
        },
    };
    let sections = match decode_sections(packet) {
        Ok(sections) => sections,
        Err(text) => {
            return Err(text);
        },
    };
    match decode_edns(packet) {
        Ok(edns) => Ok(DnsMessage { header, queries, sections, edns }),
        Err(text) => Err(text),
    }
}

/// The packet that a message encodes to, or the codec's complaint. The
/// packet is stated of messages in which no record holds two or more
/// options. A header or a question that the codec refuses ends in its
/// complaint whatever the records are.
pub fn encode(message: &DnsMessage) -> (packet: Result<Vec<u8>, String>)
    requires
        message.wf(),
    ensures
        message@.known() ==> bytes_or_text(packet) == encoded_wire(message@),
        head_wire(message.header, message@.queries) is Err ==> bytes_or_text(packet)
            == encoded_wire(message@),
{
    let head = match encode_head(&message.header, &message.queries) {
        Ok(head) => head,
        Err(text) => {
            return Err(text);
        },
    };
    encode_records(&head, message.header.response_code, &message.sections, message.edns.as_ref())
}

/// The reply to a request that reports an error: the request, marked as a
/// response, with the given response code.
pub fn error_reply(request: DnsMessage, response_code: u16) -> (reply: DnsMessage)
    ensures
        reply@ == spec_error_reply(request@, response_code),
        reply.header == spec_error_reply(request@, response_code).header,
        reply.queries == request.queries,
        reply.sections == request.sections,
        reply.edns == request.edns,
{
    let mut reply = request;
    reply.header.response = true;
    reply.header.response_code = response_code;
    reply
}

/// The message that is the failure reply to a request: what the request
/// decodes to, marked as a response, with the response code for a server
/// failure, and with the very questions and records of the request. A request
/// that does not decode has none, and the error is the codec's complaint.
pub fn servfail_message(request: &Vec<u8>) -> (reply: Result<DnsMessage, String>)
    ensures
        message_or_text(reply) == match decoded_wire(request@) {
            Ok(asked) => Ok(spec_error_reply(asked, SERVFAIL)),
            Err(text) => Err(text),
        },
        reply matches Ok(message) ==> message.wf() && message.header.response
            && message.header.response_code == SERVFAIL,
{
    match decode(request) {
        Err(text) => Err(text),
        Ok(message) => Ok(error_reply(message, SERVFAIL)),
    }
}

/// The failure reply to a request, or the codec's complaint where the request
/// does not decode or the reply does not encode. The packet is stated of
/// requests in which no record holds two or more options. A request that does
/// not decode ends in the codec's complaint in any case.
pub fn servfail_reply(request: &Vec<u8>) -> (reply: Result<Vec<u8>, String>)
    ensures
        known_wire(request@) ==> bytes_or_text(reply) == servfail_wire(request@),
        decoded_wire(request@) matches Err(text) ==> bytes_or_text(reply) == Err::<
            Seq<u8>,
            Seq<char>,
        >(text),
{
    match servfail_message(request) {
        Err(text) => Err(text),
        Ok(message) => encode(&message),
    }
}

/// `Message::from_vec`, `Message::answers` and `Record::ttl`: the
/// time-to-live of each answer of a packet.
#[verifier::external_body]
pub(crate) fn answer_ttls(packet: &Vec<u8>) -> (ttls: Result<Vec<u32>, String>)
    ensures
        numbers_or_text(ttls) == answer_ttls_wire(packet@),
{
    let message = Message::from_vec(packet).map_err(|err| err.to_string())?;
    Ok(message.answers().iter().map(|answer| answer.ttl()).collect())
}

/// `Message::from_vec`, `Message::queries` and `BinEncodable::to_bytes`: the
/// encoding of each question of a packet.
#[verifier::external_body]
pub(crate) fn query_encodings(packet: &Vec<u8>) -> (queries: Result<Vec<Vec<u8>>, String>)
    ensures
        byte_strings_or_text(queries) == query_encodings_wire(packet@),
{
    let message = Message::from_vec(packet).map_err(|err| err.to_string())?;
    let mut queries = Vec::new();
    for query in message.queries() {
        queries.push(query.to_bytes().map_err(|err| err.to_string())?);
    }
    Ok(queries)
}

/// `bincode::Options::serialize` with `bincode::DefaultOptions`: the encoded
/// questions as one byte string.
#[verifier::external_body]
pub(crate) fn cache_key(queries: &Vec<Vec<u8>>) -> (key: Result<Vec<u8>, String>)
    ensures
        bytes_or_text(key) == cache_key_wire(queries.deep_view()),
{
    bincode::DefaultOptions::new().serialize(queries).map_err(|err| err.to_string())
}

} // verus!
