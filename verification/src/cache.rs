//! The caching plugin: it answers a query from the shared store where an
//! earlier answer to the same questions is still there, and otherwise hands
//! the query on and stores the answer for as long as its shortest-lived
//! record lasts.
//!
//! The plugin talks to the host between its steps. Each function here is one
//! step: it takes what the host answered and says what to reply or what to
//! ask next.

use crate::dns::{
    answer_ttls, answer_ttls_wire, bytes_or_text, cache_key, cache_key_wire, decode, decoded_wire,
    encode, encoded_wire, known_wire, numbers_or_text, query_encodings, query_encodings_wire,
    section_view, DnsHeader, DnsMessage, MessageView, SectionsView,
};
use crate::plugins::{PluginError, PluginErrorView};
use vstd::prelude::*;
use vstd::string::StringExecFns;

verus! {

/// The error number of a failure that is the plugin's own.
pub const PLUGIN_FAILURE: u32 = 1;

/// A question of a query, in its encoded form.
pub type QueryDef = Vec<u8>;

/// What identifies the answer to a query: its questions.
#[derive(Debug, PartialEq, Eq)]
pub struct CacheKey {
    pub query: Vec<QueryDef>,
}

impl View for CacheKey {
    type V = Seq<Seq<u8>>;

    open spec fn view(&self) -> Seq<Seq<u8>> {
        self.query.deep_view()
    }
}

/// A reply of the plugin, with bytes and text as sequences.
pub open spec fn reply_view(reply: Result<Vec<u8>, PluginError>) -> Result<
    Seq<u8>,
    PluginErrorView,
> {
    match reply {
        Ok(bytes) => Ok(bytes@),
        Err(err) => Err(err@),
    }
}

/// The plugin's own failure with the given message.
pub open spec fn spec_failure(msg: Seq<char>) -> PluginErrorView {
    PluginErrorView { code: PLUGIN_FAILURE, msg }
}

/// What the codec or the serializer gave, as a reply of the plugin: its
/// complaint becomes the message of a failure of the plugin's own.
pub open spec fn spec_or_failure(r: Result<Seq<u8>, Seq<char>>) -> Result<Seq<u8>, PluginErrorView> {
    match r {
        Ok(bytes) => Ok(bytes),
        Err(text) => Err(spec_failure(text)),
    }
}

/// The plugin's own failure with the given message.
pub fn failure(msg: String) -> (err: PluginError)
    ensures
        err@ == spec_failure(msg@),
{
    PluginError { code: PLUGIN_FAILURE, msg }
}

/// What the codec or the serializer gave, as a reply of the plugin.
pub fn or_failure(r: Result<Vec<u8>, String>) -> (reply: Result<Vec<u8>, PluginError>)
    ensures
        reply_view(reply) == spec_or_failure(bytes_or_text(r)),
{
    match r {
        Ok(bytes) => Ok(bytes),
        Err(text) => Err(failure(text)),
    }
}

/// The key under which the answer to the request `packet` is cached: its
/// encoded questions, serialized.
pub open spec fn spec_lookup_key(packet: Seq<u8>) -> Result<Seq<u8>, PluginErrorView> {
    match query_encodings_wire(packet) {
        Err(text) => Err(spec_failure(text)),
        Ok(queries) => spec_or_failure(cache_key_wire(queries)),
    }
}

impl CacheKey {
    /// The key of a request whose questions the codec encoded as `queries`.
    pub fn new(queries: Result<Vec<QueryDef>, String>) -> (key: Result<CacheKey, PluginError>)
        ensures
            match queries {
                Ok(query) => key matches Ok(k) && k.query == query,
                Err(text) => key matches Err(err) && err@ == spec_failure(text@),
            },
    {
        match queries {
            Ok(query) => Ok(CacheKey { query }),
            Err(text) => Err(failure(text)),
        }
    }

    /// The key as the byte string that the shared store is asked for.
    pub fn to_bytes(&self) -> (bytes: Result<Vec<u8>, PluginError>)
        ensures
            reply_view(bytes) == spec_or_failure(cache_key_wire(self@)),
    {
        or_failure(cache_key(&self.query))
    }
}

/// The byte string under which the answer to the request `dns_packet` is
/// cached. A request that the codec does not decode has none.
pub fn lookup_key(dns_packet: &Vec<u8>) -> (key: Result<Vec<u8>, PluginError>)
    ensures
        reply_view(key) == spec_lookup_key(dns_packet@),
{
    match CacheKey::new(query_encodings(dns_packet)) {
        Err(err) => Err(err),
        Ok(cache_key) => cache_key.to_bytes(),
    }
}

/// The smallest of `ttls`, or `None` where there is none.
pub open spec fn spec_min_ttl(ttls: Seq<u32>) -> Option<u32>
    decreases ttls.len(),
{
    if ttls.len() == 0 {
        None
    } else {
        match spec_min_ttl(ttls.drop_last()) {
            None => Some(ttls.last()),
            Some(least) => if ttls.last() < least {
                Some(ttls.last())
            } else {
                Some(least)
            },
        }
    }
}

/// The smallest of `ttls` is one of them and no larger than any of them, and
/// there is none only where `ttls` is empty.
pub proof fn lemma_min_ttl(ttls: Seq<u32>)
    ensures
        spec_min_ttl(ttls) is None <==> ttls.len() == 0,
        spec_min_ttl(ttls) is Some ==> ttls.contains(spec_min_ttl(ttls)->0),
        forall|i: int|
            0 <= i < ttls.len() ==> spec_min_ttl(ttls)->0 <= #[trigger] ttls[i],
    decreases ttls.len(),
{
    if ttls.len() > 0 {
        let front = ttls.drop_last();
        lemma_min_ttl(front);
        assert(ttls[ttls.len() - 1] == ttls.last());
        if spec_min_ttl(front) is Some {
            let least = spec_min_ttl(front)->0;
            let at = choose|i: int| 0 <= i < front.len() && front[i] == least;
            assert(ttls[at] == least);
        }
        assert forall|i: int| 0 <= i < ttls.len() implies spec_min_ttl(ttls)->0
            <= #[trigger] ttls[i] by {
            if i < front.len() {
                assert(front[i] == ttls[i]);
            }
        }
    }
}

/// The smallest time-to-live among `ttls`.
pub fn min_ttl(ttls: &Vec<u32>) -> (least: Option<u32>)
    ensures
        least == spec_min_ttl(ttls@),
{
    let mut least: Option<u32> = None;
    let mut i: usize = 0;
    while i < ttls.len()
        invariant
            i <= ttls.len(),
            least == spec_min_ttl(ttls@.subrange(0, i as int)),
        decreases ttls.len() - i,
    {
        let ttl: u32 = ttls[i];
        assert(ttls@.subrange(0, i + 1).drop_last() =~= ttls@.subrange(0, i as int));
        least =
        match least {
            None => Some(ttl),
            Some(current) => if ttl < current {
                Some(ttl)
            } else {
                Some(current)
            },
        };
        i = i + 1;
    }
    assert(ttls@.subrange(0, i as int) =~= ttls@);
    least
}

/// What to write to the shared store: a value under a key, to expire after
/// `ttl` seconds.
#[derive(Debug, PartialEq, Eq)]
pub struct CacheWrite {
    pub key: Vec<u8>,
    pub value: Vec<u8>,
    pub ttl: u64,
}

/// How a cache miss ends: the plugin's reply, and what to write to the shared
/// store before replying, if anything.
#[derive(Debug, PartialEq, Eq)]
pub struct Miss {
    pub reply: Result<Vec<u8>, PluginError>,
    pub write: Option<CacheWrite>,
}

/// How a cache miss ends.
pub struct MissView {
    pub reply: Result<Seq<u8>, PluginErrorView>,
    pub write: Option<(Seq<u8>, Seq<u8>, u64)>,
}

impl View for Miss {
    type V = MissView;

    open spec fn view(&self) -> MissView {
        MissView {
            reply: reply_view(self.reply),
            write: match self.write {
                Some(write) => Some((write.key@, write.value@, write.ttl)),
                None => None,
            },
        }
    }
}

/// The message of the failure that a miss ends in where no plugin comes next.
pub open spec fn no_next_plugin() -> Seq<char> {
    "no next plugin"@
}

/// How a miss ends where the next plugin answered `response` and the codec
/// gave `ttls` for the answers in it. The answer is the reply. It is stored
/// under `key` for as long as its shortest-lived answer lasts, and not at all
/// where it holds no answer. A response that the codec does not decode is
/// not replied with.
pub open spec fn spec_set_cache(
    response: Seq<u8>,
    ttls: Result<Seq<u32>, Seq<char>>,
    key: Seq<u8>,
) -> MissView {
    match ttls {
        Err(text) => MissView { reply: Err(spec_failure(text)), write: None },
        Ok(ttls) => MissView {
            reply: Ok(response),
            write: match spec_min_ttl(ttls) {
                Some(ttl) => Some((key, response, ttl as u64)),
                None => None,
            },
        },
    }
}

/// How a miss ends, from what the call of the next plugin gave: without a
/// next plugin, in a failure of the plugin's own; with a failure of the next
/// plugin, in that failure; with an answer, as `spec_set_cache` says.
pub open spec fn spec_call_next_and_set_cache(
    next: Option<Result<Vec<u8>, PluginError>>,
    key: Seq<u8>,
) -> MissView {
    match next {
        None => MissView { reply: Err(spec_failure(no_next_plugin())), write: None },
        Some(Err(err)) => MissView { reply: Err(err@), write: None },
        Some(Ok(response)) => spec_set_cache(response@, answer_ttls_wire(response@), key),
    }
}

/// How a miss ends where the next plugin answered `response_packet` and the
/// codec gave `ttls` for the answers in it.
pub fn set_cache(response_packet: Vec<u8>, ttls: Result<Vec<u32>, String>, cache_key: Vec<u8>) -> (miss:
    Miss)
    ensures
        miss@ == spec_set_cache(response_packet@, numbers_or_text(ttls), cache_key@),
{
    match ttls {
        Err(text) => Miss { reply: Err(failure(text)), write: None },
        Ok(ttls) => {
            let write = match min_ttl(&ttls) {
                None => None,
                Some(ttl) => {
                    let value = response_packet.clone();
                    assert(value@ =~= response_packet@);
                    Some(CacheWrite { key: cache_key, value, ttl: ttl as u64 })
                },
            };
            Miss { reply: Ok(response_packet), write }
        },
    }
}

/// How a miss ends, from what the call of the next plugin gave.
pub fn call_next_and_set_cache(
    next: Option<Result<Vec<u8>, PluginError>>,
    cache_key: Vec<u8>,
) -> (miss: Miss)
    ensures
        miss@ == spec_call_next_and_set_cache(next, cache_key@),
{
    match next {
        None => {
            let msg = String::from_str("no next plugin");
            Miss { reply: Err(failure(msg)), write: None }
        },
        Some(Err(err)) => Miss { reply: Err(err), write: None },
        Some(Ok(response_packet)) => {
            let ttls = answer_ttls(&response_packet);
            set_cache(response_packet, ttls, cache_key)
        },
    }
}

/// The reply that a cached response gives to a new request. Its header is
/// the request's, marked as a response, with the response code, the counts of
/// answers and additional records and the authority flag of the cached
/// response. Its questions are the request's. Its answers are the request's
/// followed by the cached ones, and so are its additional records. Its name
/// server records, its signature and its extension record are the request's.
pub open spec fn spec_cached_reply(request: MessageView, cached: MessageView) -> MessageView {
    MessageView {
        header: DnsHeader {
            response: true,
            response_code: cached.header.response_code,
            answer_count: cached.header.answer_count,
            additional_count: cached.header.additional_count,
            authoritative: cached.header.authoritative,
            ..request.header
        },
        queries: request.queries,
        sections: SectionsView {
            answers: request.sections.answers + cached.sections.answers,
            name_servers: request.sections.name_servers,
            additionals: request.sections.additionals + cached.sections.additionals,
            signature: request.sections.signature,
        },
        edns: request.edns,
    }
}

/// Where the bytes of every record of the request and of the cached response
/// are known, so are those of every record of the reply.
pub proof fn lemma_cached_reply_known(request: MessageView, cached: MessageView)
    requires
        request.known(),
        cached.known(),
    ensures
        spec_cached_reply(request, cached).known(),
{
    let reply = spec_cached_reply(request, cached);
    assert forall|i: int| 0 <= i < reply.sections.answers.len() implies (
    #[trigger] reply.sections.answers[i]) is Some by {
        if i < request.sections.answers.len() {
            assert(reply.sections.answers[i] == request.sections.answers[i]);
        } else {
            assert(reply.sections.answers[i] == cached.sections.answers[i
                - request.sections.answers.len()]);
        }
    }
    assert forall|i: int| 0 <= i < reply.sections.additionals.len() implies (
    #[trigger] reply.sections.additionals[i]) is Some by {
        if i < request.sections.additionals.len() {
            assert(reply.sections.additionals[i] == request.sections.additionals[i]);
        } else {
            assert(reply.sections.additionals[i] == cached.sections.additionals[i
                - request.sections.additionals.len()]);
        }
    }
}

/// The reply that a cached response gives to a new request.
pub fn merge_cached(request: DnsMessage, cached: DnsMessage) -> (reply: DnsMessage)
    ensures
        reply@ == spec_cached_reply(request@, cached@),
        reply.header == spec_cached_reply(request@, cached@).header,
        reply.queries == request.queries,
        reply.sections.answers@ == request.sections.answers@ + cached.sections.answers@,
        reply.sections.name_servers == request.sections.name_servers,
        reply.sections.additionals@ == request.sections.additionals@
            + cached.sections.additionals@,
        reply.sections.signature == request.sections.signature,
        reply.edns == request.edns,
{
    let mut reply = request;
    let mut cached = cached;
    let ghost request_answers = reply.sections.answers@;
    let ghost request_additionals = reply.sections.additionals@;
    let ghost cached_answers = cached.sections.answers@;
    let ghost cached_additionals = cached.sections.additionals@;
    reply.header.response = true;
    reply.header.response_code = cached.header.response_code;
    reply.header.answer_count = cached.header.answer_count;
    reply.header.additional_count = cached.header.additional_count;
    reply.header.authoritative = cached.header.authoritative;
    reply.sections.answers.append(&mut cached.sections.answers);
    reply.sections.additionals.append(&mut cached.sections.additionals);
    assert(section_view(request_answers + cached_answers) =~= section_view(request_answers)
        + section_view(cached_answers));
    assert(section_view(request_additionals + cached_additionals) =~= section_view(
        request_additionals,
    ) + section_view(cached_additionals));
    reply
}

/// The reply to the request `request` from the cached response `cached`:
/// the packet of what the two decode to, put together as `spec_cached_reply`
/// says, or a failure of the plugin's own with the codec's complaint. The
/// request is decoded first.
pub open spec fn spec_create_response(request: Seq<u8>, cached: Seq<u8>) -> Result<
    Seq<u8>,
    PluginErrorView,
> {
    match decoded_wire(request) {
        Err(text) => Err(spec_failure(text)),
        Ok(asked) => match decoded_wire(cached) {
            Err(text) => Err(spec_failure(text)),
            Ok(answered) => spec_or_failure(encoded_wire(spec_cached_reply(asked, answered))),
        },
    }
}

/// The reply to the request `dns_packet` from the cached response
/// `response_packet`. The packet of the reply is stated where no record of
/// either packet holds two or more options. A packet that does not decode
/// ends in a failure of the plugin's own with the codec's complaint in any
/// case, the request's before the cached response's.
pub fn create_response_from_cache(dns_packet: &Vec<u8>, response_packet: &Vec<u8>) -> (reply:
    Result<Vec<u8>, PluginError>)
    ensures
        known_wire(dns_packet@) && known_wire(response_packet@) ==> reply_view(reply)
            == spec_create_response(dns_packet@, response_packet@),
        decoded_wire(dns_packet@) is Err || decoded_wire(response_packet@) is Err ==> reply_view(
            reply,
        ) == spec_create_response(dns_packet@, response_packet@),
        reply matches Err(err) ==> err.code == PLUGIN_FAILURE,
{
    let request = match decode(dns_packet) {
        Ok(request) => request,
        Err(text) => {
            return Err(failure(text));
        },
    };
    let cached = match decode(response_packet) {
        Ok(cached) => cached,
        Err(text) => {
            return Err(failure(text));
        },
    };
    proof {
        if request@.known() && cached@.known() {
            lemma_cached_reply_known(request@, cached@);
        }
    }
    or_failure(encode(&merge_cached(request, cached)))
}

/// What the plugin does once the shared store has been asked.
#[derive(Debug, PartialEq, Eq)]
pub enum CacheAction {
    /// Reply with this.
    Reply(Result<Vec<u8>, PluginError>),
    /// Hand the request to the next plugin, and end the miss with what it
    /// gives and this key.
    CallNext { cache_key: Vec<u8> },
}

/// What the plugin does with the request `dns_packet` once the shared store
/// has answered `cached` for its key. On a miss the request goes to the next
/// plugin. On a hit the reply is made from the request and the cached
/// response, and nothing is asked of the next plugin or written to the store.
pub fn run(dns_packet: &Vec<u8>, cache_key: Vec<u8>, cached: Option<Vec<u8>>) -> (action:
    CacheAction)
    ensures
        match cached {
            None => action matches CacheAction::CallNext { cache_key: key } && key == cache_key,
            Some(response) => action matches CacheAction::Reply(reply) && ((known_wire(
                dns_packet@,
            ) && known_wire(response@)) || decoded_wire(dns_packet@) is Err || decoded_wire(
                response@,
            ) is Err ==> reply_view(reply) == spec_create_response(dns_packet@, response@)) && (
            reply matches Err(err) ==> err.code == PLUGIN_FAILURE),
        },
{
    match cached {
        None => CacheAction::CallNext { cache_key },
        Some(response_packet) => CacheAction::Reply(
            create_response_from_cache(dns_packet, &response_packet),
        ),
    }
}

/// The plugin has no settings, so it accepts whatever it is given.
pub fn valid_config() -> (checked: Result<(), PluginError>)
    ensures
        checked is Ok,
{
    Ok(())
}

} // verus!
