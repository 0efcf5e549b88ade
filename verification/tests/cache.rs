use rubydns::cache::{
    call_next_and_set_cache, create_response_from_cache, failure, lookup_key, merge_cached,
    min_ttl, or_failure, run, set_cache, valid_config, CacheAction, CacheKey, CacheWrite, Miss,
};
use rubydns::dns::decode;
use bincode::Options;
use rubydns::plugins::PluginError;
use rubydns::shared_map::SharedMap;
use serde::{Serialize, Serializer};
use trust_dns_proto::op::{Message, MessageType, Query, ResponseCode};
use trust_dns_proto::rr::{Name, RData, Record, RecordType};

const SECOND: u128 = 1_000_000_000;

fn query(id: u16) -> Vec<u8> {
    let mut packet = vec![(id >> 8) as u8, id as u8, 0x01, 0x00, 0, 1, 0, 0, 0, 0, 0, 0];
    packet.extend_from_slice(b"\x07example\x03com\x00");
    packet.extend_from_slice(&[0, 1, 0, 1]);
    packet
}

fn response(id: u16, ttls: &[u32]) -> Vec<u8> {
    let name = Name::from_ascii("example.com.").unwrap();
    let mut message = Message::new();
    message.set_id(id);
    message.set_message_type(MessageType::Response);
    message.set_recursion_desired(true);
    message.add_query(Query::query(name.clone(), RecordType::A));
    for (i, ttl) in ttls.iter().enumerate() {
        let address = RData::A([93, 184, 216, i as u8].into());
        message.add_answer(Record::from_rdata(name.clone(), *ttl, address));
    }
    message.to_vec().unwrap()
}

fn example_key() -> Vec<u8> {
    let mut key = vec![1u8, 17];
    key.extend_from_slice(b"\x07example\x03com\x00");
    key.extend_from_slice(&[0, 1, 0, 1]);
    key
}

struct Question(Vec<u8>);

impl Serialize for Question {
    fn serialize<S: Serializer>(&self, serializer: S) -> Result<S::Ok, S::Error> {
        serializer.serialize_bytes(&self.0)
    }
}

#[test]
fn key_is_the_serialized_questions() {
    assert_eq!(lookup_key(&query(0x1234)), Ok(example_key()));
}

#[test]
fn key_is_what_byte_strings_serialize_to() {
    let mut question = b"\x07example\x03com\x00".to_vec();
    question.extend_from_slice(&[0, 1, 0, 1]);
    let expected = bincode::DefaultOptions::new().serialize(&vec![Question(question)]).unwrap();
    assert_eq!(lookup_key(&query(1)), Ok(expected));
}

#[test]
fn key_does_not_depend_on_the_request_id() {
    assert_eq!(lookup_key(&query(1)), lookup_key(&query(2)));
}

#[test]
fn key_of_request_without_question() {
    let packet = vec![0, 1, 1, 0, 0, 0, 0, 0, 0, 0, 0, 0];
    assert_eq!(lookup_key(&packet), Ok(vec![0]));
}

#[test]
fn key_of_what_does_not_decode_is_a_failure() {
    let err = lookup_key(&vec![1, 2, 3]).unwrap_err();
    assert_eq!(err.code, 1);
    assert!(!err.msg.is_empty());
}

#[test]
fn cache_key_from_questions() {
    let key = CacheKey::new(Ok(vec![vec![1, 2], vec![3]])).unwrap();
    assert_eq!(key.query, vec![vec![1, 2], vec![3]]);
    assert_eq!(key.to_bytes(), Ok(vec![2, 2, 1, 2, 1, 3]));
    let err = CacheKey::new(Err("bad".to_string())).unwrap_err();
    assert_eq!(err, PluginError { code: 1, msg: "bad".to_string() });
}

#[test]
fn failure_has_code_one() {
    assert_eq!(failure("m".to_string()), PluginError { code: 1, msg: "m".to_string() });
    assert_eq!(or_failure(Ok(vec![1])), Ok(vec![1]));
    assert_eq!(
        or_failure(Err("m".to_string())),
        Err(PluginError { code: 1, msg: "m".to_string() })
    );
}

#[test]
fn min_ttl_examples() {
    assert_eq!(min_ttl(&vec![]), None);
    assert_eq!(min_ttl(&vec![300]), Some(300));
    assert_eq!(min_ttl(&vec![300, 60, 120]), Some(60));
    assert_eq!(min_ttl(&vec![60, 300, 60]), Some(60));
    assert_eq!(min_ttl(&vec![u32::MAX, 0]), Some(0));
}

#[test]
fn miss_without_next_plugin_fails() {
    let miss = call_next_and_set_cache(None, example_key());
    let expected = PluginError { code: 1, msg: "no next plugin".to_string() };
    assert_eq!(miss, Miss { reply: Err(expected), write: None });
}

#[test]
fn miss_hands_on_the_failure_of_the_next_plugin() {
    let down = PluginError { code: 111, msg: "refused".to_string() };
    let miss = call_next_and_set_cache(Some(Err(down.clone())), example_key());
    assert_eq!(miss, Miss { reply: Err(down), write: None });
}

#[test]
fn miss_stores_answer_for_its_smallest_ttl() {
    let answer = response(7, &[300, 60, 120]);
    let miss = call_next_and_set_cache(Some(Ok(answer.clone())), example_key());
    let write = CacheWrite { key: example_key(), value: answer.clone(), ttl: 60 };
    assert_eq!(miss, Miss { reply: Ok(answer), write: Some(write) });
}

#[test]
fn miss_does_not_store_an_answer_without_records() {
    let answer = response(7, &[]);
    let miss = call_next_and_set_cache(Some(Ok(answer.clone())), example_key());
    assert_eq!(miss, Miss { reply: Ok(answer), write: None });
}

#[test]
fn miss_refuses_an_answer_that_does_not_decode() {
    let miss = call_next_and_set_cache(Some(Ok(vec![1, 2, 3])), example_key());
    assert_eq!(miss.write, None);
    assert_eq!(miss.reply.unwrap_err().code, 1);
}

#[test]
fn set_cache_goes_by_the_ttls_it_is_given() {
    let miss = set_cache(vec![9], Ok(vec![5, 3, 4]), vec![1]);
    let write = CacheWrite { key: vec![1], value: vec![9], ttl: 3 };
    assert_eq!(miss, Miss { reply: Ok(vec![9]), write: Some(write) });
    let miss = set_cache(vec![9], Ok(vec![]), vec![1]);
    assert_eq!(miss, Miss { reply: Ok(vec![9]), write: None });
    let miss = set_cache(vec![9], Err("bad".to_string()), vec![1]);
    let expected = PluginError { code: 1, msg: "bad".to_string() };
    assert_eq!(miss, Miss { reply: Err(expected), write: None });
}

#[test]
fn reply_from_cache_answers_the_new_request() {
    let cached = response(0x1111, &[300, 60]);
    let reply = create_response_from_cache(&query(0x9999), &cached).unwrap();
    let message = Message::from_vec(&reply).unwrap();
    let stored = Message::from_vec(&cached).unwrap();
    assert_eq!(message.id(), 0x9999);
    assert_eq!(message.message_type(), MessageType::Response);
    assert_eq!(message.response_code(), ResponseCode::NoError);
    assert_eq!(message.answers(), stored.answers());
    assert_eq!(message.answer_count(), 2);
    assert_eq!(message.queries(), stored.queries());
    assert_ne!(reply, query(0x9999));
    assert_ne!(reply, cached);
}

#[test]
fn reply_from_cache_needs_both_packets_to_decode() {
    let cached = response(0x1111, &[300]);
    assert_eq!(create_response_from_cache(&vec![1, 2], &cached).unwrap_err().code, 1);
    assert_eq!(create_response_from_cache(&query(1), &vec![1, 2]).unwrap_err().code, 1);
}

#[test]
fn run_on_a_miss_calls_the_next_plugin() {
    let action = run(&query(1), example_key(), None);
    assert_eq!(action, CacheAction::CallNext { cache_key: example_key() });
}

#[test]
fn run_on_a_hit_replies_from_the_cache() {
    let cached = response(0x1111, &[300]);
    let expected = create_response_from_cache(&query(2), &cached);
    assert!(expected.is_ok());
    assert_eq!(run(&query(2), example_key(), Some(cached)), CacheAction::Reply(expected));
}

#[test]
fn run_replies_from_the_cache_whatever_the_length() {
    // a header of zeros, and more bytes behind it than a transport carries
    let long = vec![0; 70000];
    let CacheAction::Reply(reply) = run(&query(2), example_key(), Some(long)) else {
        panic!("expected a hit")
    };
    let mut expected = query(2);
    expected[2] |= 0x80;
    assert_eq!(reply, Ok(expected));
}

fn unhex(text: &str) -> Vec<u8> {
    (0..text.len()).step_by(2).map(|i| u8::from_str_radix(&text[i..i + 2], 16).unwrap()).collect()
}

#[test]
fn reply_from_cache_byte_for_byte() {
    let dns_packet = unhex("123401000001000000000000076578616d706c6503636f6d0000010001");
    let response_packet = unhex(
        "abcd81800001000100000000076578616d706c6503636f6d0000010001c00c000100010000012c00045db8d822",
    );
    let out = create_response_from_cache(&dns_packet, &response_packet).unwrap();
    assert_eq!(out.len(), 45);
    assert_eq!(out[0..2], [0x12, 0x34]);
    assert_eq!(out[2] & 0x80, 0x80);
    assert_eq!(out[3] & 0x0f, 0);
    assert_eq!(out[4..12], [0, 1, 0, 1, 0, 0, 0, 0]);
    assert_eq!(out[12..29], dns_packet[12..29]);
    assert_eq!(out[29..45], response_packet[29..45]);
}

#[test]
fn reply_from_cache_takes_code_and_authority_from_the_cached_response() {
    let name = Name::from_ascii("example.com.").unwrap();
    let mut cached = Message::new();
    cached.set_id(0x1111);
    cached.set_message_type(MessageType::Response);
    cached.set_response_code(ResponseCode::NXDomain);
    cached.set_authoritative(true);
    cached.add_query(Query::query(name.clone(), RecordType::A));
    cached.add_additional(Record::from_rdata(name.clone(), 30, RData::A([10, 0, 0, 1].into())));
    let mut request = Message::new();
    request.set_id(0x2222);
    request.set_recursion_desired(true);
    request.add_query(Query::query(name.clone(), RecordType::A));
    request.add_answer(Record::from_rdata(name.clone(), 5, RData::A([10, 0, 0, 2].into())));

    let reply = create_response_from_cache(&request.to_vec().unwrap(), &cached.to_vec().unwrap());
    let reply = Message::from_vec(&reply.unwrap()).unwrap();
    assert_eq!(reply.id(), 0x2222);
    assert_eq!(reply.message_type(), MessageType::Response);
    assert_eq!(reply.response_code(), ResponseCode::NXDomain);
    assert!(reply.authoritative());
    assert!(reply.recursion_desired());
    assert_eq!(reply.queries(), request.queries());
    // the request's records first, then the cached ones
    assert_eq!(reply.answers(), request.answers());
    assert_eq!(reply.additionals(), cached.additionals());
}

#[test]
fn merge_cached_puts_the_reply_together_field_by_field() {
    let request = decode(&query(0x0a0b)).unwrap();
    let cached = decode(&response(0x0c0d, &[300, 60])).unwrap();
    let cached_answers: Vec<Vec<u8>> =
        cached.sections.answers.iter().map(|record| record.bytes().clone()).collect();
    let cached_header = cached.header;
    let request_header = request.header;
    let request_queries = request.queries.clone();

    let reply = merge_cached(request, cached);
    assert_eq!(reply.header.id, 0x0a0b);
    assert!(reply.header.response);
    assert_eq!(reply.header.response_code, cached_header.response_code);
    assert_eq!(reply.header.answer_count, 2);
    assert_eq!(reply.header.additional_count, cached_header.additional_count);
    assert_eq!(reply.header.authoritative, cached_header.authoritative);
    assert_eq!(reply.header.recursion_desired, request_header.recursion_desired);
    assert_eq!(reply.header.op_code, request_header.op_code);
    assert_eq!(reply.queries, request_queries);
    let answers: Vec<Vec<u8>> =
        reply.sections.answers.iter().map(|record| record.bytes().clone()).collect();
    assert_eq!(answers, cached_answers);
    assert!(reply.sections.name_servers.is_empty());
    assert!(reply.edns.is_none());
}

#[test]
fn cache_plugin_accepts_any_settings() {
    assert_eq!(valid_config(), Ok(()));
}

#[test]
fn cache_then_proxy_serves_second_request_from_cache() {
    let mut store = SharedMap::new();
    let upstream = response(0x0001, &[300, 60]);

    // first request: nothing is cached, the next plugin answers
    let first = query(0x0001);
    let key = lookup_key(&first).unwrap();
    let cached = store.get_at(&key, 0);
    assert_eq!(cached, None);
    let action = run(&first, key, cached);
    let CacheAction::CallNext { cache_key } = action else { panic!("expected a miss") };
    let miss = call_next_and_set_cache(Some(Ok(upstream.clone())), cache_key);
    assert_eq!(miss.reply, Ok(upstream.clone()));
    let write = miss.write.unwrap();
    store.set_at(write.key, write.value, Some(write.ttl), 0);

    // second request within the time-to-live: served from the cache
    let second = query(0x0002);
    let key = lookup_key(&second).unwrap();
    let cached = store.get_at(&key, 59 * SECOND);
    assert_eq!(cached, Some(upstream.clone()));
    let CacheAction::Reply(reply) = run(&second, key, cached) else { panic!("expected a hit") };
    let message = Message::from_vec(&reply.unwrap()).unwrap();
    assert_eq!(message.id(), 0x0002);
    assert_eq!(message.answers(), Message::from_vec(&upstream).unwrap().answers());
}

#[test]
fn cache_entry_expires_with_its_smallest_ttl() {
    let mut store = SharedMap::new();
    let upstream = response(0x0001, &[300, 60]);
    let key = lookup_key(&query(0x0001)).unwrap();
    let miss = call_next_and_set_cache(Some(Ok(upstream)), key.clone());
    let write = miss.write.unwrap();
    assert_eq!(write.ttl, 60);
    store.set_at(write.key, write.value, Some(write.ttl), 5);

    // a third request once the smallest time-to-live has passed: a miss again
    let third = query(0x0003);
    let key = lookup_key(&third).unwrap();
    let cached = store.get_at(&key, 5 + 60 * SECOND);
    assert_eq!(cached, None);
    assert_eq!(run(&third, key.clone(), cached), CacheAction::CallNext { cache_key: key });
}
