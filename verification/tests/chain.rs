use rubydns::plugins::config::{Plugin, PluginFile};
use rubydns::plugins::pool::{validate_config, CallOutcome, ValidateError};
use rubydns::plugins::{
    BuildError, ChainBuilder, Error, PluginChain, PluginError, Stage, StageError,
};
use std::sync::Arc;
use trust_dns_proto::op::{Message, MessageType, Query, ResponseCode};
use trust_dns_proto::rr::{Name, RData, Record, RecordType};

fn plugin(name: &str, config: u32) -> Plugin<u32> {
    Plugin { name: name.to_string(), plugin_path: None, config }
}

fn query_packet(id: u16) -> Vec<u8> {
    let mut packet = vec![(id >> 8) as u8, id as u8, 0x01, 0x00, 0, 1, 0, 0, 0, 0, 0, 0];
    packet.extend_from_slice(b"\x07example\x03com\x00");
    packet.extend_from_slice(&[0, 1, 0, 1]);
    packet
}

fn response_packet(id: u16, ttl: u32) -> Vec<u8> {
    let name = Name::from_ascii("example.com.").unwrap();
    let mut message = Message::new();
    message.set_id(id);
    message.set_message_type(MessageType::Response);
    message.add_query(Query::query(name.clone(), RecordType::A));
    message.add_answer(Record::from_rdata(name, ttl, RData::A([93, 184, 216, 34].into())));
    message.to_vec().unwrap()
}

fn chain_of(pool: u32) -> PluginChain<u32> {
    let mut builder: ChainBuilder<u32, u32, u8, &str> = PluginChain::new(vec![plugin("only", 0)], Arc::new(0u8));
    builder.next_stage().unwrap();
    builder.stage_done(Ok(pool));
    builder.finish().unwrap()
}

fn failed(code: u32, msg: &str) -> PluginError {
    PluginError { code, msg: msg.to_string() }
}

#[test]
fn module_is_named_after_the_plugin() {
    assert_eq!(plugin("proxy", 0).plugin_file(), PluginFile::InPluginDir("proxy.wasm".to_string()));
    assert_eq!(plugin("", 0).plugin_file(), PluginFile::InPluginDir(".wasm".to_string()));
}

#[test]
fn module_path_overrides_the_plugin_directory() {
    let with_path = Plugin {
        name: "proxy".to_string(),
        plugin_path: Some("/opt/plugins/forward".to_string()),
        config: 0u32,
    };
    assert_eq!(with_path.plugin_file(), PluginFile::At("/opt/plugins/forward.wasm".to_string()));
}

#[test]
fn chain_is_built_back_to_front() {
    let configs = vec![plugin("cache", 10), plugin("filter", 20), plugin("proxy", 30)];
    let mut builder: ChainBuilder<u32, &str, u8, &str> = PluginChain::new(configs, Arc::new(0u8));

    let stage = builder.next_stage().unwrap();
    let store = Arc::new(0u8);
    assert_eq!(
        stage,
        Stage { plugin: plugin("proxy", 30), next_plugin: None, plugin_store_map: store.clone() }
    );
    // no second stage while the first is out
    assert_eq!(builder.next_stage(), None);
    builder.stage_done(Ok("proxy pool"));

    let stage = builder.next_stage().unwrap();
    assert_eq!(stage.plugin, plugin("filter", 20));
    assert_eq!(stage.next_plugin, Some("proxy pool"));
    builder.stage_done(Ok("filter pool"));

    let stage = builder.next_stage().unwrap();
    assert_eq!(stage.plugin, plugin("cache", 10));
    assert_eq!(stage.next_plugin, Some("filter pool"));
    builder.stage_done(Ok("cache pool"));

    assert_eq!(builder.next_stage(), None);
    let chain = builder.finish().unwrap();
    assert_eq!(*chain.plugin(), "cache pool");
}

#[test]
fn chain_of_one_plugin_has_no_next() {
    let mut builder: ChainBuilder<u32, u32, u8, &str> = PluginChain::new(vec![plugin("proxy", 1)], Arc::new(0u8));
    let stage = builder.next_stage().unwrap();
    assert_eq!(stage.next_plugin, None);
    builder.stage_done(Ok(7));
    assert_eq!(*builder.finish().unwrap().plugin(), 7);
}

#[test]
fn failed_stage_fails_the_chain() {
    let configs = vec![plugin("cache", 10), plugin("proxy", 30)];
    let mut builder: ChainBuilder<u32, &str, u8, &str> = PluginChain::new(configs, Arc::new(0u8));
    builder.next_stage().unwrap();
    builder.stage_done(Err(StageError::Load("no such file")));
    // nothing more is built once a stage has failed
    assert_eq!(builder.next_stage(), None);
    let result = builder.finish();
    assert_eq!(result.unwrap_err(), BuildError::Stage(StageError::Load("no such file")));
}

#[test]
fn failure_of_the_head_stage_fails_the_chain() {
    let configs = vec![plugin("cache", 10), plugin("proxy", 30)];
    let mut builder: ChainBuilder<u32, &str, u8, &str> = PluginChain::new(configs, Arc::new(0u8));
    builder.next_stage().unwrap();
    builder.stage_done(Ok("proxy pool"));
    builder.next_stage().unwrap();
    builder.stage_done(Err(StageError::Config("not a mapping")));
    let result = builder.finish();
    assert_eq!(result.unwrap_err(), BuildError::Stage(StageError::Config("not a mapping")));
}

#[test]
fn valid_config_gate() {
    // the plugin refuses its settings
    let refused = failed(1, "nameservers: invalid type: string, expected a sequence");
    let outcome: CallOutcome<(), &str> = CallOutcome::Returned(Err(refused.clone()));
    let checked = validate_config(outcome);
    assert_eq!(checked, Err(ValidateError::Invalid(refused.clone())));
    // so its stage fails, and with it the chain
    let mut builder: ChainBuilder<u32, u32, u8, &str> = PluginChain::new(vec![plugin("proxy", 1)], Arc::new(0u8));
    builder.next_stage().unwrap();
    builder.stage_done(Err(StageError::Invalid(checked.unwrap_err())));
    let result = builder.finish();
    assert_eq!(
        result.unwrap_err(),
        BuildError::Stage(StageError::Invalid(ValidateError::Invalid(refused)))
    );
}

#[test]
fn validate_config_outcomes() {
    let accepted: CallOutcome<(), &str> = CallOutcome::Returned(Ok(()));
    assert_eq!(validate_config(accepted), Ok(()));
    let trapped: CallOutcome<(), &str> = CallOutcome::Trapped("out of fuel");
    assert_eq!(validate_config(trapped), Err(ValidateError::Call("out of fuel")));
    let no_pool: CallOutcome<(), &str> = CallOutcome::PoolFailed("compile error");
    assert_eq!(validate_config(no_pool), Err(ValidateError::Pool("compile error")));
}

#[test]
fn chain_without_plugins_is_never_finished() {
    let mut builder: ChainBuilder<u32, u32, u8, &str> = PluginChain::new(Vec::new(), Arc::new(0u8));
    assert_eq!(builder.next_stage(), None);
    assert_eq!(builder.finish().unwrap_err(), BuildError::Unfinished);
}

#[test]
fn unreported_stage_leaves_chain_unfinished() {
    let mut builder: ChainBuilder<u32, u32, u8, &str> = PluginChain::new(vec![plugin("proxy", 1)], Arc::new(0u8));
    builder.next_stage().unwrap();
    assert_eq!(builder.finish().unwrap_err(), BuildError::Unfinished);

    let configs = vec![plugin("cache", 1), plugin("proxy", 2)];
    let mut builder: ChainBuilder<u32, u32, u8, &str> = PluginChain::new(configs, Arc::new(0u8));
    builder.next_stage().unwrap();
    builder.stage_done(Ok(5));
    assert_eq!(builder.finish().unwrap_err(), BuildError::Unfinished);
}

#[test]
fn report_without_stage_changes_nothing() {
    let mut builder: ChainBuilder<u32, u32, u8, &str> = PluginChain::new(vec![plugin("proxy", 1)], Arc::new(0u8));
    builder.stage_done(Ok(99));
    builder.stage_done(Err(StageError::Load("ignored")));
    let stage = builder.next_stage().unwrap();
    assert_eq!(stage.next_plugin, None);
    builder.stage_done(Ok(7));
    assert_eq!(*builder.finish().unwrap().plugin(), 7);
}

#[test]
fn plugin_answer_is_handed_on_unchanged() {
    let chain = chain_of(1);
    let response = response_packet(0x1234, 300);
    let outcome: CallOutcome<Vec<u8>, &str> = CallOutcome::Returned(Ok(response.clone()));
    assert_eq!(chain.handle_dns(&query_packet(0x1234), outcome), Ok(response));
}

#[test]
fn plugin_answer_that_does_not_decode_is_a_proto_error() {
    let chain = chain_of(1);
    let outcome: CallOutcome<Vec<u8>, &str> = CallOutcome::Returned(Ok(vec![1, 2, 3]));
    let answer = chain.handle_dns(&query_packet(0x1234), outcome);
    assert!(matches!(answer, Err(Error::Proto(_))));
    let outcome: CallOutcome<Vec<u8>, &str> = CallOutcome::Returned(Ok(Vec::new()));
    let answer = chain.handle_dns(&query_packet(0x1234), outcome);
    assert!(matches!(answer, Err(Error::Proto(_))));
}

#[test]
fn plugin_error_surfaces_as_servfail() {
    let chain = chain_of(1);
    let request = query_packet(0xbeef);
    let outcome: CallOutcome<Vec<u8>, &str> = CallOutcome::Returned(Err(failed(1, "x")));
    let reply = chain.handle_dns(&request, outcome).unwrap();

    // the request with the response flag set and the response code changed
    let mut expected = request.clone();
    expected[2] = 0x81;
    expected[3] = 0x02;
    assert_eq!(reply, expected);

    let message = Message::from_vec(&reply).unwrap();
    let asked = Message::from_vec(&request).unwrap();
    assert_eq!(message.message_type(), MessageType::Response);
    assert_eq!(message.response_code(), ResponseCode::ServFail);
    assert_eq!(message.id(), 0xbeef);
    assert_eq!(message.answer_count(), 0);
    assert!(message.answers().is_empty());
    assert_eq!(message.queries(), asked.queries());
}

#[test]
fn servfail_needs_a_request_that_decodes() {
    let chain = chain_of(1);
    let outcome: CallOutcome<Vec<u8>, &str> = CallOutcome::Returned(Err(failed(1, "x")));
    let answer = chain.handle_dns(&vec![0, 1, 2], outcome);
    assert!(matches!(answer, Err(Error::Proto(_))));
}

#[test]
fn trap_and_pool_failure_have_no_answer() {
    let chain = chain_of(1);
    let trapped: CallOutcome<Vec<u8>, &str> = CallOutcome::Trapped("unreachable");
    assert_eq!(
        chain.handle_dns(&query_packet(1), trapped),
        Err(Error::PluginRun("unreachable"))
    );
    let no_pool: CallOutcome<Vec<u8>, &str> = CallOutcome::PoolFailed("closed");
    assert_eq!(chain.handle_dns(&query_packet(1), no_pool), Err(Error::PluginPool("closed")));
}

#[test]
fn identity_plugin_changes_no_answer() {
    let chain = chain_of(1);
    let request = query_packet(7);
    // what the rest of the chain returns
    for downstream in [Ok(response_packet(7, 60)), Ok(vec![9]), Err(failed(5, "down"))] {
        let direct: CallOutcome<Vec<u8>, &str> = CallOutcome::Returned(downstream.clone());
        // the identity plugin gets it from the host and returns it as it is
        let handed_back: Option<CallOutcome<Vec<u8>, &str>> =
            Some(CallOutcome::Returned(downstream));
        let returned = rubydns::host_helper::next_plugin_answer(handed_back).unwrap().unwrap();
        let through: CallOutcome<Vec<u8>, &str> = CallOutcome::Returned(returned);
        assert_eq!(chain.handle_dns(&request, through), chain.handle_dns(&request, direct));
    }
}

#[test]
fn produced_response_survives_a_round_trip() {
    let chain = chain_of(1);
    let outcome: CallOutcome<Vec<u8>, &str> = CallOutcome::Returned(Err(failed(1, "x")));
    let reply = chain.handle_dns(&query_packet(0x0102), outcome).unwrap();
    let again = Message::from_vec(&reply).unwrap().to_vec().unwrap();
    assert_eq!(again, reply);
}

#[test]
fn every_stage_is_given_the_one_store_of_the_chain() {
    let store = Arc::new(std::sync::Mutex::new(Vec::<u8>::new()));
    let configs = vec![plugin("cache", 10), plugin("filter", 20), plugin("proxy", 30)];
    let mut builder: ChainBuilder<u32, u32, std::sync::Mutex<Vec<u8>>, &str> =
        PluginChain::new(configs, store.clone());
    let mut pool = 0;
    while let Some(stage) = builder.next_stage() {
        assert!(Arc::ptr_eq(&stage.plugin_store_map, &store));
        // what one pool writes, every other pool reads
        stage.plugin_store_map.lock().unwrap().push(pool as u8);
        pool += 1;
        builder.stage_done(Ok(pool));
    }
    assert_eq!(*store.lock().unwrap(), vec![0, 1, 2]);
    assert_eq!(*builder.finish().unwrap().plugin(), 3);
    // another chain has a store of its own
    let other = Arc::new(std::sync::Mutex::new(Vec::<u8>::new()));
    let mut builder: ChainBuilder<u32, u32, std::sync::Mutex<Vec<u8>>, &str> =
        PluginChain::new(vec![plugin("proxy", 1)], other.clone());
    let stage = builder.next_stage().unwrap();
    assert!(!Arc::ptr_eq(&stage.plugin_store_map, &store));
    assert!(Arc::ptr_eq(&stage.plugin_store_map, &other));
}
