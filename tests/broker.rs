use wiggles::broker::{
    consume_step, get_config_consumer, get_config_producer, now, publish_record, timestamp_from_millis,
    BrokerSettings, ConsumerAction, ConsumerEvent, MissingVar, PUBLISH_KEY, TOPIC,
};
use wiggles::channel::{Channel, NewChannel};

fn some(s: &str) -> Option<String> {
    Some(s.to_string())
}

fn settings() -> BrokerSettings {
    BrokerSettings::from_vars(some("host:9092"), some("PLAIN"), some("user"), some("secret"), some("group"))
        .expect("all parameters are given")
}

#[test]
fn settings_from_complete_vars() {
    let s = settings();
    assert_eq!(s.brokers, "host:9092");
    assert_eq!(s.sasl_mechanism, "PLAIN");
    assert_eq!(s.sasl_username, "user");
    assert_eq!(s.sasl_password, "secret");
    assert_eq!(s.group_id, "group");
}

#[test]
fn first_missing_var_is_reported() {
    let r = BrokerSettings::from_vars(None, None, some("u"), some("p"), some("g"));
    assert_eq!(r.unwrap_err(), MissingVar::BootstrapServer);
    let r = BrokerSettings::from_vars(some("b"), None, None, some("p"), some("g"));
    assert_eq!(r.unwrap_err(), MissingVar::SaslMechanism);
    let r = BrokerSettings::from_vars(some("b"), some("m"), None, some("p"), None);
    assert_eq!(r.unwrap_err(), MissingVar::SaslUsername);
    let r = BrokerSettings::from_vars(some("b"), some("m"), some("u"), None, some("g"));
    assert_eq!(r.unwrap_err(), MissingVar::SaslPassword);
    let r = BrokerSettings::from_vars(some("b"), some("m"), some("u"), some("p"), None);
    assert_eq!(r.unwrap_err(), MissingVar::GroupId);
}

#[test]
fn missing_var_names() {
    assert_eq!(MissingVar::BootstrapServer.var_name(), "BOOTSTRAP_SERVER");
    assert_eq!(MissingVar::SaslMechanism.var_name(), "SASL_MECHANISM");
    assert_eq!(MissingVar::SaslUsername.var_name(), "SASL_USERNAME");
    assert_eq!(MissingVar::SaslPassword.var_name(), "SASL_PASSWORD");
    assert_eq!(MissingVar::GroupId.var_name(), "GROUP_ID");
}

#[test]
fn producer_configuration() {
    let c = get_config_producer(&settings());
    assert_eq!(c.get("bootstrap.servers"), Some("host:9092"));
    assert_eq!(c.get("session.timeout.ms"), Some("4500"));
    assert_eq!(c.get("security.protocol"), Some("SASL_SSL"));
    assert_eq!(c.get("sasl.mechanisms"), Some("PLAIN"));
    assert_eq!(c.get("sasl.username"), Some("user"));
    assert_eq!(c.get("sasl.password"), Some("secret"));
    assert_eq!(c.get("group.id"), None);
}

#[test]
fn consumer_configuration() {
    let c = get_config_consumer(&settings());
    assert_eq!(c.get("enable.auto.commit"), Some("true"));
    assert_eq!(c.get("bootstrap.servers"), Some("host:9092"));
    assert_eq!(c.get("group.id"), Some("group"));
    assert_eq!(c.get("session.timeout.ms"), Some("6000"));
    assert_eq!(c.get("security.protocol"), Some("SASL_SSL"));
    assert_eq!(c.get("sasl.mechanisms"), Some("PLAIN"));
    assert_eq!(c.get("sasl.username"), Some("user"));
    assert_eq!(c.get("sasl.password"), Some("secret"));
}

#[test]
fn record_for_publishing() {
    let r = publish_record("{}".to_string(), Some(17));
    assert_eq!(r.topic, "rust-messages");
    assert_eq!(r.topic, TOPIC);
    assert_eq!(r.key, "0");
    assert_eq!(r.key, PUBLISH_KEY);
    assert_eq!(r.payload, "{}");
    assert_eq!(r.timestamp, Some(17));
    assert_eq!(publish_record(String::new(), None).timestamp, None);
}

#[test]
fn millis_to_timestamp() {
    assert_eq!(timestamp_from_millis(0), Some(0));
    assert_eq!(timestamp_from_millis(1_700_000_000_000), Some(1_700_000_000_000));
    assert_eq!(timestamp_from_millis(i64::MAX as u128), Some(i64::MAX));
    assert_eq!(timestamp_from_millis(i64::MAX as u128 + 1), None);
    assert_eq!(timestamp_from_millis(u128::MAX), None);
}

#[test]
fn clock_reads_after_the_epoch() {
    let t = now().expect("the clock reads after the epoch");
    assert!(t > 1_600_000_000_000);
}

#[test]
fn consumer_decisions() {
    match consume_step(ConsumerEvent::Received(some("{\"id\":1}"))) {
        ConsumerAction::Forward(p) => assert_eq!(p, "{\"id\":1}"),
        other => panic!("expected a forward, got {:?}", other),
    }
    assert!(matches!(consume_step(ConsumerEvent::Received(None)), ConsumerAction::Skip));
    assert!(matches!(consume_step(ConsumerEvent::BrokerError), ConsumerAction::Skip));
}

#[test]
fn channels_carry_payloads_in_order() {
    let c = Channel::create_channel();
    c.sender.send("a".to_string()).unwrap();
    c.sender.send("b".to_string()).unwrap();
    assert_eq!(c.receiver.recv().unwrap(), "a");
    assert_eq!(c.receiver.try_recv().unwrap(), "b");
    assert!(c.receiver.try_recv().is_err());
    let n = NewChannel::create_channel();
    n.sender.send("c".to_string()).unwrap();
    assert_eq!(n.receiver.recv().unwrap(), "c");
}
