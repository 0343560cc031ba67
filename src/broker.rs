use vstd::prelude::*;
use rdkafka::config::ClientConfig;
use std::time::{Duration, SystemTime};

verus! {

/// The topic that every instance publishes to and subscribes to.
pub const TOPIC: &'static str = "rust-messages";

/// The key under which messages are published.
pub const PUBLISH_KEY: &'static str = "0";

/// A required connection parameter that was not supplied.
#[derive(Clone, Copy, Debug, PartialEq, Eq, Structural)]
pub enum MissingVar {
    BootstrapServer,
    SaslMechanism,
    SaslUsername,
    SaslPassword,
    GroupId,
}

impl MissingVar {
    /// The name of the environment variable that supplies the parameter.
    pub fn var_name(&self) -> (r: &'static str)
        ensures
            r@ == match *self {
                MissingVar::BootstrapServer => "BOOTSTRAP_SERVER"@,
                MissingVar::SaslMechanism => "SASL_MECHANISM"@,
                MissingVar::SaslUsername => "SASL_USERNAME"@,
                MissingVar::SaslPassword => "SASL_PASSWORD"@,
                MissingVar::GroupId => "GROUP_ID"@,
            },
    {
        match self {
            MissingVar::BootstrapServer => "BOOTSTRAP_SERVER",
            MissingVar::SaslMechanism => "SASL_MECHANISM",
            MissingVar::SaslUsername => "SASL_USERNAME",
            MissingVar::SaslPassword => "SASL_PASSWORD",
            MissingVar::GroupId => "GROUP_ID",
        }
    }
}

/// The broker connection parameters, gathered once at startup.
#[derive(Debug)]
pub struct BrokerSettings {
    pub brokers: String,
    pub sasl_mechanism: String,
    pub sasl_username: String,
    pub sasl_password: String,
    pub group_id: String,
}

impl BrokerSettings {
    /// Builds the settings from the supplied parameters; the first one missing, in the order
    /// of the arguments, is reported.
    pub fn from_vars(
        brokers: Option<String>,
        sasl_mechanism: Option<String>,
        sasl_username: Option<String>,
        sasl_password: Option<String>,
        group_id: Option<String>,
    ) -> (r: Result<BrokerSettings, MissingVar>)
        ensures
            brokers is None ==> r == Err::<BrokerSettings, MissingVar>(MissingVar::BootstrapServer),
            brokers is Some && sasl_mechanism is None ==> r == Err::<BrokerSettings, MissingVar>(
                MissingVar::SaslMechanism,
            ),
            brokers is Some && sasl_mechanism is Some && sasl_username is None ==> r == Err::<
                BrokerSettings,
                MissingVar,
            >(MissingVar::SaslUsername),
            brokers is Some && sasl_mechanism is Some && sasl_username is Some && sasl_password is None
                ==> r == Err::<BrokerSettings, MissingVar>(MissingVar::SaslPassword),
            brokers is Some && sasl_mechanism is Some && sasl_username is Some && sasl_password is Some
                && group_id is None ==> r == Err::<BrokerSettings, MissingVar>(MissingVar::GroupId),
            brokers is Some && sasl_mechanism is Some && sasl_username is Some && sasl_password is Some
                && group_id is Some ==> r == Ok::<BrokerSettings, MissingVar>(
                (BrokerSettings {
                    brokers: brokers->0,
                    sasl_mechanism: sasl_mechanism->0,
                    sasl_username: sasl_username->0,
                    sasl_password: sasl_password->0,
                    group_id: group_id->0,
                }),
            ),
    {
        let brokers = match brokers {
            Some(v) => v,
            None => return Err(MissingVar::BootstrapServer),
        };
        let sasl_mechanism = match sasl_mechanism {
            Some(v) => v,
            None => return Err(MissingVar::SaslMechanism),
        };
        let sasl_username = match sasl_username {
            Some(v) => v,
            None => return Err(MissingVar::SaslUsername),
        };
        let sasl_password = match sasl_password {
            Some(v) => v,
            None => return Err(MissingVar::SaslPassword),
        };
        let group_id = match group_id {
            Some(v) => v,
            None => return Err(MissingVar::GroupId),
        };
        Ok(BrokerSettings { brokers, sasl_mechanism, sasl_username, sasl_password, group_id })
    }
}

/// rdkafka's client configuration; proofs see it only through `config_entries`.
#[verifier::external_type_specification]
#[verifier::external_body]
pub struct ExClientConfig(ClientConfig);

/// Parameter names and values of a client configuration.
pub type ConfigMap = Map<Seq<char>, Seq<char>>;

/// The parameters that a client configuration holds, by name.
pub uninterp spec fn config_entries(c: ClientConfig) -> ConfigMap;

/// Relies on `ClientConfig::new`: a fresh configuration holds no parameter.
#[verifier::external_body]
fn empty_config() -> (r: ClientConfig)
    ensures
        config_entries(r) == ConfigMap::empty(),
{
    ClientConfig::new()
}

/// Relies on `ClientConfig::set`: the pair is inserted into the configuration's map,
/// replacing any earlier value under that name.
#[verifier::external_body]
fn set_entry(c: &mut ClientConfig, key: &str, value: &str)
    ensures
        config_entries(*final(c)) == config_entries(*old(c)).insert(key@, value@),
{
    c.set(key, value);
}

/// The parameters of the producer client.
pub open spec fn producer_entries(s: BrokerSettings) -> ConfigMap {
    map![
        "bootstrap.servers"@ => s.brokers@,
        "session.timeout.ms"@ => "4500"@,
        "security.protocol"@ => "SASL_SSL"@,
        "sasl.mechanisms"@ => s.sasl_mechanism@,
        "sasl.username"@ => s.sasl_username@,
        "sasl.password"@ => s.sasl_password@,
    ]
}

/// The parameters of the consumer client.
pub open spec fn consumer_entries(s: BrokerSettings) -> ConfigMap {
    map![
        "enable.auto.commit"@ => "true"@,
        "bootstrap.servers"@ => s.brokers@,
        "group.id"@ => s.group_id@,
        "session.timeout.ms"@ => "6000"@,
        "security.protocol"@ => "SASL_SSL"@,
        "sasl.mechanisms"@ => s.sasl_mechanism@,
        "sasl.username"@ => s.sasl_username@,
        "sasl.password"@ => s.sasl_password@,
    ]
}

/// The configuration of the client that publishes messages.
pub fn get_config_producer(settings: &BrokerSettings) -> (r: ClientConfig)
    ensures
        config_entries(r) == producer_entries(*settings),
{
    let mut c = empty_config();
    set_entry(&mut c, "bootstrap.servers", settings.brokers.as_str());
    set_entry(&mut c, "session.timeout.ms", "4500");
    set_entry(&mut c, "security.protocol", "SASL_SSL");
    set_entry(&mut c, "sasl.mechanisms", settings.sasl_mechanism.as_str());
    set_entry(&mut c, "sasl.username", settings.sasl_username.as_str());
    set_entry(&mut c, "sasl.password", settings.sasl_password.as_str());
    c
}

/// The configuration of the client that subscribes to the topic.
pub fn get_config_consumer(settings: &BrokerSettings) -> (r: ClientConfig)
    ensures
        config_entries(r) == consumer_entries(*settings),
{
    let mut c = empty_config();
    set_entry(&mut c, "enable.auto.commit", "true");
    set_entry(&mut c, "bootstrap.servers", settings.brokers.as_str());
    set_entry(&mut c, "group.id", settings.group_id.as_str());
    set_entry(&mut c, "session.timeout.ms", "6000");
    set_entry(&mut c, "security.protocol", "SASL_SSL");
    set_entry(&mut c, "sasl.mechanisms", settings.sasl_mechanism.as_str());
    set_entry(&mut c, "sasl.username", settings.sasl_username.as_str());
    set_entry(&mut c, "sasl.password", settings.sasl_password.as_str());
    c
}

/// One message to publish on the broker.
#[derive(Debug)]
pub struct PublishRecord {
    pub topic: String,
    pub key: String,
    pub payload: String,
    /// Milliseconds since the Unix epoch; `None` leaves the time to the broker.
    pub timestamp: Option<i64>,
}

/// The record that publishes an encoded message on the topic.
pub fn publish_record(payload: String, timestamp: Option<i64>) -> (r: PublishRecord)
    ensures
        r.topic@ == TOPIC@,
        r.key@ == PUBLISH_KEY@,
        r.payload == payload,
        r.timestamp == timestamp,
{
    PublishRecord { topic: TOPIC.to_owned(), key: PUBLISH_KEY.to_owned(), payload, timestamp }
}

/// What the broker consumer got from one receive.
#[derive(Debug)]
pub enum ConsumerEvent {
    /// The receive failed; the broker may recover.
    BrokerError,
    /// A message arrived: its payload as text, or `None` when it had none or it was not UTF-8.
    Received(Option<String>),
}

/// What the broker consumer does next.
#[derive(Debug)]
pub enum ConsumerAction {
    /// Log and go on receiving.
    Skip,
    /// Send the payload on the delivery channel, then go on receiving.
    Forward(String),
}

/// The consumer's decision on one receive: a text payload is forwarded; an error, an empty
/// message or an unreadable payload is skipped.
pub fn consume_step(event: ConsumerEvent) -> (r: ConsumerAction)
    ensures
        match event {
            ConsumerEvent::Received(Some(p)) => r == ConsumerAction::Forward(p),
            _ => r == ConsumerAction::Skip,
        },
{
    match event {
        ConsumerEvent::Received(Some(p)) => ConsumerAction::Forward(p),
        _ => ConsumerAction::Skip,
    }
}

/// A reading of the system clock, opaque to proofs.
#[verifier::external_type_specification]
#[verifier::external_body]
pub struct ExSystemTime(SystemTime);

/// Relies on `SystemTime::now`: the clock's current reading; nothing is promised of it.
pub assume_specification[ SystemTime::now ]() -> SystemTime;

/// Relies on `SystemTime::duration_since`: the time elapsed since the Unix epoch, or `None`
/// when the clock reads earlier than the epoch.
#[verifier::external_body]
fn since_unix_epoch(t: &SystemTime) -> (r: Option<Duration>) {
    t.duration_since(std::time::UNIX_EPOCH).ok()
}

/// Relies on `Duration::as_millis`: the whole milliseconds of a duration.
#[verifier::external_body]
fn whole_millis(d: &Duration) -> (r: u128) {
    d.as_millis()
}

/// A millisecond count as a broker timestamp, when it fits one.
pub fn timestamp_from_millis(ms: u128) -> (r: Option<i64>)
    ensures
        r == if ms <= i64::MAX as u128 {
            Some(ms as i64)
        } else {
            None::<i64>
        },
{
    if ms <= i64::MAX as u128 {
        Some(ms as i64)
    } else {
        None
    }
}

/// The current time in milliseconds since the Unix epoch, when the clock reads a time after
/// the epoch that fits a timestamp.
pub fn now() -> (r: Option<i64>)
    ensures
        r matches Some(t) ==> t >= 0,
{
    let t = SystemTime::now();
    match since_unix_epoch(&t) {
        Some(d) => timestamp_from_millis(whole_millis(&d)),
        None => None,
    }
}

} // verus!
