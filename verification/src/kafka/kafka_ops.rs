//! The properties of a client and the client configuration made from them.

use crate::kafka::KafkaOpsError;
use crate::text::bool_text;
use crate::text::bool_to_string;
use crate::text::nat_digits;
use crate::text::str_eq;
use crate::text::u64_to_string;
use rdkafka::config::RDKafkaLogLevel;
use rdkafka::ClientConfig;
use vstd::prelude::*;
use vstd::string::StringExecFns;

verus! {

/// Name of the property that lists the brokers to start from.
pub const BOOTSTRAP: &'static str = "bootstrap.servers";

/// Name of the property that names the client.
pub const CLIENT_ID: &'static str = "client.id";

/// Name of the property that names the consumer group.
pub const GROUP_ID: &'static str = "group.id";

/// No property at all.
pub open spec fn no_properties() -> Map<Seq<char>, Seq<char>> {
    Map::empty()
}

/// The properties that `entries` sets, one after the other: where a name
/// comes twice, the later value stands.
pub open spec fn properties_of(entries: Seq<(String, String)>) -> Map<Seq<char>, Seq<char>>
    decreases entries.len(),
{
    if entries.len() == 0 {
        Map::empty()
    } else {
        properties_of(entries.drop_last()).insert(entries.last().0@, entries.last().1@)
    }
}

/// Properties of a client: each name has at most one value.
#[derive(Debug)]
pub struct Pref {
    // Every setting that was made, in the order in which it was made; for a
    // name that was set more than once the last setting counts.
    entries: Vec<(String, String)>,
}

impl View for Pref {
    type V = Map<Seq<char>, Seq<char>>;

    closed spec fn view(&self) -> Map<Seq<char>, Seq<char>> {
        properties_of(self.entries@)
    }
}

impl Clone for Pref {
    fn clone(&self) -> (r: Self)
        ensures
            r@ == self@,
    {
        let mut entries: Vec<(String, String)> = Vec::new();
        let mut i: usize = 0;
        while i < self.entries.len()
            invariant
                i <= self.entries.len(),
                entries@.len() == i,
                properties_of(entries@) == properties_of(self.entries@.take(i as int)),
            decreases self.entries.len() - i,
        {
            let name = self.entries[i].0.clone();
            let value = self.entries[i].1.clone();
            proof {
                let next = self.entries@.take(i + 1);
                assert(next.drop_last() =~= self.entries@.take(i as int));
                assert(entries@.push((name, value)).drop_last() =~= entries@);
            }
            entries.push((name, value));
            i += 1;
        }
        assert(self.entries@.take(i as int) =~= self.entries@);
        Pref { entries }
    }
}

impl Pref {
    /// No property at all.
    pub fn new() -> (r: Self)
        ensures
            r@ == no_properties(),
    {
        Pref { entries: Vec::new() }
    }

    /// Gives the property `name` the value `value`; a value that the name
    /// had before is gone.
    pub fn insert(&mut self, name: String, value: String)
        ensures
            final(self)@ == old(self)@.insert(name@, value@),
    {
        proof {
            assert(self.entries@.push((name, value)).drop_last() =~= self.entries@);
        }
        self.entries.push((name, value));
    }

    /// The value of the property `name`, if it has one.
    pub fn get(&self, name: &str) -> (r: Option<&String>)
        ensures
            match r {
                Some(value) => self@.contains_key(name@) && self@[name@] == value@,
                None => !self@.contains_key(name@),
            },
    {
        let mut i: usize = self.entries.len();
        assert(self.entries@.take(i as int) =~= self.entries@);
        while i > 0
            invariant
                i <= self.entries.len(),
                properties_of(self.entries@).contains_key(name@) == properties_of(
                    self.entries@.take(i as int),
                ).contains_key(name@),
                properties_of(self.entries@).contains_key(name@) ==> properties_of(
                    self.entries@,
                )[name@] == properties_of(self.entries@.take(i as int))[name@],
            decreases i,
        {
            proof {
                let upto = self.entries@.take(i as int);
                assert(upto.drop_last() =~= self.entries@.take(i - 1));
            }
            i -= 1;
            if str_eq(self.entries[i].0.as_str(), name) {
                return Some(&self.entries[i].1);
            }
        }
        None
    }
}

/// The log levels that a client can be given, from the most urgent down.
#[derive(Debug, Clone, Copy, PartialEq, Eq, Structural)]
pub enum LogLevel {
    Emerg,
    Alert,
    Critical,
    Error,
    Warning,
    Notice,
    Info,
    Debug,
}

impl LogLevel {
    /// The number of a level: 0 for the most urgent, 7 for the least.
    pub open spec fn number(self) -> int {
        match self {
            LogLevel::Emerg => 0,
            LogLevel::Alert => 1,
            LogLevel::Critical => 2,
            LogLevel::Error => 3,
            LogLevel::Warning => 4,
            LogLevel::Notice => 5,
            LogLevel::Info => 6,
            LogLevel::Debug => 7,
        }
    }
}

/// The configuration of a client as `rdkafka` holds it. Nothing of it is
/// visible here but through `config_entries` and `config_log_level`.
#[verifier::external_type_specification]
#[verifier::external_body]
pub struct ExClientConfig(ClientConfig);

/// The parameters that were set in a client configuration, each with its
/// value.
pub uninterp spec fn config_entries(config: ClientConfig) -> Map<Seq<char>, Seq<char>>;

/// The number of the log level of a client configuration, 0 for `Emerg` up
/// to 7 for `Debug`.
pub uninterp spec fn config_log_level(config: ClientConfig) -> int;

/// `rdkafka::ClientConfig::new`: a configuration in which no parameter is
/// set. Its log level is taken from the process's logger, so nothing is said
/// of it.
#[verifier::external_body]
fn client_config_new() -> (r: ClientConfig)
    ensures
        config_entries(r) == no_properties(),
{
    ClientConfig::new()
}

/// `rdkafka::ClientConfig::set`: sets one parameter, in place of a value
/// that it had before. Other parameters and the log level stay.
#[verifier::external_body]
fn client_config_set(config: &mut ClientConfig, key: &str, value: &str)
    ensures
        config_entries(*final(config)) == config_entries(*old(config)).insert(key@, value@),
        config_log_level(*final(config)) == config_log_level(*old(config)),
{
    config.set(key, value);
}

/// `rdkafka::ClientConfig::set_log_level`: sets the log level. The
/// parameters stay.
#[verifier::external_body]
fn client_config_set_log_level(config: &mut ClientConfig, level: LogLevel)
    ensures
        config_entries(*final(config)) == config_entries(*old(config)),
        config_log_level(*final(config)) == level.number(),
{
    config.set_log_level(
        match level {
            LogLevel::Emerg => RDKafkaLogLevel::Emerg,
            LogLevel::Alert => RDKafkaLogLevel::Alert,
            LogLevel::Critical => RDKafkaLogLevel::Critical,
            LogLevel::Error => RDKafkaLogLevel::Error,
            LogLevel::Warning => RDKafkaLogLevel::Warning,
            LogLevel::Notice => RDKafkaLogLevel::Notice,
            LogLevel::Info => RDKafkaLogLevel::Info,
            LogLevel::Debug => RDKafkaLogLevel::Debug,
        },
    );
}

/// The properties of a client together with the client configuration that
/// was made from them.
pub struct KafkaOps {
    preferences: Pref,
    client_config: Option<ClientConfig>,
}

impl KafkaOps {
    /// The properties that the client was opened with.
    pub closed spec fn properties(&self) -> Map<Seq<char>, Seq<char>> {
        self.preferences@
    }

    /// The client configuration, if the client is open.
    pub closed spec fn configuration(&self) -> Option<ClientConfig> {
        self.client_config
    }

    /// Starts the description of a client, with no property set.
    pub fn builder() -> (r: KafkaOpsBuilder)
        ensures
            r@ == no_properties(),
    {
        KafkaOpsBuilder { preferences: Pref::new() }
    }

    /// The properties that the client was opened with.
    pub fn preferences(&self) -> (r: &Pref)
        ensures
            r@ == self.properties(),
    {
        &self.preferences
    }

    /// The configuration from which consumers, producers and admin clients
    /// are created. A client that is not open has none.
    pub fn client_config(&self) -> (r: Result<&ClientConfig, KafkaOpsError>)
        ensures
            match self.configuration() {
                Some(config) => r == Ok::<&ClientConfig, KafkaOpsError>(&config),
                None => r == Err::<&ClientConfig, KafkaOpsError>(KafkaOpsError::ClientNotOpen),
            },
    {
        match &self.client_config {
            None => Err(KafkaOpsError::ClientNotOpen),
            Some(config) => Ok(config),
        }
    }
}

/// The description of a client, property by property.
pub struct KafkaOpsBuilder {
    preferences: Pref,
}

impl View for KafkaOpsBuilder {
    type V = Map<Seq<char>, Seq<char>>;

    closed spec fn view(&self) -> Map<Seq<char>, Seq<char>> {
        self.preferences@
    }
}

impl KafkaOpsBuilder {
    /// Sets the property `prop_name`.
    pub fn with_prop(self, prop_name: &str, prop_value: &str) -> (r: Self)
        ensures
            r@ == self@.insert(prop_name@, prop_value@),
    {
        let mut builder = self;
        builder.preferences.insert(String::from_str(prop_name), String::from_str(prop_value));
        builder
    }

    /// Sets the brokers to start from, in the format `host1:port1,host2:port2`.
    pub fn with_bootstrap(self, bootstrap: &str) -> (r: Self)
        ensures
            r@ == self@.insert("bootstrap.servers"@, bootstrap@),
    {
        let mut builder = self;
        builder.preferences.insert(String::from_str(BOOTSTRAP), String::from_str(bootstrap));
        builder
    }

    /// Sets the name of the client.
    pub fn with_client_id(self, client_id: &str) -> (r: Self)
        ensures
            r@ == self@.insert("client.id"@, client_id@),
    {
        let mut builder = self;
        builder.preferences.insert(String::from_str(CLIENT_ID), String::from_str(client_id));
        builder
    }

    /// Sets the consumer group.
    pub fn with_group_id(self, group_id: &str) -> (r: Self)
        ensures
            r@ == self@.insert("group.id"@, group_id@),
    {
        let mut builder = self;
        builder.preferences.insert(String::from_str(GROUP_ID), String::from_str(group_id));
        builder
    }

    /// Sets the security protocol, `PLAINTEXT` or `SSL`.
    pub fn with_security_protocol(self, protocol: &str) -> (r: Self)
        ensures
            r@ == self@.insert("security.protocol"@, protocol@),
    {
        let mut builder = self;
        builder.preferences.insert(
            String::from_str("security.protocol"),
            String::from_str(protocol),
        );
        builder
    }

    /// Says whether the server certificate is checked.
    pub fn with_ssl_cert_verification(self, flag: bool) -> (r: Self)
        ensures
            r@ == self@.insert("enable.ssl.certificate.verification"@, bool_text(flag)),
    {
        let mut builder = self;
        builder.preferences.insert(
            String::from_str("enable.ssl.certificate.verification"),
            bool_to_string(flag),
        );
        builder
    }

    /// Sets the location of the keystore.
    pub fn with_ssl_keystore_location(self, location: &str) -> (r: Self)
        ensures
            r@ == self@.insert("ssl.keystore.location"@, location@),
    {
        let mut builder = self;
        builder.preferences.insert(
            String::from_str("ssl.keystore.location"),
            String::from_str(location),
        );
        builder
    }

    /// Sets the password of the keystore.
    pub fn with_ssl_keystore_password(self, password: &str) -> (r: Self)
        ensures
            r@ == self@.insert("ssl.keystore.password"@, password@),
    {
        let mut builder = self;
        builder.preferences.insert(
            String::from_str("ssl.keystore.password"),
            String::from_str(password),
        );
        builder
    }

    /// Sets the size of the queue of fetched messages, in kilobytes.
    pub fn with_message_max_bytes(self, size: u64) -> (r: Self)
        ensures
            r@ == self@.insert("queued.max.messages.kbytes"@, nat_digits(size as nat)),
    {
        let mut builder = self;
        builder.preferences.insert(
            String::from_str("queued.max.messages.kbytes"),
            u64_to_string(size),
        );
        builder
    }

    /// Sets the largest number of bytes fetched for one message.
    pub fn with_fetch_max_bytes(self, size: u64) -> (r: Self)
        ensures
            r@ == self@.insert("fetch.message.max.bytes"@, nat_digits(size as nat)),
    {
        let mut builder = self;
        builder.preferences.insert(String::from_str("fetch.message.max.bytes"), u64_to_string(size));
        builder
    }

    /// Makes the client configuration: every property of the description is
    /// set as a parameter of the same name, and the log level is the given
    /// one.
    pub fn open(&self, log_level: LogLevel) -> (r: Result<KafkaOps, KafkaOpsError>)
        ensures
            r matches Ok(ops) && ops.properties() == self@ && (ops.configuration() matches Some(
                config,
            ) && config_entries(config) == self@ && config_log_level(config)
                == log_level.number()),
    {
        let mut client_config = client_config_new();
        client_config_set_log_level(&mut client_config, log_level);
        let mut i: usize = 0;
        while i < self.preferences.entries.len()
            invariant
                i <= self.preferences.entries.len(),
                config_entries(client_config) == properties_of(
                    self.preferences.entries@.take(i as int),
                ),
                config_log_level(client_config) == log_level.number(),
            decreases self.preferences.entries.len() - i,
        {
            proof {
                let next = self.preferences.entries@.take(i + 1);
                assert(next.drop_last() =~= self.preferences.entries@.take(i as int));
            }
            let entry = &self.preferences.entries[i];
            client_config_set(&mut client_config, entry.0.as_str(), entry.1.as_str());
            i += 1;
        }
        assert(self.preferences.entries@.take(i as int) =~= self.preferences.entries@);
        Ok(KafkaOps { preferences: self.preferences.clone(), client_config: Some(client_config) })
    }
}

} // verus!
