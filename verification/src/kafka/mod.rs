//! Connection settings of a Kafka cluster and what is derived from them.

pub mod admin_ops;
pub mod consumer_ops;
pub mod kafka_ops;
pub mod password;

pub use admin_ops::AdminCommand;
pub use kafka_ops::KafkaOps;
pub use kafka_ops::Pref;
pub use password::Password;
pub use password::PasswordView;

use crate::kafka::kafka_ops::config_entries;
use crate::kafka::kafka_ops::config_log_level;
use crate::kafka::kafka_ops::no_properties;
use crate::kafka::kafka_ops::LogLevel;
use crate::kafka::password::opens_to;
use crate::text::bool_text;
use crate::text::nat_digits;
use rdkafka::message::FromBytes;
use vstd::prelude::*;
use vstd::std_specs::cmp::PartialEqSpecImpl;
use vstd::string::StringExecFns;
use vstd::utf8::decode_utf8;
use vstd::utf8::valid_utf8;

verus! {

/// Describes errors for kafka operations
#[derive(Debug)]
pub enum KafkaOpsError {
    /// The client is not open: `open()` has to be called first.
    ClientNotOpen,
    /// No stored configuration under the given server name.
    ServerConfigNotFound(String),
    /// Any other failure.
    Unknown,
    /// The cipher library refused to encrypt or decrypt.
    Cipher,
    /// A decrypted password is not valid UTF-8.
    PasswordNotText,
}

/// The message of an error, as plain text.
pub open spec fn error_message(e: KafkaOpsError) -> Seq<char> {
    match e {
        KafkaOpsError::ClientNotOpen => "the client is not open. You must call open() first"@,
        KafkaOpsError::ServerConfigNotFound(name) => "server configuration for "@ + name@
            + " not found"@,
        KafkaOpsError::Unknown => "unknown kafka operations error"@,
        KafkaOpsError::Cipher => "the password cipher failed"@,
        KafkaOpsError::PasswordNotText => "the decrypted password is not valid text"@,
    }
}

impl KafkaOpsError {
    /// The message of this error.
    pub fn to_string(&self) -> (r: String)
        ensures
            r@ == error_message(*self),
    {
        match self {
            KafkaOpsError::ClientNotOpen => String::from_str(
                "the client is not open. You must call open() first",
            ),
            KafkaOpsError::ServerConfigNotFound(name) => {
                let mut out = String::from_str("server configuration for ");
                out.append(name.as_str());
                out.append(" not found");
                out
            },
            KafkaOpsError::Unknown => String::from_str("unknown kafka operations error"),
            KafkaOpsError::Cipher => String::from_str("the password cipher failed"),
            KafkaOpsError::PasswordNotText => String::from_str(
                "the decrypted password is not valid text",
            ),
        }
    }
}

/// What a [`KafkaServer`] holds, as plain values.
pub struct KafkaServerView {
    pub name: Seq<char>,
    pub bootstrap: Seq<char>,
    pub ssl_verification: bool,
    pub ssl_keystore_location: Option<Seq<char>>,
    pub ssl_keystore_password: Option<PasswordView>,
    pub ssl_security_protocol: Seq<char>,
    pub message_max_bytes: u64,
    pub fetch_max_bytes: u64,
}

/// Kafka server parameters
#[derive(Debug)]
pub struct KafkaServer {
    /// Unique name of the server; two configurations with one name are the
    /// same server.
    pub name: String,
    /// Kafka brokers in the format `host1:port1,host2:port2`.
    pub bootstrap: String,
    /// Whether the server certificate is checked.
    pub ssl_verification: bool,
    /// Keystore location in PKCS#12 format.
    pub ssl_keystore_location: Option<String>,
    /// Password of the keystore, encrypted.
    pub ssl_keystore_password: Option<Password>,
    /// Either `PLAINTEXT` or `SSL`.
    pub ssl_security_protocol: String,
    pub message_max_bytes: u64,
    pub fetch_max_bytes: u64,
}

impl View for KafkaServer {
    type V = KafkaServerView;

    open spec fn view(&self) -> KafkaServerView {
        KafkaServerView {
            name: self.name@,
            bootstrap: self.bootstrap@,
            ssl_verification: self.ssl_verification,
            ssl_keystore_location: match self.ssl_keystore_location {
                Some(location) => Some(location@),
                None => None,
            },
            ssl_keystore_password: match self.ssl_keystore_password {
                Some(password) => Some(password@),
                None => None,
            },
            ssl_security_protocol: self.ssl_security_protocol@,
            message_max_bytes: self.message_max_bytes,
            fetch_max_bytes: self.fetch_max_bytes,
        }
    }
}

impl Clone for KafkaServer {
    fn clone(&self) -> (r: Self)
        ensures
            r@ == self@,
    {
        KafkaServer {
            name: self.name.clone(),
            bootstrap: self.bootstrap.clone(),
            ssl_verification: self.ssl_verification,
            ssl_keystore_location: match &self.ssl_keystore_location {
                Some(location) => Some(location.clone()),
                None => None,
            },
            ssl_keystore_password: match &self.ssl_keystore_password {
                Some(password) => Some(password.clone()),
                None => None,
            },
            ssl_security_protocol: self.ssl_security_protocol.clone(),
            message_max_bytes: self.message_max_bytes,
            fetch_max_bytes: self.fetch_max_bytes,
        }
    }
}

impl PartialEq for KafkaServer {
    /// Two configurations are equal when their names are, whatever their
    /// other fields hold.
    fn eq(&self, other: &Self) -> (r: bool) {
        self.name == other.name
    }
}

impl Eq for KafkaServer {

}

impl PartialEqSpecImpl for KafkaServer {
    open spec fn obeys_eq_spec() -> bool {
        true
    }

    open spec fn eq_spec(&self, other: &Self) -> bool {
        self.name@ == other.name@
    }
}

/// The properties of a client of the server, without those of a keystore.
pub open spec fn base_properties(server: KafkaServerView) -> Map<Seq<char>, Seq<char>> {
    no_properties().insert("enable.auto.commit"@, "false"@).insert(
        "bootstrap.servers"@,
        server.bootstrap,
    ).insert(
        "enable.ssl.certificate.verification"@,
        bool_text(server.ssl_verification),
    ).insert("security.protocol"@, server.ssl_security_protocol).insert(
        "group.id"@,
        "kators-g-1"@,
    ).insert("queued.max.messages.kbytes"@, nat_digits(server.message_max_bytes as nat)).insert(
        "fetch.message.max.bytes"@,
        nat_digits(server.fetch_max_bytes as nat),
    )
}

/// The properties of a client of the server. `secret` is the outcome of
/// decrypting the keystore password, where the server has a keystore with a
/// password. With a keystore the location and the password are among the
/// properties; a password that could not be decrypted, or that is no text,
/// is an error.
pub open spec fn client_properties(
    server: KafkaServerView,
    secret: Option<Result<Seq<u8>, KafkaOpsError>>,
) -> Result<Map<Seq<char>, Seq<char>>, KafkaOpsError> {
    match (server.ssl_keystore_location, secret) {
        (Some(location), Some(Ok(bytes))) => if valid_utf8(bytes) {
            Ok(
                base_properties(server).insert("ssl.keystore.location"@, location).insert(
                    "ssl.keystore.password"@,
                    decode_utf8(bytes),
                ),
            )
        } else {
            Err(KafkaOpsError::PasswordNotText)
        },
        (Some(_), Some(Err(e))) => Err(e),
        _ => Ok(base_properties(server)),
    }
}

/// Whether `r` is what opening a client of the server comes to, given the
/// outcome of decrypting the keystore password: the client with the
/// properties that `client_properties` names, each set as a parameter of its
/// configuration, at log level `Info`; or the error that it names.
pub open spec fn opened_as(
    server: KafkaServerView,
    secret: Option<Result<Seq<u8>, KafkaOpsError>>,
    r: Result<KafkaOps, KafkaOpsError>,
) -> bool {
    match client_properties(server, secret) {
        Ok(properties) => r matches Ok(ops) && ops.properties() == properties && (
        ops.configuration() matches Some(config) && config_entries(config) == properties
            && config_log_level(config) == LogLevel::Info.number()),
        Err(e) => r matches Err(failure) && failure == e,
    }
}

/// Whether `outcome` is a possible outcome of decrypting the stored
/// password: a text that the password opens to, or a failure of the cipher.
pub open spec fn decrypted_as(stored: PasswordView, outcome: Result<Seq<u8>, KafkaOpsError>) -> bool {
    match outcome {
        Ok(plain) => opens_to(stored, plain),
        Err(e) => e is Cipher,
    }
}

/// The servers among `loaded` whose settings could be read, in their order.
pub open spec fn readable(loaded: Seq<Option<KafkaServer>>) -> Seq<KafkaServer>
    decreases loaded.len(),
{
    if loaded.len() == 0 {
        Seq::empty()
    } else {
        match loaded[0] {
            Some(server) => seq![server] + readable(loaded.drop_first()),
            None => readable(loaded.drop_first()),
        }
    }
}

/// `rdkafka::message::FromBytes::from_bytes` for `str`, which is
/// `str::from_utf8`: the text that the bytes spell, where they are valid
/// UTF-8, and nothing where they are not.
#[verifier::external_body]
fn text_from_bytes(bytes: &Vec<u8>) -> (r: Option<String>)
    ensures
        r is Some == valid_utf8(bytes@),
        r matches Some(text) ==> text@ == decode_utf8(bytes@),
{
    match str::from_bytes(bytes.as_slice()) {
        Ok(text) => Some(text.to_string()),
        Err(_) => None,
    }
}

/// The outcome of a decryption, as plain values.
pub open spec fn secret_view(secret: Option<Result<Vec<u8>, KafkaOpsError>>) -> Option<
    Result<Seq<u8>, KafkaOpsError>,
> {
    match secret {
        Some(Ok(bytes)) => Some(Ok(bytes@)),
        Some(Err(e)) => Some(Err(e)),
        None => None,
    }
}

impl KafkaServer {
    /// The configuration with every text empty, every number zero and
    /// nothing switched on.
    pub open spec fn default_view() -> KafkaServerView {
        KafkaServerView {
            name: Seq::empty(),
            bootstrap: Seq::empty(),
            ssl_verification: false,
            ssl_keystore_location: None,
            ssl_keystore_password: None,
            ssl_security_protocol: Seq::empty(),
            message_max_bytes: 0,
            fetch_max_bytes: 0,
        }
    }

    /// A configuration with every text empty, every number zero and nothing
    /// switched on.
    pub fn default() -> (r: Self)
        ensures
            r@ == Self::default_view(),
    {
        Self {
            name: String::new(),
            bootstrap: String::new(),
            ssl_verification: false,
            ssl_keystore_location: None,
            ssl_keystore_password: None,
            ssl_security_protocol: String::new(),
            message_max_bytes: 0,
            fetch_max_bytes: 0,
        }
    }

    /// Create new KafkaServer using parameters
    /// # Arguments
    ///   - bootstrap - kafka brokers definition in format `host1:port1,host2:port2`, etc
    ///   - ssl_verification - flag specifies whether or not to check the server certificate
    ///   - ssl_keystore_location - keystore location in PKCS#12 format
    ///   - ssl_keystore_password - password as [Password]
    ///   - ssl_security_protocol - must be either PLAINTEXT or SSL
    ///   - message_max_bytes - see kafka parameters
    ///   - fetch_max_bytes - see kafka parameters
    pub fn new(
        name: String,
        bootstrap: String,
        ssl_verification: bool,
        ssl_keystore_location: Option<String>,
        ssl_keystore_password: Option<Password>,
        ssl_security_protocol: String,
        message_max_bytes: u64,
        fetch_max_bytes: u64,
    ) -> (r: Self)
        ensures
            r.name == name,
            r.bootstrap == bootstrap,
            r.ssl_verification == ssl_verification,
            r.ssl_keystore_location == ssl_keystore_location,
            r.ssl_keystore_password == ssl_keystore_password,
            r.ssl_security_protocol == ssl_security_protocol,
            r.message_max_bytes == message_max_bytes,
            r.fetch_max_bytes == fetch_max_bytes,
    {
        Self {
            name,
            bootstrap,
            ssl_verification,
            ssl_keystore_location,
            ssl_keystore_password,
            ssl_security_protocol,
            message_max_bytes,
            fetch_max_bytes,
        }
    }

    /// The text that stands for this server wherever it is listed: its name.
    pub fn to_string(&self) -> (r: String)
        ensures
            r@ == self.name@,
    {
        self.name.clone()
    }

    /// Load KafkaServer object from database table (tree) with the given name
    /// # Arguments
    ///   - found - what the table holds under the name, if it holds anything
    ///   - name - name of the server
    ///
    /// A name under which the table holds nothing is an error.
    pub fn from_db(found: Option<KafkaServer>, name: &str) -> (r: Result<Self, KafkaOpsError>)
        ensures
            match found {
                Some(server) => r matches Ok(loaded) && loaded == server,
                None => r matches Err(KafkaOpsError::ServerConfigNotFound(missing)) && missing@
                    == name@,
            },
    {
        match found {
            None => Err(KafkaOpsError::ServerConfigNotFound(String::from_str(name))),
            Some(server) => Ok(server),
        }
    }

    /// The servers of the database table, from its entries as they were
    /// read: an entry that could not be read is passed over, the others keep
    /// their order.
    pub fn all(loaded: Vec<Option<KafkaServer>>) -> (r: Vec<Self>)
        ensures
            r@ == readable(loaded@),
    {
        let ghost every = loaded@;
        let mut rest = loaded;
        let mut servers: Vec<KafkaServer> = Vec::new();
        while rest.len() > 0
            invariant
                rest@.len() <= every.len(),
                rest@ == every.take(rest@.len() as int),
                servers@ == readable(every.skip(rest@.len() as int)),
            decreases rest@.len(),
        {
            let ghost n = rest@.len();
            let entry = rest.pop().unwrap();
            proof {
                assert(every.skip(n - 1).drop_first() =~= every.skip(n as int));
            }
            match entry {
                Some(server) => {
                    servers.insert(0, server);
                },
                None => {},
            }
        }
        servers
    }

    /// Makes the client configuration of this server from the outcome of
    /// decrypting its keystore password. The log level is `Info`.
    pub fn open_with(&self, secret: Option<Result<Vec<u8>, KafkaOpsError>>) -> (r: Result<
        KafkaOps,
        KafkaOpsError,
    >)
        ensures
            opened_as(self@, secret_view(secret), r),
    {
        proof {
            reveal_strlit("false");
        }
        let builder = KafkaOps::builder().with_prop("enable.auto.commit", "false").with_bootstrap(
            self.bootstrap.as_str(),
        ).with_ssl_cert_verification(self.ssl_verification).with_security_protocol(
            self.ssl_security_protocol.as_str(),
        ).with_group_id("kators-g-1").with_message_max_bytes(
            self.message_max_bytes,
        ).with_fetch_max_bytes(self.fetch_max_bytes);
        let builder = match (&self.ssl_keystore_location, secret) {
            (Some(location), Some(decrypted)) => {
                let bytes = match decrypted {
                    Ok(bytes) => bytes,
                    Err(e) => {
                        return Err(e);
                    },
                };
                match text_from_bytes(&bytes) {
                    Some(password) => builder.with_ssl_keystore_location(
                        location.as_str(),
                    ).with_ssl_keystore_password(password.as_str()),
                    None => {
                        return Err(KafkaOpsError::PasswordNotText);
                    },
                }
            },
            (_, _) => builder,
        };
        builder.open(LogLevel::Info)
    }

    /// Opens connection to kafka and returns KafkaOps object
    ///
    /// The keystore password is decrypted where the server has a keystore
    /// location and a password; what comes of it is as
    /// [`KafkaServer::open_with`] says for the outcome of the decryption.
    /// Without a keystore nothing is decrypted.
    pub fn open(&self) -> (r: Result<KafkaOps, KafkaOpsError>)
        ensures
            match (self.ssl_keystore_location, self.ssl_keystore_password) {
                (Some(_), Some(password)) => exists|outcome: Result<Seq<u8>, KafkaOpsError>|
                    decrypted_as(password@, outcome) && #[trigger] opened_as(
                        self@,
                        Some(outcome),
                        r,
                    ),
                _ => opened_as(self@, None, r),
            },
    {
        let secret = match (&self.ssl_keystore_location, &self.ssl_keystore_password) {
            (Some(_), Some(password)) => Some(password.decrypt()),
            (_, _) => None,
        };
        self.open_with(secret)
    }
}

} // verus!
