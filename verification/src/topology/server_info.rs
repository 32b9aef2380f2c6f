//! The form in which the operator enters or reads the settings of a server.

use crate::kafka::KafkaOpsError;
use crate::kafka::KafkaServer;
use crate::kafka::KafkaServerView;
use crate::kafka::password::cipher_takes;
use crate::kafka::password::fresh_iv_length;
use crate::kafka::password::KEY_LEN;
use crate::kafka::password::PAD_LEN;
use crate::kafka::password::sealed;
use crate::kafka::Password;
use crate::kafka::PasswordView;
use vstd::prelude::*;
use vstd::string::StringExecFns;
use vstd::utf8::encode_utf8;

verus! {

/// The settings of a server as they stand in the form, with the two texts
/// that are entered apart from them: the keystore location and the keystore
/// password in the clear.
#[derive(Debug)]
pub struct ServerInfo {
    pub server: KafkaServer,
    pub ssl_keystore_location: String,
    pub password: String,
}

/// The settings that a form stands for: those of its server, with the
/// keystore location that was entered, if any was, and with the encrypted
/// form of the password that was entered, if any was.
pub open spec fn entered_server(
    server: KafkaServerView,
    location: Seq<char>,
    secret: Option<PasswordView>,
) -> KafkaServerView {
    KafkaServerView {
        ssl_keystore_location: if location.len() > 0 {
            Some(location)
        } else {
            server.ssl_keystore_location
        },
        ssl_keystore_password: match secret {
            Some(password) => Some(password),
            None => server.ssl_keystore_password,
        },
        ..server
    }
}

impl ServerInfo {
    /// The form for a server that exists: it shows the server's settings and
    /// its keystore location; the password is left empty.
    pub fn from_server(server: &KafkaServer) -> (r: Self)
        ensures
            r.server@ == server@,
            r.ssl_keystore_location@ == match server.ssl_keystore_location {
                Some(location) => location@,
                None => Seq::empty(),
            },
            r.password@ == Seq::<char>::empty(),
    {
        Self {
            server: server.clone(),
            ssl_keystore_location: match &server.ssl_keystore_location {
                Some(location) => location.clone(),
                None => String::new(),
            },
            password: String::new(),
        }
    }

    /// Shows another server in the form. A server of the name that the form
    /// shows already is the same server and changes nothing.
    pub fn set_server(&mut self, server: &KafkaServer)
        ensures
            final(self).server@ == if old(self).server.name@ == server.name@ {
                old(self).server@
            } else {
                server@
            },
            final(self).ssl_keystore_location == old(self).ssl_keystore_location,
            final(self).password == old(self).password,
    {
        if self.server != *server {
            self.server = server.clone();
        }
    }

    /// The empty form for a new server: plain text protocol, a message queue
    /// of 100 kilobytes and fetches of up to 102400 bytes.
    pub fn new() -> (r: Self)
        ensures
            r.server@ == (KafkaServerView {
                name: Seq::empty(),
                bootstrap: Seq::empty(),
                ssl_verification: false,
                ssl_keystore_location: None,
                ssl_keystore_password: None,
                ssl_security_protocol: "PLAINTEXT"@,
                message_max_bytes: 100,
                fetch_max_bytes: 102400,
            }),
            r.ssl_keystore_location@ == Seq::<char>::empty(),
            r.password@ == Seq::<char>::empty(),
    {
        Self {
            server: KafkaServer {
                name: String::new(),
                bootstrap: String::new(),
                ssl_verification: false,
                ssl_keystore_location: None,
                ssl_keystore_password: None,
                ssl_security_protocol: String::from_str("PLAINTEXT"),
                message_max_bytes: 100,
                fetch_max_bytes: 102400,
            },
            ssl_keystore_location: String::new(),
            password: String::new(),
        }
    }

    /// The settings that the form stands for, given the outcome of
    /// encrypting the password that was entered, where one was entered. A
    /// password that could not be encrypted is an error.
    pub fn server_with(&self, secret: Option<Result<Password, KafkaOpsError>>) -> (r: Result<
        KafkaServer,
        KafkaOpsError,
    >)
        ensures
            match secret {
                Some(Err(e)) => r matches Err(failure) && failure == e,
                Some(Ok(password)) => r matches Ok(server) && server@ == entered_server(
                    self.server@,
                    self.ssl_keystore_location@,
                    Some(password@),
                ),
                None => r matches Ok(server) && server@ == entered_server(
                    self.server@,
                    self.ssl_keystore_location@,
                    None,
                ),
            },
    {
        let mut ks = self.server.clone();
        if !self.ssl_keystore_location.as_str().is_empty() {
            ks.ssl_keystore_location = Some(self.ssl_keystore_location.clone());
        }
        match secret {
            Some(Ok(password)) => {
                ks.ssl_keystore_password = Some(password);
            },
            Some(Err(e)) => {
                return Err(e);
            },
            None => {},
        }
        Ok(ks)
    }

    /// The settings that the form stands for. A password that was entered
    /// is encrypted; where none was, the server keeps the one it has. The
    /// form stays as it is. A password that cannot be encrypted is an
    /// error; one that is too long for the cipher library never can.
    pub fn server(&mut self) -> (r: Result<KafkaServer, KafkaOpsError>)
        ensures
            *final(self) == *old(self),
            match r {
                Ok(server) => if old(self).password@.len() == 0 {
                    server@ == entered_server(
                        old(self).server@,
                        old(self).ssl_keystore_location@,
                        None,
                    )
                } else {
                    server@.ssl_keystore_password matches Some(secret) && secret == sealed(
                        encode_utf8(old(self).password@),
                        secret.iv,
                    ) && secret.iv.len() == fresh_iv_length() && server@ == entered_server(
                        old(self).server@,
                        old(self).ssl_keystore_location@,
                        Some(secret),
                    )
                },
                Err(e) => e is Cipher && old(self).password@.len() > 0,
            },
            (old(self).password@.len() > 0 && !cipher_takes(
                KEY_LEN as nat,
                fresh_iv_length(),
                (encode_utf8(old(self).password@).len() + PAD_LEN) as nat,
            )) ==> r is Err,
    {
        let secret = if !self.password.as_str().is_empty() {
            Some(Password::new(self.password.as_str()))
        } else {
            None
        };
        self.server_with(secret)
    }
}

} // verus!
