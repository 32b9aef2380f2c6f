//! The stored form of a keystore password: the ciphertext, the
//! initialization vector it was made with, and the length of the plain text.
//! The cipher is Blowfish in CFB mode, as OpenSSL provides it, under a key
//! made from a fixed pass phrase.

use crate::kafka::KafkaOpsError;
use openssl::error::ErrorStack;
use openssl::provider::Provider;
use openssl::symm::Cipher;
use vstd::prelude::*;
use vstd::utf8::encode_utf8;

verus! {

/// Largest length of an initialization vector or a text that is handed to
/// the cipher library.
pub const CIPHER_INPUT_MAX: usize = 0x3fff_ffff;

/// Length of the cipher's keys, in bytes.
pub const KEY_LEN: usize = 16;

/// Length of the cipher's initialization vectors, in bytes.
pub const IV_LEN: usize = 8;

/// Number of zero bytes that are put behind a password before it is
/// encrypted: the length of the cipher's blocks, which in CFB mode is one
/// byte.
pub const PAD_LEN: usize = 1;

/// What a [`Password`] holds, as plain values.
pub struct PasswordView {
    /// Length of the plain password in bytes.
    pub len: nat,
    /// Encrypted data.
    pub pwd_data: Seq<u8>,
    /// Initialization vector.
    pub iv: Seq<u8>,
}

/// The bytes of the pass phrase from which the key is made.
pub open spec fn pass_phrase() -> Seq<u8> {
    encode_utf8("master password"@)
}

/// The key of the given length: the pass phrase, cut off where it is longer
/// and filled up with zero bytes where it is shorter.
pub open spec fn master_key(key_len: nat) -> Seq<u8> {
    Seq::new(
        key_len,
        |i: int|
            if i < pass_phrase().len() {
                pass_phrase()[i]
            } else {
                0u8
            },
    )
}

/// The text that is encrypted for a password: its bytes, and behind them
/// `pad_len` zero bytes.
pub open spec fn padded(plain: Seq<u8>, pad_len: nat) -> Seq<u8> {
    plain + Seq::new(pad_len, |i: int| 0u8)
}

/// The ciphertext that Blowfish in CFB mode makes of `data` under `key` with
/// the initialization vector `iv`.
pub uninterp spec fn bf_cfb64_encrypted(key: Seq<u8>, iv: Seq<u8>, data: Seq<u8>) -> Seq<u8>;

/// The text that Blowfish in CFB mode makes of the ciphertext `data` under
/// `key` with the initialization vector `iv`.
pub uninterp spec fn bf_cfb64_decrypted(key: Seq<u8>, iv: Seq<u8>, data: Seq<u8>) -> Seq<u8>;

/// The key under which passwords are encrypted: the pass phrase and one zero
/// byte, 16 bytes in all.
pub open spec fn password_key() -> Seq<u8> {
    master_key(KEY_LEN as nat)
}

/// The length of the initialization vector of a new password: 8 bytes.
pub open spec fn fresh_iv_length() -> nat {
    IV_LEN as nat
}

/// The stored form of the text `plain`, encrypted with the initialization
/// vector `iv`.
pub open spec fn sealed(plain: Seq<u8>, iv: Seq<u8>) -> PasswordView {
    PasswordView {
        len: plain.len(),
        pwd_data: bf_cfb64_encrypted(
            password_key(),
            iv,
            padded(plain, PAD_LEN as nat),
        ),
        iv,
    }
}

/// The front of a decrypted text that is the password: as many bytes as the
/// password was long.
pub open spec fn trimmed_to(decrypted: Seq<u8>, len: nat) -> Seq<u8> {
    if len <= decrypted.len() {
        decrypted.take(len as int)
    } else {
        decrypted
    }
}

/// What decrypting the stored password `stored` gives: the front of the
/// decrypted text, which is the text that was encrypted wherever `stored` is
/// the stored form of a text.
pub open spec fn opens_to(stored: PasswordView, plain: Seq<u8>) -> bool {
    &&& plain == trimmed_to(
        bf_cfb64_decrypted(password_key(), stored.iv, stored.pwd_data),
        stored.len,
    )
    &&& forall|text: Seq<u8>| stored == #[trigger] sealed(text, stored.iv) ==> plain == text
}

/// Whether the cipher library takes a key, an initialization vector and a
/// text of these lengths: the key has 16 bytes, the vector 8 at least, and
/// neither vector nor text is longer than `CIPHER_INPUT_MAX`.
pub open spec fn cipher_takes(key_len: nat, iv_len: nat, data_len: nat) -> bool {
    &&& key_len == KEY_LEN
    &&& IV_LEN <= iv_len <= CIPHER_INPUT_MAX
    &&& data_len <= CIPHER_INPUT_MAX
}

/// The errors of the cipher library, as it reports them.
#[verifier::external_type_specification]
#[verifier::external_body]
pub struct ExErrorStack(ErrorStack);

/// A set of algorithms that is loaded into the cipher library; it stays
/// loaded as long as this value lives.
#[verifier::external_type_specification]
#[verifier::external_body]
pub struct ExProvider(Provider);

/// `openssl::provider::Provider::try_load` for the provider `legacy`, which
/// holds Blowfish, leaving the providers that are loaded by default in
/// place. Nothing is said of the outcome.
#[verifier::external_body]
fn load_legacy_provider() -> (r: Result<Provider, ErrorStack>) {
    Provider::try_load(None, "legacy", true)
}

/// `openssl::symm::Cipher::key_len` of `Cipher::bf_cfb64()`: the length of
/// keys that the linked OpenSSL names for the cipher. Nothing is said of the
/// number; the caller holds it against `KEY_LEN`.
#[verifier::external_body]
fn cipher_key_len() -> (r: usize) {
    Cipher::bf_cfb64().key_len()
}

/// `openssl::symm::Cipher::block_size` of `Cipher::bf_cfb64()`: the length
/// of blocks that the linked OpenSSL names for the cipher. Nothing is said
/// of the number; the caller holds it against `PAD_LEN`.
#[verifier::external_body]
fn cipher_block_size() -> (r: usize) {
    Cipher::bf_cfb64().block_size()
}

/// `openssl::symm::Cipher::iv_len` of `Cipher::bf_cfb64()`: the length of
/// initialization vectors that the linked OpenSSL names for the cipher, if
/// it names one. Nothing is said of the number; the caller holds it against
/// `IV_LEN`.
#[verifier::external_body]
fn cipher_iv_len() -> (r: Option<usize>) {
    Cipher::bf_cfb64().iv_len()
}

/// `openssl::rand::rand_bytes`: fills the buffer with random bytes. The
/// buffer keeps its length; nothing is said of the bytes, nor of whether the
/// call succeeds.
#[verifier::external_body]
fn random_bytes(buf: &mut Vec<u8>) -> (r: Result<(), ErrorStack>)
    requires
        old(buf)@.len() <= CIPHER_INPUT_MAX,
    ensures
        final(buf)@.len() == old(buf)@.len(),
{
    openssl::rand::rand_bytes(buf)
}

/// `openssl::symm::encrypt` with `Cipher::bf_cfb64()`: where it succeeds,
/// the result is the Blowfish-CFB ciphertext of `data` under `key` and `iv`.
/// Whether it succeeds is left open. The library does not come back from an
/// empty key and panics on an initialization vector shorter than the
/// cipher's 8 bytes; both are kept away from it, as is every key of another
/// length than 16 bytes. These are the lengths with which the outside
/// crate's own test of this cipher calls it.
#[verifier::external_body]
fn bf_encrypt(key: &[u8], iv: &[u8], data: &[u8]) -> (r: Result<Vec<u8>, ErrorStack>)
    requires
        cipher_takes(key@.len(), iv@.len(), data@.len()),
    ensures
        r matches Ok(out) ==> out@ == bf_cfb64_encrypted(key@, iv@, data@),
{
    openssl::symm::encrypt(Cipher::bf_cfb64(), key, Some(iv), data)
}

/// `openssl::symm::decrypt` with `Cipher::bf_cfb64()`: where it succeeds,
/// the result is the Blowfish-CFB decryption of `data` under `key` and `iv`,
/// and decryption undoes encryption: if `data` is the ciphertext of some
/// text under the same key and initialization vector, the result is that
/// text. Whether it succeeds is left open. The library does not come back
/// from an empty key and panics on an initialization vector shorter than the
/// cipher's 8 bytes; both are kept away from it, as is every key of another
/// length than 16 bytes. These are the lengths with which the outside
/// crate's own test of this cipher calls it.
#[verifier::external_body]
fn bf_decrypt(key: &[u8], iv: &[u8], data: &[u8]) -> (r: Result<Vec<u8>, ErrorStack>)
    requires
        cipher_takes(key@.len(), iv@.len(), data@.len()),
    ensures
        r matches Ok(out) ==> out@ == bf_cfb64_decrypted(key@, iv@, data@),
        r matches Ok(out) ==> (forall|plain: Seq<u8>| #[trigger]
            bf_cfb64_encrypted(key@, iv@, plain) == data@ ==> out@ == plain),
{
    openssl::symm::decrypt(Cipher::bf_cfb64(), key, Some(iv), data)
}

/// The key of the given length, made from the pass phrase.
pub fn master_key_bytes(key_len: usize) -> (r: Vec<u8>)
    ensures
        r@ == master_key(key_len as nat),
{
    let phrase = "master password".as_bytes();
    let mut key: Vec<u8> = Vec::new();
    let mut i: usize = 0;
    while i < key_len
        invariant
            i <= key_len,
            phrase@ == pass_phrase(),
            key@.len() == i,
            forall|j: int| 0 <= j < i ==> key@[j] == master_key(key_len as nat)[j],
        decreases key_len - i,
    {
        if i < phrase.len() {
            key.push(phrase[i]);
        } else {
            key.push(0);
        }
        i += 1;
    }
    key
}

/// The bytes of `plain` with `pad_len` zero bytes behind them.
pub fn padded_bytes(plain: &[u8], pad_len: usize) -> (r: Vec<u8>)
    ensures
        r@ == padded(plain@, pad_len as nat),
{
    let mut data: Vec<u8> = Vec::new();
    let mut i: usize = 0;
    while i < plain.len()
        invariant
            i <= plain.len(),
            data@ == plain@.take(i as int),
        decreases plain.len() - i,
    {
        data.push(plain[i]);
        i += 1;
    }
    let mut k: usize = 0;
    while k < pad_len
        invariant
            k <= pad_len,
            data@ == plain@ + Seq::new(k as nat, |i: int| 0u8),
        decreases pad_len - k,
    {
        data.push(0);
        k += 1;
    }
    data
}

/// Whether the linked OpenSSL names for the cipher the lengths that this
/// module goes by: keys of 16 bytes, vectors of 8, blocks of one.
fn cipher_is_as_known() -> (r: bool) {
    let vector = match cipher_iv_len() {
        Some(len) => len == IV_LEN,
        None => false,
    };
    vector && cipher_key_len() == KEY_LEN && cipher_block_size() == PAD_LEN
}

/// Structure contains fields to manipulate encrypted passwords
#[derive(Debug)]
pub struct Password {
    /// Length of the plain password
    len: usize,
    /// Encrypted data
    pwd_data: Vec<u8>,
    /// Initialization vector
    iv: Vec<u8>,
}

impl View for Password {
    type V = PasswordView;

    closed spec fn view(&self) -> PasswordView {
        PasswordView { len: self.len as nat, pwd_data: self.pwd_data@, iv: self.iv@ }
    }
}

impl Clone for Password {
    fn clone(&self) -> (r: Self)
        ensures
            r@ == self@,
    {
        let pwd_data = self.pwd_data.clone();
        let iv = self.iv.clone();
        Password { len: self.len, pwd_data, iv }
    }
}

impl Password {
    /// Puts a stored password together from its three parts.
    pub fn from_parts(len: usize, pwd_data: Vec<u8>, iv: Vec<u8>) -> (r: Self)
        ensures
            r@ == (PasswordView { len: len as nat, pwd_data: pwd_data@, iv: iv@ }),
    {
        Password { len, pwd_data, iv }
    }

    /// Length of the plain password in bytes.
    pub fn len(&self) -> (r: usize)
        ensures
            r == self@.len,
    {
        self.len
    }

    /// The encrypted data.
    pub fn pwd_data(&self) -> (r: &Vec<u8>)
        ensures
            r@ == self@.pwd_data,
    {
        &self.pwd_data
    }

    /// The initialization vector.
    pub fn iv(&self) -> (r: &Vec<u8>)
        ensures
            r@ == self@.iv,
    {
        &self.iv
    }

    /// The password as it was before it was encrypted, from the text that
    /// decryption gave: that text without the bytes that were put behind the
    /// password.
    pub fn trimmed(&self, decrypted: Vec<u8>) -> (r: Vec<u8>)
        ensures
            r@ == trimmed_to(decrypted@, self@.len),
    {
        let mut plain = decrypted;
        plain.truncate(self.len);
        plain
    }

    /// Encrypts `plain` with the given initialization vector. Lengths that
    /// the cipher library does not take are an error, as is every failure of
    /// that library, and a cipher that the library reports with other
    /// lengths than this module goes by.
    pub fn encrypt_with(plain: &[u8], iv: Vec<u8>) -> (r: Result<Self, KafkaOpsError>)
        ensures
            match r {
                Ok(password) => password@ == sealed(plain@, iv@),
                Err(e) => e is Cipher,
            },
            !cipher_takes(KEY_LEN as nat, iv@.len(), (plain@.len() + PAD_LEN) as nat) ==> r is Err,
    {
        if !cipher_is_as_known() || iv.len() < IV_LEN || iv.len() > CIPHER_INPUT_MAX
            || plain.len() > CIPHER_INPUT_MAX - PAD_LEN {
            return Err(KafkaOpsError::Cipher);
        }
        let key = master_key_bytes(KEY_LEN);
        let data = padded_bytes(plain, PAD_LEN);
        // Blowfish is there as long as this value lives.
        let _legacy = match load_legacy_provider() {
            Ok(provider) => provider,
            Err(_) => {
                return Err(KafkaOpsError::Cipher);
            },
        };
        match bf_encrypt(key.as_slice(), iv.as_slice(), data.as_slice()) {
            Ok(ciphertext) => Ok(Password { len: plain.len(), pwd_data: ciphertext, iv }),
            Err(_) => Err(KafkaOpsError::Cipher),
        }
    }

    /// Create new password based on string representation
    /// # Arguments
    ///   - password - string representation of password
    ///
    /// The password is encrypted with a fresh random initialization vector
    /// of 8 bytes. A password that is too long for the cipher library is an
    /// error, as is every failure of that library.
    pub fn new(password: &str) -> (r: Result<Self, KafkaOpsError>)
        ensures
            match r {
                Ok(made) => made@ == sealed(encode_utf8(password@), made@.iv) && made@.iv.len()
                    == fresh_iv_length(),
                Err(e) => e is Cipher,
            },
            !cipher_takes(
                KEY_LEN as nat,
                fresh_iv_length(),
                (encode_utf8(password@).len() + PAD_LEN) as nat,
            ) ==> r is Err,
    {
        let mut iv: Vec<u8> = Vec::new();
        let mut i: usize = 0;
        while i < IV_LEN
            invariant
                i <= IV_LEN,
                iv@.len() == i,
            decreases IV_LEN - i,
        {
            iv.push(0);
            i += 1;
        }
        match random_bytes(&mut iv) {
            Ok(_) => {},
            Err(_) => {
                return Err(KafkaOpsError::Cipher);
            },
        }
        Self::encrypt_with(password.as_bytes(), iv)
    }

    /// Decrypt password and return plain representation of password as array of bytes
    ///
    /// Where this password is the stored form of a text, as
    /// [`Password::new`] and [`Password::encrypt_with`] make it, the result
    /// is that text.
    pub fn decrypt(&self) -> (r: Result<Vec<u8>, KafkaOpsError>)
        ensures
            match r {
                Ok(plain) => opens_to(self@, plain@),
                Err(e) => e is Cipher,
            },
            !cipher_takes(KEY_LEN as nat, self@.iv.len(), self@.pwd_data.len()) ==> r is Err,
    {
        if !cipher_is_as_known() || self.iv.len() < IV_LEN || self.iv.len() > CIPHER_INPUT_MAX
            || self.pwd_data.len() > CIPHER_INPUT_MAX {
            return Err(KafkaOpsError::Cipher);
        }
        let key = master_key_bytes(KEY_LEN);
        // Blowfish is there as long as this value lives.
        let _legacy = match load_legacy_provider() {
            Ok(provider) => provider,
            Err(_) => {
                return Err(KafkaOpsError::Cipher);
            },
        };
        match bf_decrypt(key.as_slice(), self.iv.as_slice(), self.pwd_data.as_slice()) {
            Ok(decrypted) => {
                let plain = self.trimmed(decrypted);
                assert forall|text: Seq<u8>| self@ == #[trigger] sealed(
                    text,
                    self@.iv,
                ) implies plain@ == text by {
                    assert(decrypted@ == padded(text, PAD_LEN as nat));
                }
                Ok(plain)
            },
            Err(_) => Err(KafkaOpsError::Cipher),
        }
    }
}

} // verus!
