//! Process configuration, and the loading of the signing key from it.

use crate::address::{hex_digit, push_hex_digit};
use crate::jwt::{EllipticCurve, Jwk, Jwt, OctetKeyPairType, PublicKeyUse};
use base64::Engine;
use ring::signature::KeyPair;
use vstd::prelude::*;
use vstd::string::StringExecFns;

verus! {

/// `base64::DecodeError`, carried through unread.
#[verifier::external_type_specification]
#[verifier::external_body]
pub struct ExDecodeError(base64::DecodeError);

/// `ring::error::KeyRejected`, carried through unread.
#[verifier::external_type_specification]
#[verifier::external_body]
pub struct ExKeyRejected(ring::error::KeyRejected);

/// The bytes that the standard base64 alphabet, with padding, decodes a text
/// to; `None` where the text is no such encoding.
pub uninterp spec fn base64_standard_decoding(text: Seq<char>) -> Option<Seq<u8>>;

/// The text that the URL-safe base64 alphabet, without padding, encodes
/// bytes to.
pub uninterp spec fn base64_url_encoding(bytes: Seq<u8>) -> Seq<char>;

/// The public key of the Ed25519 key pair that a PKCS#8 document (version 1
/// or 2) holds; `None` where the document is rejected.
pub uninterp spec fn ed25519_public_key(pkcs8: Seq<u8>) -> Option<Seq<u8>>;

/// `base64::engine::general_purpose::STANDARD.decode`: the result is the
/// named decoding of the text, an error exactly where there is none.
#[verifier::external_body]
fn decode_standard(text: &str) -> (res: Result<Vec<u8>, base64::DecodeError>)
    ensures
        res is Ok == base64_standard_decoding(text@) is Some,
        res matches Ok(bytes) ==> Some(bytes@) == base64_standard_decoding(text@),
{
    base64::engine::general_purpose::STANDARD.decode(text)
}

/// `base64::engine::general_purpose::URL_SAFE_NO_PAD.encode`: the result is
/// the named encoding of the bytes. The outside function panics where the
/// encoded length does not fit in `usize`, which the bound leaves out.
#[verifier::external_body]
fn encode_url_safe(bytes: &[u8]) -> (text: String)
    requires
        bytes@.len() <= usize::MAX / 2,
    ensures
        text@ == base64_url_encoding(bytes@),
{
    base64::engine::general_purpose::URL_SAFE_NO_PAD.encode(bytes)
}

/// `ring::signature::Ed25519KeyPair::from_pkcs8_maybe_unchecked`, followed by
/// `public_key` on the pair: the result is the named public key of the
/// document, which has 32 bytes, an error exactly where the document is
/// rejected.
#[verifier::external_body]
fn public_key_from_pkcs8(pkcs8: &[u8]) -> (res: Result<Vec<u8>, ring::error::KeyRejected>)
    ensures
        res is Ok == ed25519_public_key(pkcs8@) is Some,
        res matches Ok(key) ==> Some(key@) == ed25519_public_key(pkcs8@) && key@.len() == 32,
{
    let pair = ring::signature::Ed25519KeyPair::from_pkcs8_maybe_unchecked(pkcs8)?;
    Ok(pair.public_key().as_ref().to_vec())
}

/// The decimal digits of a number, without leading zeros.
pub open spec fn decimal(n: nat) -> Seq<char>
    decreases n,
{
    if n < 10 {
        seq![hex_digit(n as int)]
    } else {
        decimal(n / 10).push(hex_digit((n % 10) as int))
    }
}

/// Appends the decimal digits of `n` to `text`.
fn push_decimal(text: &mut String, n: u16)
    ensures
        final(text)@ == old(text)@ + decimal(n as nat),
    decreases n,
{
    let ghost before = text@;
    if n < 10 {
        push_hex_digit(text, n as u8);
        assert(text@ =~= before + decimal(n as nat));
    } else {
        push_decimal(text, n / 10);
        push_hex_digit(text, (n % 10) as u8);
        assert(text@ =~= before + decimal(n as nat));
    }
}

/// Whether two texts are the same.
fn same_text(a: &str, b: &str) -> (same: bool)
    ensures
        same == (a@ == b@),
{
    String::from_str(a) == String::from_str(b)
}

/// Where the service listens.
#[derive(Clone, Debug)]
pub struct AppConfig {
    pub host: String,
    pub port: u16,
}

impl AppConfig {
    /// The socket address to bind: the host, a colon, and the port in
    /// decimal.
    pub fn address(&self) -> (text: String)
        ensures
            text@ == self.host@ + seq![':'] + decimal(self.port as nat),
    {
        let mut text = self.host.clone();
        proof {
            reveal_strlit(":");
        }
        text.append(":");
        push_decimal(&mut text, self.port);
        assert(text@ =~= self.host@ + seq![':'] + decimal(self.port as nat));
        text
    }
}

/// How to reach the database server. It holds the credentials, so it cannot
/// be printed.
#[derive(Clone)]
pub struct DatabaseConfig {
    pub host: String,
    pub port: u16,
    pub username: String,
    pub password: String,
    pub db_name: String,
}

/// The options of one database connection: the server, the credentials,
/// and the database to open, if any. It cannot be printed.
#[derive(Clone)]
pub struct ConnectOptions {
    pub host: String,
    pub port: u16,
    pub username: String,
    pub password: String,
    pub database: Option<String>,
}

impl DatabaseConfig {
    /// Options for a connection to the server itself, with no database
    /// chosen.
    pub fn without_db(&self) -> (options: ConnectOptions)
        ensures
            options.host == self.host,
            options.port == self.port,
            options.username == self.username,
            options.password == self.password,
            options.database is None,
    {
        ConnectOptions {
            host: self.host.clone(),
            port: self.port,
            username: self.username.clone(),
            password: self.password.clone(),
            database: None,
        }
    }

    /// Options for a connection to the configured database.
    pub fn with_db(&self) -> (options: ConnectOptions)
        ensures
            options.host == self.host,
            options.port == self.port,
            options.username == self.username,
            options.password == self.password,
            options.database == Some(self.db_name),
    {
        let mut options = self.without_db();
        options.database = Some(self.db_name.clone());
        options
    }
}

/// The environment that the process runs in. It selects the configuration
/// file.
#[derive(Clone, Copy, Debug, PartialEq, Eq, Structural)]
pub enum Environment {
    Local,
    Production,
}

/// The text names no environment.
#[derive(Clone, Copy, Debug, PartialEq, Eq, Structural)]
pub struct UnknownEnvironment;

impl Environment {
    /// The name of the environment, in snake case.
    pub open spec fn name(self) -> Seq<char> {
        match self {
            Environment::Local => "local"@,
            Environment::Production => "production"@,
        }
    }

    /// The environment that a text names, by its exact snake-case name.
    pub open spec fn named(text: Seq<char>) -> Result<Environment, UnknownEnvironment> {
        if text == "local"@ {
            Ok(Environment::Local)
        } else if text == "production"@ {
            Ok(Environment::Production)
        } else {
            Err(UnknownEnvironment)
        }
    }

    /// The environment that the value of the environment variable selects:
    /// local where it is not set.
    pub open spec fn selected(value: Option<Seq<char>>) -> Result<Environment, UnknownEnvironment> {
        match value {
            None => Ok(Environment::Local),
            Some(text) => Environment::named(text),
        }
    }

    /// The name of the environment, in snake case.
    pub fn as_str(&self) -> (text: &'static str)
        ensures
            text@ == self.name(),
    {
        match self {
            Environment::Local => "local",
            Environment::Production => "production",
        }
    }

    /// The name of the environment, in snake case.
    pub fn to_string(&self) -> (text: String)
        ensures
            text@ == self.name(),
    {
        String::from_str(self.as_str())
    }

    /// The environment that a text names.
    pub fn parse(text: &str) -> (res: Result<Environment, UnknownEnvironment>)
        ensures
            res == Environment::named(text@),
    {
        if same_text(text, "local") {
            Ok(Environment::Local)
        } else if same_text(text, "production") {
            Ok(Environment::Production)
        } else {
            Err(UnknownEnvironment)
        }
    }

    /// The environment that the value of the environment variable selects:
    /// local where it is not set.
    pub fn select(value: Option<&str>) -> (res: Result<Environment, UnknownEnvironment>)
        ensures
            res == Environment::selected(
                match value {
                    Some(text) => Some(text@),
                    None => None,
                },
            ),
    {
        match value {
            None => Ok(Environment::Local),
            Some(text) => Environment::parse(text),
        }
    }
}

impl core::str::FromStr for Environment {
    type Err = UnknownEnvironment;

    fn from_str(text: &str) -> (res: Result<Self, Self::Err>)
        ensures
            res == Environment::named(text@),
    {
        Environment::parse(text)
    }
}

/// The name of an environment names that environment again.
pub proof fn lemma_environment_name_round_trip(environment: Environment)
    ensures
        Environment::named(environment.name()) == Ok::<Environment, UnknownEnvironment>(
            environment,
        ),
{
    reveal_strlit("local");
    reveal_strlit("production");
    assert("local"@.len() != "production"@.len());
}

/// Why the configured key pair could not be used.
#[derive(Clone, Copy, Debug, PartialEq, Eq, Structural)]
pub enum KeyError {
    /// The secret is not base64.
    Encoding,
    /// The decoded bytes are not an Ed25519 PKCS#8 key pair.
    Rejected,
}

/// Secrets of the process: the Ed25519 key pair as base64 of its PKCS#8
/// document. It cannot be printed.
#[derive(Clone)]
pub struct SecretsConfig {
    pub key_pair: String,
}

/// The whole configuration of the process. It holds the secrets, so it
/// cannot be printed.
#[derive(Clone)]
pub struct MainConfig {
    pub app: AppConfig,
    pub db: DatabaseConfig,
    pub secrets: SecretsConfig,
}

/// The PKCS#8 document and the public key that a configured secret yields.
pub open spec fn key_material(key_pair: Seq<char>) -> Result<(Seq<u8>, Seq<u8>), KeyError> {
    match base64_standard_decoding(key_pair) {
        None => Err(KeyError::Encoding),
        Some(der) => match ed25519_public_key(der) {
            None => Err(KeyError::Rejected),
            Some(public_key) => Ok((der, public_key)),
        },
    }
}

impl SecretsConfig {
    /// Builds the signing key material from the configured secret.
    pub fn jwt(&self) -> (res: Result<Jwt, KeyError>)
        ensures
            match key_material(self.key_pair@) {
                Err(e) => res == Err::<Jwt, KeyError>(e),
                Ok((der, public_key)) => {
                    &&& res matches Ok(jwt)
                    &&& jwt.key_pair_der@ == der
                    &&& jwt.public_key@ == public_key
                    &&& jwt.consistent()
                },
            },
    {
        let key_pair_bytes = match decode_standard(self.key_pair.as_str()) {
            Ok(bytes) => bytes,
            Err(_) => return Err(KeyError::Encoding),
        };
        let public_key = match public_key_from_pkcs8(key_pair_bytes.as_slice()) {
            Ok(key) => key,
            Err(_) => return Err(KeyError::Rejected),
        };
        let x = encode_url_safe(public_key.as_slice());
        let jwk = Jwk {
            public_key_use: PublicKeyUse::Signature,
            key_type: OctetKeyPairType::OctetKeyPair,
            curve: EllipticCurve::Ed25519,
            x,
        };
        Ok(Jwt::new(key_pair_bytes, public_key, jwk))
    }
}

} // verus!
