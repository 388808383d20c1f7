//! Session tokens: claims, the signing key material and the published
//! verification key.

use vstd::prelude::*;

verus! {

/// What a published key is meant for.
#[derive(Clone, Copy, Debug, PartialEq, Eq, Structural)]
pub enum PublicKeyUse {
    Signature,
    Encryption,
}

/// Key type of a published key. Ed25519 keys are octet key pairs.
#[derive(Clone, Copy, Debug, PartialEq, Eq, Structural)]
pub enum OctetKeyPairType {
    OctetKeyPair,
}

/// Curve of a published key.
#[derive(Clone, Copy, Debug, PartialEq, Eq, Structural)]
pub enum EllipticCurve {
    P256,
    P384,
    P521,
    Ed25519,
}

/// The public verification key in publishable form, so that third parties
/// can validate tokens without contacting the issuer.
#[derive(Debug)]
pub struct Jwk {
    pub public_key_use: PublicKeyUse,
    pub key_type: OctetKeyPairType,
    pub curve: EllipticCurve,
    /// The public key, base64url-encoded without padding.
    pub x: String,
}

impl Clone for Jwk {
    fn clone(&self) -> (copy: Self)
        ensures
            copy == *self,
    {
        Jwk {
            public_key_use: self.public_key_use,
            key_type: self.key_type,
            curve: self.curve,
            x: self.x.clone(),
        }
    }
}

/// Signing key material: the Ed25519 key pair as a PKCS#8 document, the
/// public key taken from it, and the public key in publishable form. It
/// holds the private key, so it cannot be printed.
#[derive(Clone)]
pub struct Jwt {
    pub key_pair_der: Vec<u8>,
    pub public_key: Vec<u8>,
    pub jwk: Jwk,
}

/// How long a token is valid after it was issued, in seconds: one hour.
pub const TOKEN_TTL: i64 = 3600;

/// What a session token says: who it is for, and from when until when.
#[derive(Clone, Debug)]
pub struct Claims {
    pub sub: String,
    pub exp: i64,
    pub iat: i64,
}

/// The claims of a token as values: subject, expiry and time of issue, both
/// in seconds since the Unix epoch.
pub struct ClaimSet {
    pub sub: Seq<char>,
    pub exp: i64,
    pub iat: i64,
}

impl View for Claims {
    type V = ClaimSet;

    open spec fn view(&self) -> ClaimSet {
        ClaimSet { sub: self.sub@, exp: self.exp, iat: self.iat }
    }
}

/// Why a token was not made or not accepted.
#[derive(Clone, Copy, Debug, PartialEq, Eq, Structural)]
pub enum TokenError {
    /// The token is genuine, and its time is over.
    Expired,
    /// The token is not of the expected form, or lacks a claim.
    Malformed,
    /// The token's signature or algorithm is not that of this issuer.
    SignatureInvalid,
    /// The signing key or the clock could not be used.
    Unexpected,
}

/// Why the token library turned a token down.
#[derive(Clone, Copy, Debug, PartialEq, Eq, Structural)]
pub enum DecodeFault {
    InvalidSignature,
    InvalidAlgorithm,
    Other,
}

/// `jsonwebtoken::errors::Error`, carried through unread.
#[verifier::external_type_specification]
#[verifier::external_body]
pub struct ExTokenLibraryError(jsonwebtoken::errors::Error);

/// The EdDSA-signed token over the claims `sub`, `exp` and `iat`, made with
/// the Ed25519 key pair of a PKCS#8 document; `None` where none is made.
pub uninterp spec fn token_encoding(sub: Seq<char>, exp: i64, iat: i64, key_pair: Seq<u8>) -> Option<
    Seq<char>,
>;

/// What reading a token against an Ed25519 public key gives, with no look at
/// the clock: the members `sub` (a text), `exp` and `iat` (integers) of its
/// claims, each `None` where it is absent or of another type, or the fault
/// that the token was turned down for.
pub uninterp spec fn token_reading(token: Seq<char>, public_key: Seq<u8>) -> Result<
    (Option<Seq<char>>, Option<i64>, Option<i64>),
    DecodeFault,
>;

/// `chrono::Utc::now`, as seconds since the Unix epoch. Nothing is known of
/// the value. The outside function panics on a clock set before the epoch.
#[verifier::external_body]
pub(crate) fn unix_now() -> i64 {
    chrono::Utc::now().timestamp()
}

/// `jsonwebtoken::encode` with an EdDSA header, the three claims as a JSON
/// object and the key that `jsonwebtoken::EncodingKey::from_ed_der` makes of
/// the document: the result is the named token, an error exactly where there
/// is none.
#[verifier::external_body]
fn sign_claims(sub: &str, exp: i64, iat: i64, key_pair: &[u8]) -> (res: Result<
    String,
    jsonwebtoken::errors::Error,
>)
    ensures
        res is Ok == token_encoding(sub@, exp, iat, key_pair@) is Some,
        res matches Ok(token) ==> Some(token@) == token_encoding(sub@, exp, iat, key_pair@),
{
    let mut claims = serde_json::Map::new();
    claims.insert("exp".to_owned(), serde_json::Value::from(exp));
    claims.insert("iat".to_owned(), serde_json::Value::from(iat));
    claims.insert("sub".to_owned(), serde_json::Value::from(sub));
    let header = jsonwebtoken::Header::new(jsonwebtoken::Algorithm::EdDSA);
    jsonwebtoken::encode(&header, &claims, &jsonwebtoken::EncodingKey::from_ed_der(key_pair))
}

/// `jsonwebtoken::decode` to a JSON value, with the key that
/// `jsonwebtoken::DecodingKey::from_ed_der` makes of the public key and a
/// validation for EdDSA whose check of `exp` against the clock is switched
/// off: the result is the named reading of the token. The outside function
/// panics on a clock set before the epoch.
#[verifier::external_body]
fn read_token(token: &str, public_key: &[u8]) -> (res: Result<
    (Option<String>, Option<i64>, Option<i64>),
    DecodeFault,
>)
    ensures
        match token_reading(token@, public_key@) {
            Ok((sub, exp, iat)) => {
                &&& res matches Ok(read)
                &&& read.0 is Some == sub is Some
                &&& (read.0 matches Some(text) ==> Some(text@) == sub)
                &&& read.1 == exp
                &&& read.2 == iat
            },
            Err(fault) => res == Err::<(Option<String>, Option<i64>, Option<i64>), DecodeFault>(
                fault,
            ),
        },
{
    let mut validation = jsonwebtoken::Validation::new(jsonwebtoken::Algorithm::EdDSA);
    validation.validate_exp = false;
    let key = jsonwebtoken::DecodingKey::from_ed_der(public_key);
    match jsonwebtoken::decode::<serde_json::Value>(token, &key, &validation) {
        Ok(data) => Ok((
            data.claims["sub"].as_str().map(str::to_owned),
            data.claims["exp"].as_i64(),
            data.claims["iat"].as_i64(),
        )),
        Err(error) => Err(match error.kind() {
            jsonwebtoken::errors::ErrorKind::InvalidSignature => DecodeFault::InvalidSignature,
            jsonwebtoken::errors::ErrorKind::InvalidAlgorithm => DecodeFault::InvalidAlgorithm,
            _ => DecodeFault::Other,
        }),
    }
}

/// The claims of a token issued to `sub` at `now`.
pub open spec fn issued_claims(sub: Seq<char>, now: i64) -> ClaimSet
    recommends
        now + TOKEN_TTL <= i64::MAX,
{
    ClaimSet { sub, exp: (now + TOKEN_TTL) as i64, iat: now }
}

/// The token that the key pair mints for `sub` at `now`.
pub open spec fn minted(key_pair: Seq<u8>, sub: Seq<char>, now: i64) -> Result<
    Seq<char>,
    TokenError,
> {
    if now + TOKEN_TTL > i64::MAX {
        Err(TokenError::Unexpected)
    } else {
        match token_encoding(sub, (now + TOKEN_TTL) as i64, now, key_pair) {
            Some(token) => Ok(token),
            None => Err(TokenError::Unexpected),
        }
    }
}

/// The claims that a reading of a token amounts to: all three members must
/// be there, and a fault of signature or algorithm is told apart from the
/// rest.
pub open spec fn claims_of(
    reading: Result<(Option<Seq<char>>, Option<i64>, Option<i64>), DecodeFault>,
) -> Result<ClaimSet, TokenError> {
    match reading {
        Ok((Some(sub), Some(exp), Some(iat))) => Ok(ClaimSet { sub, exp, iat }),
        Ok(_) => Err(TokenError::Malformed),
        Err(DecodeFault::InvalidSignature) => Err(TokenError::SignatureInvalid),
        Err(DecodeFault::InvalidAlgorithm) => Err(TokenError::SignatureInvalid),
        Err(DecodeFault::Other) => Err(TokenError::Malformed),
    }
}

/// Whether claims are past their expiry at `now`. They stay valid up to and
/// including the expiry itself.
pub open spec fn past_expiry(claims: ClaimSet, now: i64) -> bool {
    now > claims.exp
}

/// Claims are accepted unless they are past their expiry.
pub open spec fn checked_at(claims: Result<ClaimSet, TokenError>, now: i64) -> Result<
    ClaimSet,
    TokenError,
> {
    match claims {
        Ok(set) => if past_expiry(set, now) {
            Err(TokenError::Expired)
        } else {
            Ok(set)
        },
        Err(error) => Err(error),
    }
}

/// What validating a token at `now` gives.
pub open spec fn validated(public_key: Seq<u8>, token: Seq<char>, now: i64) -> Result<
    ClaimSet,
    TokenError,
> {
    checked_at(claims_of(token_reading(token, public_key)), now)
}

/// A result of claims, taken by the view of the claims.
pub open spec fn outcome(res: Result<Claims, TokenError>) -> Result<ClaimSet, TokenError> {
    match res {
        Ok(claims) => Ok(claims@),
        Err(error) => Err(error),
    }
}

/// A result of a token, taken by the view of the token.
pub open spec fn token_outcome(res: Result<String, TokenError>) -> Result<Seq<char>, TokenError> {
    match res {
        Ok(token) => Ok(token@),
        Err(error) => Err(error),
    }
}

impl Claims {
    /// The claims of a token issued to `user_id` at `now`: valid from then
    /// on for one hour.
    pub fn new(user_id: String, now: i64) -> (claims: Claims)
        requires
            now + TOKEN_TTL <= i64::MAX,
        ensures
            claims@ == issued_claims(user_id@, now),
    {
        Claims { sub: user_id, exp: now + TOKEN_TTL, iat: now }
    }

    /// Whether the claims are past their expiry at `now`.
    pub fn expired_at(&self, now: i64) -> (expired: bool)
        ensures
            expired == past_expiry(self@, now),
    {
        now > self.exp
    }

    /// Whether the claims are past their expiry by the clock of this
    /// machine.
    pub fn expired(&self) -> (expired: bool)
        ensures
            exists|now: i64| expired == #[trigger] past_expiry(self@, now),
    {
        let now = unix_now();
        let expired = self.expired_at(now);
        assert(expired == past_expiry(self@, now));
        expired
    }

    /// The claims that a reading of a token amounts to.
    pub fn from_reading(
        reading: Result<(Option<String>, Option<i64>, Option<i64>), DecodeFault>,
    ) -> (res: Result<Claims, TokenError>)
        ensures
            match reading {
                Ok((Some(sub), Some(exp), Some(iat))) => res matches Ok(claims) && claims@
                    == (ClaimSet { sub: sub@, exp, iat }),
                Ok(_) => res == Err::<Claims, TokenError>(TokenError::Malformed),
                Err(DecodeFault::InvalidSignature) => res == Err::<Claims, TokenError>(
                    TokenError::SignatureInvalid,
                ),
                Err(DecodeFault::InvalidAlgorithm) => res == Err::<Claims, TokenError>(
                    TokenError::SignatureInvalid,
                ),
                Err(DecodeFault::Other) => res == Err::<Claims, TokenError>(TokenError::Malformed),
            },
    {
        match reading {
            Ok((Some(sub), Some(exp), Some(iat))) => Ok(Claims { sub, exp, iat }),
            Ok(_) => Err(TokenError::Malformed),
            Err(DecodeFault::InvalidSignature) => Err(TokenError::SignatureInvalid),
            Err(DecodeFault::InvalidAlgorithm) => Err(TokenError::SignatureInvalid),
            Err(DecodeFault::Other) => Err(TokenError::Malformed),
        }
    }

    /// Accepts the claims at `now` unless they are past their expiry.
    pub fn check_at(self, now: i64) -> (res: Result<Claims, TokenError>)
        ensures
            outcome(res) == checked_at(Ok(self@), now),
    {
        if self.expired_at(now) {
            Err(TokenError::Expired)
        } else {
            Ok(self)
        }
    }
}

impl Jwt {
    /// Whether the parts belong together: the public key is that of the key
    /// pair, and the published key is its encoding.
    pub open spec fn consistent(self) -> bool {
        &&& crate::config::ed25519_public_key(self.key_pair_der@) == Some(self.public_key@)
        &&& self.jwk.x@ == crate::config::base64_url_encoding(self.public_key@)
        &&& self.jwk.public_key_use == PublicKeyUse::Signature
        &&& self.jwk.key_type == OctetKeyPairType::OctetKeyPair
        &&& self.jwk.curve == EllipticCurve::Ed25519
    }

    /// Key material of these parts, taken as they are.
    pub fn new(key_pair_der: Vec<u8>, public_key: Vec<u8>, jwk: Jwk) -> (jwt: Self)
        ensures
            jwt.key_pair_der == key_pair_der,
            jwt.public_key == public_key,
            jwt.jwk == jwk,
    {
        Self { key_pair_der, public_key, jwk }
    }

    /// Mints a token for `user_id`, issued at `now` and valid for one hour.
    pub fn encode_at(&self, user_id: String, now: i64) -> (res: Result<String, TokenError>)
        ensures
            token_outcome(res) == minted(self.key_pair_der@, user_id@, now),
    {
        if now > i64::MAX - TOKEN_TTL {
            return Err(TokenError::Unexpected);
        }
        let claims = Claims::new(user_id, now);
        match sign_claims(claims.sub.as_str(), claims.exp, claims.iat, self.key_pair_der.as_slice()) {
            Ok(token) => Ok(token),
            Err(_) => Err(TokenError::Unexpected),
        }
    }

    /// Mints a token for `user_id`, issued now by the clock of this machine
    /// and valid for one hour.
    pub fn encode(&self, user_id: String) -> (res: Result<String, TokenError>)
        ensures
            exists|now: i64| token_outcome(res) == #[trigger] minted(
                self.key_pair_der@,
                user_id@,
                now,
            ),
    {
        let now = unix_now();
        let res = self.encode_at(user_id, now);
        assert(token_outcome(res) == minted(self.key_pair_der@, user_id@, now));
        res
    }

    /// Reads the claims of a token after checking its signature and
    /// algorithm against the public key. The expiry is not looked at.
    pub fn decode(&self, token: &str) -> (res: Result<Claims, TokenError>)
        ensures
            outcome(res) == claims_of(token_reading(token@, self.public_key@)),
    {
        Claims::from_reading(read_token(token, self.public_key.as_slice()))
    }

    /// Validates a token at `now`: its signature, its algorithm, its form,
    /// and that it is not past its expiry.
    pub fn validate_at(&self, token: &str, now: i64) -> (res: Result<Claims, TokenError>)
        ensures
            outcome(res) == validated(self.public_key@, token@, now),
    {
        match self.decode(token) {
            Ok(claims) => claims.check_at(now),
            Err(error) => Err(error),
        }
    }

    /// Validates a token by the clock of this machine.
    pub fn validate(&self, token: &str) -> (res: Result<Claims, TokenError>)
        ensures
            exists|now: i64| outcome(res) == #[trigger] validated(self.public_key@, token@, now),
    {
        let now = unix_now();
        let res = self.validate_at(token, now);
        assert(outcome(res) == validated(self.public_key@, token@, now));
        res
    }
}

/// Claims issued at `now` expire exactly one hour later: they are accepted
/// at every instant from `now` up to and including `now` plus one hour, and
/// turned down as expired at every later instant.
pub proof fn lemma_expiry_boundary(sub: Seq<char>, now: i64, at: i64)
    requires
        now + TOKEN_TTL <= i64::MAX,
    ensures
        at <= now + TOKEN_TTL ==> checked_at(Ok(issued_claims(sub, now)), at) == Ok::<
            ClaimSet,
            TokenError,
        >(issued_claims(sub, now)),
        at > now + TOKEN_TTL ==> checked_at(Ok(issued_claims(sub, now)), at) == Err::<
            ClaimSet,
            TokenError,
        >(TokenError::Expired),
{
}

/// A token that reads as the claims issued at `now` validates 59 minutes
/// later, and is turned down as expired 61 minutes later.
pub proof fn lemma_valid_at_59_expired_at_61_minutes(
    public_key: Seq<u8>,
    token: Seq<char>,
    sub: Seq<char>,
    now: i64,
)
    requires
        now + 61 * 60 <= i64::MAX,
        claims_of(token_reading(token, public_key)) == Ok::<ClaimSet, TokenError>(
            issued_claims(sub, now),
        ),
    ensures
        validated(public_key, token, (now + 59 * 60) as i64) == Ok::<ClaimSet, TokenError>(
            issued_claims(sub, now),
        ),
        validated(public_key, token, (now + 61 * 60) as i64) == Err::<ClaimSet, TokenError>(
            TokenError::Expired,
        ),
{
}

/// A token is turned down as expired only if it is genuine: a token that is
/// malformed, or whose signature or algorithm is not the issuer's, is
/// turned down as such at every instant.
pub proof fn lemma_expired_only_of_genuine_tokens(public_key: Seq<u8>, token: Seq<char>, now: i64)
    ensures
        validated(public_key, token, now) == Err::<ClaimSet, TokenError>(TokenError::Expired)
            ==> claims_of(token_reading(token, public_key)) is Ok,
        claims_of(token_reading(token, public_key)) matches Err(error) ==> validated(
            public_key,
            token,
            now,
        ) == Err::<ClaimSet, TokenError>(error),
{
}

/// Where a minted token reads back as the claims that were signed into it,
/// validating it before its expiry gives claims whose subject is the
/// identity that it was minted for.
pub proof fn lemma_minted_token_names_its_subject(
    key_pair: Seq<u8>,
    public_key: Seq<u8>,
    sub: Seq<char>,
    now: i64,
    at: i64,
    token: Seq<char>,
)
    requires
        minted(key_pair, sub, now) == Ok::<Seq<char>, TokenError>(token),
        claims_of(token_reading(token, public_key)) == Ok::<ClaimSet, TokenError>(
            issued_claims(sub, now),
        ),
        at <= now + TOKEN_TTL,
    ensures
        validated(public_key, token, at) is Ok,
        validated(public_key, token, at)->Ok_0.sub == sub,
{
}

} // verus!
