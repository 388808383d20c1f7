//! Authentication: a signature over the pending nonce is exchanged for a
//! session token, and a session token for the identity that it names.

use crate::address::{address_parsing, canonical_hex, Address, ToHex};
use crate::jwt::{
    claims_of, minted, past_expiry, token_reading, unix_now, validated, ClaimSet, Jwk, Jwt,
    TokenError,
};
use crate::nonce::{issued, nonce_text, pending, Nonce, NotFound};
use crate::routes::{
    json_error, JsonResponse, NoncePolicy, SharedState, BAD_REQUEST, INTERNAL_SERVER_ERROR,
    UNAUTHORIZED,
};
use crate::signature::{signature_parsing, verifies, Signature};
use vstd::prelude::*;
use vstd::string::StringExecFns;

verus! {

/// What a client submits: the address that it claims, and its signature
/// over the pending nonce of that address, both as hex text.
#[derive(Clone, Debug)]
pub struct Payload {
    pub user_id: String,
    pub signature: String,
}

/// A submission whose two texts have been parsed.
#[derive(Clone, Copy, Debug)]
pub struct ValidatedPayload {
    pub user_id: Address,
    pub signature: Signature,
}

/// What the texts of a submission parse to: the bytes of the address and of
/// the signature, or the message that names the text at fault.
pub open spec fn validated_payload(user_id: Seq<char>, signature: Seq<char>) -> Result<
    (Seq<u8>, Seq<u8>),
    Seq<char>,
> {
    match address_parsing(user_id) {
        Err(message) => Err("Failed to validate user_id: "@ + message),
        Ok(address) => match signature_parsing(signature) {
            Err(message) => Err("Failed to validate signature: "@ + message),
            Ok(bytes) => Ok((address, bytes)),
        },
    }
}

impl ValidatedPayload {
    /// Parses the two texts of a submission, the address first.
    pub fn try_from(payload: Payload) -> (res: Result<ValidatedPayload, String>)
        ensures
            match validated_payload(payload.user_id@, payload.signature@) {
                Ok((address, bytes)) => {
                    &&& res matches Ok(valid)
                    &&& valid.user_id@ == address
                    &&& valid.signature@ == bytes
                },
                Err(message) => res matches Err(shown) && shown@ == message,
            },
    {
        let user_id = match Address::parse(payload.user_id.as_str()) {
            Ok(address) => address,
            Err(message) => {
                return Err(
                    String::from_str("Failed to validate user_id: ").concat(message.as_str()),
                );
            },
        };
        let signature = match Signature::parse(payload.signature.as_str()) {
            Ok(signature) => signature,
            Err(message) => {
                return Err(
                    String::from_str("Failed to validate signature: ").concat(message.as_str()),
                );
            },
        };
        Ok(ValidatedPayload { user_id, signature })
    }
}

/// Why a request was not authenticated.
#[derive(Clone, Debug)]
pub enum AuthError {
    /// The address or the signature is not of the expected form. It carries
    /// the message that names the text at fault.
    Validation(String),
    /// No nonce is pending for the claimed identity.
    NoChallengeIssued,
    /// The signature over the pending nonce was not made by the claimed
    /// identity. Nothing tells which of the two was at fault.
    SignatureVerification,
    /// The request carries no bearer token.
    InvalidAuthToken,
    /// The bearer token is genuine, and its time is over.
    ExpiredAuthToken,
    /// The bearer token is not of the expected form.
    MalformedAuthToken,
    /// The bearer token's signature or algorithm is not that of this
    /// issuer.
    ForgedAuthToken,
    /// A fault that is not the client's. It carries what is known of it,
    /// which is not for the client.
    Unexpected(String),
}

/// A failure of authentication, as values.
pub enum AuthFailure {
    Validation(Seq<char>),
    NoChallengeIssued,
    SignatureVerification,
    InvalidAuthToken,
    ExpiredAuthToken,
    MalformedAuthToken,
    ForgedAuthToken,
    Unexpected(Seq<char>),
}

impl View for AuthError {
    type V = AuthFailure;

    open spec fn view(&self) -> AuthFailure {
        match self {
            AuthError::Validation(message) => AuthFailure::Validation(message@),
            AuthError::NoChallengeIssued => AuthFailure::NoChallengeIssued,
            AuthError::SignatureVerification => AuthFailure::SignatureVerification,
            AuthError::InvalidAuthToken => AuthFailure::InvalidAuthToken,
            AuthError::ExpiredAuthToken => AuthFailure::ExpiredAuthToken,
            AuthError::MalformedAuthToken => AuthFailure::MalformedAuthToken,
            AuthError::ForgedAuthToken => AuthFailure::ForgedAuthToken,
            AuthError::Unexpected(detail) => AuthFailure::Unexpected(detail@),
        }
    }
}

impl AuthFailure {
    /// The HTTP status that reports the failure: 400 for input that the
    /// client has to correct, 401 where its proof of identity was not
    /// accepted, 500 for a fault that is not the client's.
    pub open spec fn status(self) -> u16 {
        match self {
            AuthFailure::Validation(_) => BAD_REQUEST,
            AuthFailure::NoChallengeIssued => UNAUTHORIZED,
            AuthFailure::SignatureVerification => UNAUTHORIZED,
            AuthFailure::InvalidAuthToken => UNAUTHORIZED,
            AuthFailure::ExpiredAuthToken => UNAUTHORIZED,
            AuthFailure::MalformedAuthToken => UNAUTHORIZED,
            AuthFailure::ForgedAuthToken => UNAUTHORIZED,
            AuthFailure::Unexpected(_) => INTERNAL_SERVER_ERROR,
        }
    }

    /// What the client is told. Of an unexpected fault it learns nothing
    /// more.
    pub open spec fn shown(self) -> Seq<char> {
        match self {
            AuthFailure::Validation(message) => "Validation error: "@ + message,
            AuthFailure::NoChallengeIssued => "No nonce was issued for this address"@,
            AuthFailure::SignatureVerification => "Signature verification error"@,
            AuthFailure::InvalidAuthToken => "Header doesn't contain correct type of auth token"@,
            AuthFailure::ExpiredAuthToken => "Expired auth token"@,
            AuthFailure::MalformedAuthToken => "Malformed auth token"@,
            AuthFailure::ForgedAuthToken => "Auth token signature is invalid"@,
            AuthFailure::Unexpected(_) => "Unexpected error"@,
        }
    }
}

impl AuthError {
    /// The HTTP status that reports the failure.
    pub fn status_code(&self) -> (status: u16)
        ensures
            status == self@.status(),
    {
        match self {
            AuthError::Validation(_) => BAD_REQUEST,
            AuthError::NoChallengeIssued => UNAUTHORIZED,
            AuthError::SignatureVerification => UNAUTHORIZED,
            AuthError::InvalidAuthToken => UNAUTHORIZED,
            AuthError::ExpiredAuthToken => UNAUTHORIZED,
            AuthError::MalformedAuthToken => UNAUTHORIZED,
            AuthError::ForgedAuthToken => UNAUTHORIZED,
            AuthError::Unexpected(_) => INTERNAL_SERVER_ERROR,
        }
    }

    /// What the client is told.
    pub fn to_string(&self) -> (text: String)
        ensures
            text@ == self@.shown(),
    {
        match self {
            AuthError::Validation(message) => String::from_str("Validation error: ").concat(
                message.as_str(),
            ),
            AuthError::NoChallengeIssued => String::from_str(
                "No nonce was issued for this address",
            ),
            AuthError::SignatureVerification => String::from_str("Signature verification error"),
            AuthError::InvalidAuthToken => String::from_str(
                "Header doesn't contain correct type of auth token",
            ),
            AuthError::ExpiredAuthToken => String::from_str("Expired auth token"),
            AuthError::MalformedAuthToken => String::from_str("Malformed auth token"),
            AuthError::ForgedAuthToken => String::from_str("Auth token signature is invalid"),
            AuthError::Unexpected(_) => String::from_str("Unexpected error"),
        }
    }

    /// The status and the body of the response that reports the failure.
    pub fn into_response(self) -> (response: (u16, JsonResponse<String>))
        ensures
            response.0 == self@.status(),
            response.1 matches JsonResponse::Error(text) && text@ == self@.shown(),
    {
        let status = self.status_code();
        (status, json_error(self.to_string()))
    }

    /// The failure of authentication that a failure of token validation
    /// amounts to.
    pub fn from_token_error(error: TokenError) -> (failure: AuthError)
        ensures
            failure@ == token_failure(error),
    {
        match error {
            TokenError::Expired => AuthError::ExpiredAuthToken,
            TokenError::Malformed => AuthError::MalformedAuthToken,
            TokenError::SignatureInvalid => AuthError::ForgedAuthToken,
            TokenError::Unexpected => AuthError::Unexpected(String::from_str("Failed to decode token")),
        }
    }
}

/// The failure of authentication that a failure of token validation amounts
/// to.
pub open spec fn token_failure(error: TokenError) -> AuthFailure {
    match error {
        TokenError::Expired => AuthFailure::ExpiredAuthToken,
        TokenError::Malformed => AuthFailure::MalformedAuthToken,
        TokenError::SignatureInvalid => AuthFailure::ForgedAuthToken,
        TokenError::Unexpected => AuthFailure::Unexpected("Failed to decode token"@),
    }
}

/// What a successful authentication returns: the session token, and the
/// key to verify it with in publishable form.
#[derive(Clone, Debug)]
pub struct AuthSuccess {
    pub jwt: String,
    pub jwk: Jwk,
}

/// What a submission amounts to, given the nonce that is pending for the
/// claimed identity: the token minted for the identity's canonical text
/// where the signature over the nonce's canonical text was made by that
/// identity, else the failure.
pub open spec fn auth_outcome(
    key_pair: Seq<u8>,
    identity: Seq<u8>,
    signature: Seq<u8>,
    nonce: Result<Nonce, NotFound>,
    now: i64,
) -> Result<Seq<char>, AuthFailure> {
    match nonce {
        Err(_) => Err(AuthFailure::NoChallengeIssued),
        Ok(nonce) => if !verifies(nonce_text(nonce.0), signature, identity) {
            Err(AuthFailure::SignatureVerification)
        } else {
            match minted(key_pair, canonical_hex(identity), now) {
                Ok(token) => Ok(token),
                Err(_) => Err(AuthFailure::Unexpected("Failed to encode claims"@)),
            }
        },
    }
}

/// The result of an authentication, by the views of its parts.
pub open spec fn auth_result(res: Result<AuthSuccess, AuthError>) -> Result<Seq<char>, AuthFailure> {
    match res {
        Ok(success) => Ok(success.jwt@),
        Err(error) => Err(error@),
    }
}

/// What deciding a parsed submission at `now` gives: the outcome for the
/// identity and the signature of the submission, and with a token the key
/// to verify it with.
pub open spec fn authenticated(
    jwt: Jwt,
    payload: ValidatedPayload,
    nonce: Result<Nonce, NotFound>,
    now: i64,
    res: Result<AuthSuccess, AuthError>,
) -> bool {
    &&& auth_result(res) == auth_outcome(
        jwt.key_pair_der@,
        payload.user_id@,
        payload.signature@,
        nonce,
        now,
    )
    &&& (res matches Ok(success) ==> success.jwk == jwt.jwk)
}

/// Decides a parsed submission at `now`, given the nonce that is pending
/// for the claimed identity.
pub fn authenticate_at(
    jwt: &Jwt,
    payload: &ValidatedPayload,
    nonce: Result<Nonce, NotFound>,
    now: i64,
) -> (res: Result<AuthSuccess, AuthError>)
    ensures
        authenticated(*jwt, *payload, nonce, now, res),
{
    let nonce = match nonce {
        Ok(nonce) => nonce,
        Err(_) => return Err(AuthError::NoChallengeIssued),
    };
    let message = nonce.to_string();
    if payload.signature.verify(message.as_str(), &payload.user_id).is_err() {
        return Err(AuthError::SignatureVerification);
    }
    match jwt.encode_at(payload.user_id.to_hex(), now) {
        Ok(token) => Ok(AuthSuccess { jwt: token, jwk: jwt.jwk.clone() }),
        Err(_) => Err(AuthError::Unexpected(String::from_str("Failed to encode claims"))),
    }
}

/// Decides a parsed submission now, by the clock of this machine, given the
/// nonce that is pending for the claimed identity.
pub fn authenticate(jwt: &Jwt, payload: &ValidatedPayload, nonce: Result<Nonce, NotFound>) -> (res:
    Result<AuthSuccess, AuthError>)
    ensures
        exists|now: i64| #[trigger] authenticated(*jwt, *payload, nonce, now, res),
{
    let now = unix_now();
    let res = authenticate_at(jwt, payload, nonce, now);
    assert(authenticated(*jwt, *payload, nonce, now, res));
    res
}

/// The pending nonces after a submission was decided: as before, but for an
/// accepted submission under the policy that consumes the nonce.
pub open spec fn nonces_after(
    before: Map<Seq<u8>, Nonce>,
    policy: NoncePolicy,
    identity: Seq<u8>,
    accepted: bool,
) -> Map<Seq<u8>, Nonce> {
    if policy.consumes(accepted) {
        before.remove(identity)
    } else {
        before
    }
}

/// What the two texts of a submission amount to at `now`, given the pending
/// nonces: a failure of validation where a text does not parse, else the
/// outcome for the parsed identity and signature and the nonce that is
/// pending for that identity.
pub open spec fn submission_outcome(
    key_pair: Seq<u8>,
    nonces: Map<Seq<u8>, Nonce>,
    user_id: Seq<char>,
    signature: Seq<char>,
    now: i64,
) -> Result<Seq<char>, AuthFailure> {
    match validated_payload(user_id, signature) {
        Err(message) => Err(AuthFailure::Validation(message)),
        Ok((identity, bytes)) => auth_outcome(
            key_pair,
            identity,
            bytes,
            pending(nonces, identity),
            now,
        ),
    }
}

/// The pending nonces after the two texts of a submission were decided: as
/// before, but for an accepted submission under the policy that consumes
/// the nonce.
pub open spec fn nonces_after_submission(
    before: Map<Seq<u8>, Nonce>,
    policy: NoncePolicy,
    user_id: Seq<char>,
    signature: Seq<char>,
    accepted: bool,
) -> Map<Seq<u8>, Nonce> {
    match validated_payload(user_id, signature) {
        Err(_) => before,
        Ok((identity, _)) => nonces_after(before, policy, identity, accepted),
    }
}

/// What authenticating a submission at `now` does: the result is decided by
/// the texts of the submission and the nonce that was pending for the
/// claimed identity, and the pending nonces change only as the policy says
/// of an accepted submission.
pub open spec fn web3_auth_done(
    before: SharedState,
    after: SharedState,
    payload: Payload,
    now: i64,
    res: Result<AuthSuccess, AuthError>,
) -> bool {
    &&& after.jwt == before.jwt
    &&& after.policy == before.policy
    &&& (res matches Ok(success) ==> success.jwk == before.jwt.jwk)
    &&& auth_result(res) == submission_outcome(
        before.jwt.key_pair_der@,
        before.nonces@,
        payload.user_id@,
        payload.signature@,
        now,
    )
    &&& after.nonces@ == nonces_after_submission(
        before.nonces@,
        before.policy,
        payload.user_id@,
        payload.signature@,
        res is Ok,
    )
}

/// Authenticates a submission at `now`: parses it, checks the signature
/// over the nonce that is pending for the claimed identity, and mints a
/// token. A failure changes nothing.
pub fn web3_auth_at(state: &mut SharedState, payload: Payload, now: i64) -> (res: Result<
    AuthSuccess,
    AuthError,
>)
    ensures
        web3_auth_done(*old(state), *final(state), payload, now, res),
{
    let valid = match ValidatedPayload::try_from(payload) {
        Ok(valid) => valid,
        Err(message) => return Err(AuthError::Validation(message)),
    };
    let nonce = state.nonces.current(&valid.user_id);
    let res = authenticate_at(&state.jwt, &valid, nonce, now);
    if state.policy.consumes_after(res.is_ok()) {
        let _ = state.nonces.consume(&valid.user_id);
    }
    res
}

/// Authenticates a submission now, by the clock of this machine.
pub fn web3_auth(state: &mut SharedState, payload: Payload) -> (res: Result<AuthSuccess, AuthError>)
    ensures
        exists|now: i64| #[trigger] web3_auth_done(*old(state), *final(state), payload, now, res),
{
    let now = unix_now();
    let res = web3_auth_at(state, payload, now);
    assert(web3_auth_done(*old(state), *state, payload, now, res));
    res
}

/// An authenticated user: the canonical text of its identity.
#[derive(Clone, Debug)]
pub struct User(pub String);

/// What a bearer token amounts to at `now`: the subject of its claims where
/// it validates, else the failure. A request without a bearer token fails
/// as such.
pub open spec fn bearer_outcome(public_key: Seq<u8>, bearer: Option<Seq<char>>, now: i64) -> Result<
    Seq<char>,
    AuthFailure,
> {
    match bearer {
        None => Err(AuthFailure::InvalidAuthToken),
        Some(token) => match validated(public_key, token, now) {
            Ok(claims) => Ok(claims.sub),
            Err(error) => Err(token_failure(error)),
        },
    }
}

/// The result of reading a bearer token, by the views of its parts.
pub open spec fn user_result(res: Result<User, AuthError>) -> Result<Seq<char>, AuthFailure> {
    match res {
        Ok(user) => Ok(user.0@),
        Err(error) => Err(error@),
    }
}

/// The view of an optional text.
pub open spec fn text_of(bearer: Option<&str>) -> Option<Seq<char>> {
    match bearer {
        Some(token) => Some(token@),
        None => None,
    }
}

impl User {
    /// The user that the bearer token of a request names at `now`.
    pub fn from_bearer_at(jwt: &Jwt, bearer: Option<&str>, now: i64) -> (res: Result<
        User,
        AuthError,
    >)
        ensures
            user_result(res) == bearer_outcome(jwt.public_key@, text_of(bearer), now),
    {
        let token = match bearer {
            Some(token) => token,
            None => return Err(AuthError::InvalidAuthToken),
        };
        match jwt.validate_at(token, now) {
            Ok(claims) => Ok(User(claims.sub)),
            Err(error) => Err(AuthError::from_token_error(error)),
        }
    }

    /// The user that the bearer token of a request names now, by the clock
    /// of this machine.
    pub fn from_request_parts(jwt: &Jwt, bearer: Option<&str>) -> (res: Result<User, AuthError>)
        ensures
            exists|now: i64|
                user_result(res) == #[trigger] bearer_outcome(
                    jwt.public_key@,
                    text_of(bearer),
                    now,
                ),
    {
        let now = unix_now();
        let res = User::from_bearer_at(jwt, bearer, now);
        assert(user_result(res) == bearer_outcome(jwt.public_key@, text_of(bearer), now));
        res
    }
}

/// A bearer token that reads as genuine claims past their expiry is turned
/// down with status 401 as expired, which is another failure, with another
/// text for the client, than that of a malformed token.
pub proof fn lemma_expired_is_told_apart_from_malformed(
    public_key: Seq<u8>,
    token: Seq<char>,
    claims: ClaimSet,
    now: i64,
)
    requires
        claims_of(token_reading(token, public_key)) == Ok::<ClaimSet, TokenError>(claims),
        past_expiry(claims, now),
    ensures
        bearer_outcome(public_key, Some(token), now) == Err::<Seq<char>, AuthFailure>(
            AuthFailure::ExpiredAuthToken,
        ),
        AuthFailure::ExpiredAuthToken.status() == 401,
        AuthFailure::MalformedAuthToken.status() == 401,
        AuthFailure::ExpiredAuthToken != AuthFailure::MalformedAuthToken,
        AuthFailure::ExpiredAuthToken.shown() != AuthFailure::MalformedAuthToken.shown(),
{
    reveal_strlit("Expired auth token");
    reveal_strlit("Malformed auth token");
    assert("Expired auth token"@.len() != "Malformed auth token"@.len());
}

/// Once a second nonce has been issued for an identity, a submission whose
/// signature was made over the first and does not verify over the second is
/// turned down, whatever else the store holds.
pub proof fn lemma_replaced_nonce_is_rejected(
    store: Map<Seq<u8>, Nonce>,
    key_pair: Seq<u8>,
    user_id: Seq<char>,
    signature: Seq<char>,
    first: Nonce,
    second: Nonce,
    now: i64,
)
    requires
        validated_payload(user_id, signature) matches Ok((identity, bytes)) && !verifies(
            nonce_text(second.0),
            bytes,
            identity,
        ),
    ensures
        validated_payload(user_id, signature) matches Ok((identity, _)) && submission_outcome(
            key_pair,
            issued(issued(store, identity, first), identity, second),
            user_id,
            signature,
            now,
        ) == Err::<Seq<char>, AuthFailure>(AuthFailure::SignatureVerification),
{
}

/// Once a nonce has been issued for an identity, a submission that names
/// the identity and carries a signature that its holder made over the
/// nonce's text is accepted: it gets the token minted for the identity's
/// canonical text, or fails only where no token can be minted.
pub proof fn lemma_signed_nonce_authenticates(
    store: Map<Seq<u8>, Nonce>,
    key_pair: Seq<u8>,
    user_id: Seq<char>,
    signature: Seq<char>,
    nonce: Nonce,
    now: i64,
)
    requires
        validated_payload(user_id, signature) matches Ok((identity, bytes)) && verifies(
            nonce_text(nonce.0),
            bytes,
            identity,
        ),
    ensures
        validated_payload(user_id, signature) matches Ok((identity, _)) && submission_outcome(
            key_pair,
            issued(store, identity, nonce),
            user_id,
            signature,
            now,
        ) == match minted(key_pair, canonical_hex(identity), now) {
            Ok(token) => Ok::<Seq<char>, AuthFailure>(token),
            Err(_) => Err(AuthFailure::Unexpected("Failed to encode claims"@)),
        },
{
}

/// A submission that names an identity and carries a signature that was not
/// made by its holder over the pending nonce's text is turned down as
/// unauthorized, and leaves the pending nonces as they were.
pub proof fn lemma_foreign_signature_is_rejected(
    store: Map<Seq<u8>, Nonce>,
    policy: NoncePolicy,
    key_pair: Seq<u8>,
    user_id: Seq<char>,
    signature: Seq<char>,
    nonce: Nonce,
    now: i64,
)
    requires
        validated_payload(user_id, signature) matches Ok((identity, bytes)) && store.contains_key(
            identity,
        ) && store[identity] == nonce && !verifies(nonce_text(nonce.0), bytes, identity),
    ensures
        submission_outcome(key_pair, store, user_id, signature, now) == Err::<
            Seq<char>,
            AuthFailure,
        >(AuthFailure::SignatureVerification),
        AuthFailure::SignatureVerification.status() == 401,
        nonces_after_submission(store, policy, user_id, signature, false) == store,
{
}

/// A submission that is not accepted changes nothing, whatever the policy:
/// there is no partial success.
pub proof fn lemma_failure_changes_nothing(
    store: Map<Seq<u8>, Nonce>,
    policy: NoncePolicy,
    user_id: Seq<char>,
    signature: Seq<char>,
)
    ensures
        nonces_after_submission(store, policy, user_id, signature, false) == store,
{
}

/// While the nonce is kept, an accepted submission leaves it pending, so the
/// same submission is decided in the same way when it is made again.
pub proof fn lemma_kept_nonce_answers_again(
    store: Map<Seq<u8>, Nonce>,
    key_pair: Seq<u8>,
    user_id: Seq<char>,
    signature: Seq<char>,
    now: i64,
)
    ensures
        submission_outcome(
            key_pair,
            nonces_after_submission(store, NoncePolicy::Keep, user_id, signature, true),
            user_id,
            signature,
            now,
        ) == submission_outcome(key_pair, store, user_id, signature, now),
{
}

/// Once the nonce is consumed, an accepted submission leaves none pending
/// for its identity, so the same submission is turned down as unauthorized
/// when it is made again.
pub proof fn lemma_consumed_nonce_answers_once(
    store: Map<Seq<u8>, Nonce>,
    key_pair: Seq<u8>,
    user_id: Seq<char>,
    signature: Seq<char>,
    now: i64,
    later: i64,
)
    requires
        submission_outcome(key_pair, store, user_id, signature, now) is Ok,
    ensures
        submission_outcome(
            key_pair,
            nonces_after_submission(store, NoncePolicy::ConsumeOnSuccess, user_id, signature, true),
            user_id,
            signature,
            later,
        ) == Err::<Seq<char>, AuthFailure>(AuthFailure::NoChallengeIssued),
        AuthFailure::NoChallengeIssued.status() == 401,
{
}

/// A submission is accepted only if both of its texts parse, a nonce is
/// pending for the identity that it names, and its signature over that
/// nonce's text was made by the holder of the identity.
pub proof fn lemma_accepted_only_with_matching_signature(
    store: Map<Seq<u8>, Nonce>,
    key_pair: Seq<u8>,
    user_id: Seq<char>,
    signature: Seq<char>,
    now: i64,
)
    requires
        submission_outcome(key_pair, store, user_id, signature, now) is Ok,
    ensures
        validated_payload(user_id, signature) matches Ok((identity, bytes)) && store.contains_key(
            identity,
        ) && verifies(nonce_text(store[identity].0), bytes, identity),
{
}

} // verus!
