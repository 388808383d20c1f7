//! The outcomes of the service's operations, as the HTTP layer reports
//! them, and the state that the operations share.
//!
//! An identity has either no nonce pending or exactly one. A request for a
//! nonce puts a fresh one in place of whatever was pending. A submission is
//! decided against the pending nonce alone: it is authenticated, and a token
//! is returned, or it is rejected with a typed failure and nothing changes.
//! After a rejection the client starts over with a new request for a nonce,
//! which makes the old one worthless.

pub mod auth;
pub mod users;

use crate::jwt::Jwt;
use crate::nonce::NonceStore;
use vstd::prelude::*;

verus! {

/// Status of a request that the client has to correct.
pub const BAD_REQUEST: u16 = 400;

/// Status of a request whose proof of identity was not accepted.
pub const UNAUTHORIZED: u16 = 401;

/// Status of a fault that is not the client's.
pub const INTERNAL_SERVER_ERROR: u16 = 500;

/// The body of a response: what was asked for, or what went wrong.
#[derive(Clone, Debug, PartialEq, Eq)]
pub enum JsonResponse<T> {
    Success(T),
    Error(T),
}

/// A response that carries what was asked for.
pub fn json_success<T>(json: T) -> (response: JsonResponse<T>)
    ensures
        response == JsonResponse::Success(json),
{
    JsonResponse::Success(json)
}

/// A response that says what went wrong.
pub fn json_error(json: String) -> (response: JsonResponse<String>)
    ensures
        response == JsonResponse::Error(json),
{
    JsonResponse::Error(json)
}

/// What happens to a nonce once a signature over it has been accepted.
#[derive(Clone, Copy, Debug, PartialEq, Eq, Structural)]
pub enum NoncePolicy {
    /// The nonce stays pending until the next one is issued, so the same
    /// signature is accepted again until then.
    Keep,
    /// The nonce is taken out of the store, so the same signature is not
    /// accepted twice.
    ConsumeOnSuccess,
}

impl NoncePolicy {
    /// Whether the pending nonce is to be taken out after a submission that
    /// was accepted or not.
    pub open spec fn consumes(self, accepted: bool) -> bool {
        accepted && self == NoncePolicy::ConsumeOnSuccess
    }

    /// Whether the pending nonce is to be taken out after a submission that
    /// was accepted or not.
    pub fn consumes_after(&self, accepted: bool) -> (consume: bool)
        ensures
            consume == self.consumes(accepted),
    {
        match self {
            NoncePolicy::Keep => false,
            NoncePolicy::ConsumeOnSuccess => accepted,
        }
    }
}

/// What the operations of the service work on: the signing key material,
/// the pending nonces, and the policy for accepted nonces.
pub struct SharedState {
    pub jwt: Jwt,
    pub nonces: NonceStore,
    pub policy: NoncePolicy,
}

impl SharedState {
    /// A state with the given key material and policy, and no pending
    /// nonce.
    pub fn new(jwt: Jwt, policy: NoncePolicy) -> (state: Self)
        ensures
            state.jwt == jwt,
            state.policy == policy,
            state.nonces@ == Map::<Seq<u8>, crate::nonce::Nonce>::empty(),
    {
        SharedState { jwt, nonces: NonceStore::new(), policy }
    }
}

} // verus!
