//! Nonce issuance: a client asks for the challenge that it has to sign.

use crate::address::{address_parsing, Address};
use crate::nonce::{is_random_uuid, issued, Nonce, NonceEntry};
use crate::routes::{
    json_error, json_success, JsonResponse, SharedState, BAD_REQUEST, INTERNAL_SERVER_ERROR,
};
use vstd::prelude::*;
use vstd::string::StringExecFns;

verus! {

/// Why no nonce was issued.
#[derive(Clone, Debug)]
pub enum UserError {
    /// The text is not an address. It carries the parser's message.
    Validation(String),
    /// A fault that is not the client's. It carries what is known of it,
    /// which is not for the client.
    UnexpectedError(String),
}

/// A failure of nonce issuance, as values.
pub enum UserFailure {
    Validation(Seq<char>),
    UnexpectedError(Seq<char>),
}

impl View for UserError {
    type V = UserFailure;

    open spec fn view(&self) -> UserFailure {
        match self {
            UserError::Validation(message) => UserFailure::Validation(message@),
            UserError::UnexpectedError(detail) => UserFailure::UnexpectedError(detail@),
        }
    }
}

impl UserFailure {
    /// The HTTP status that reports the failure.
    pub open spec fn status(self) -> u16 {
        match self {
            UserFailure::Validation(_) => BAD_REQUEST,
            UserFailure::UnexpectedError(_) => INTERNAL_SERVER_ERROR,
        }
    }

    /// What the client is told. Of an unexpected fault it learns nothing
    /// more.
    pub open spec fn shown(self) -> Seq<char> {
        match self {
            UserFailure::Validation(message) => "Failed to parse user id: "@ + message,
            UserFailure::UnexpectedError(_) => "Internal server error"@,
        }
    }
}

impl UserError {
    /// The HTTP status that reports the failure.
    pub fn status_code(&self) -> (status: u16)
        ensures
            status == self@.status(),
    {
        match self {
            UserError::Validation(_) => BAD_REQUEST,
            UserError::UnexpectedError(_) => INTERNAL_SERVER_ERROR,
        }
    }

    /// What the client is told.
    pub fn to_string(&self) -> (text: String)
        ensures
            text@ == self@.shown(),
    {
        match self {
            UserError::Validation(message) => String::from_str("Failed to parse user id: ").concat(
                message.as_str(),
            ),
            UserError::UnexpectedError(_) => String::from_str("Internal server error"),
        }
    }

    /// The status and the body of the response that reports the failure.
    pub fn into_response(self) -> (response: (u16, JsonResponse<String>))
        ensures
            response.0 == self@.status(),
            response.1 matches JsonResponse::Error(text) && text@ == self@.shown(),
    {
        let status = self.status_code();
        (status, json_error(self.to_string()))
    }
}

/// Draws a fresh nonce for the identity that `user_id` names. The entry is
/// what the caller has to store, in place of any entry of that identity.
pub fn prepare_nonce(user_id: &str) -> (res: Result<NonceEntry, UserError>)
    ensures
        match address_parsing(user_id@) {
            Ok(identity) => {
                &&& res matches Ok(entry)
                &&& entry.identity@ == identity
                &&& is_random_uuid(entry.nonce.0)
            },
            Err(message) => res matches Err(error) && error@ == UserFailure::Validation(message),
        },
{
    let nonce = Nonce::generate();
    match Address::parse(user_id) {
        Ok(identity) => Ok(NonceEntry { identity, nonce }),
        Err(message) => Err(UserError::Validation(message)),
    }
}

/// Issues a fresh nonce for the identity that `user_id` names, in place of
/// any nonce that was pending for it, and returns it. Nothing changes where
/// the text is no address.
pub fn set_nonce_for_address(state: &mut SharedState, user_id: &str) -> (res: Result<
    JsonResponse<Nonce>,
    UserError,
>)
    ensures
        final(state).jwt == old(state).jwt,
        final(state).policy == old(state).policy,
        match address_parsing(user_id@) {
            Ok(identity) => {
                &&& res matches Ok(JsonResponse::Success(nonce))
                &&& is_random_uuid(nonce.0)
                &&& final(state).nonces@ == issued(old(state).nonces@, identity, nonce)
            },
            Err(message) => {
                &&& res matches Err(error)
                &&& error@ == UserFailure::Validation(message)
                &&& final(state).nonces@ == old(state).nonces@
            },
        },
{
    match prepare_nonce(user_id) {
        Ok(entry) => {
            state.nonces.upsert(&entry.identity, entry.nonce);
            Ok(json_success(entry.nonce))
        },
        Err(error) => Err(error),
    }
}

} // verus!
