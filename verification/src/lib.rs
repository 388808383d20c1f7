//! Wallet-signature authentication: a client proves control of an account
//! address by signing a server-issued nonce, and receives a signed session
//! token in return.
//!
//! - `address`: account identities and their one canonical text.
//! - `nonce`: nonces, and the store of the one pending nonce per identity.
//! - `signature`: wallet signatures, and the check against a claimed
//!   identity.
//! - `jwt`: session tokens, minted for one hour and validated against the
//!   issuer's public key.
//! - `config`: process configuration, and the signing key loaded from it.
//! - `routes`: the two operations, issuing a nonce and exchanging a signed
//!   nonce for a token, with their failures as the HTTP layer reports them.
//!
//! Every function that reads the clock has a twin that takes the instant as
//! an argument, and whose contract says exactly what it returns.

pub mod address;
pub mod config;
pub mod jwt;
pub mod nonce;
pub mod routes;
pub mod signature;
