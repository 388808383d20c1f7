//! Wallet signatures: their 65-byte form, and the check that a signature
//! over a message was made by the holder of a claimed address.

use crate::address::{all_hex, bytes_of_digits, Address};
use vstd::prelude::*;

verus! {

/// `ethers::types::SignatureError`, carried through unread.
#[verifier::external_type_specification]
#[verifier::external_body]
pub struct ExSignatureError(ethers::types::SignatureError);

/// A recoverable ECDSA signature: 32 bytes of `r`, 32 bytes of `s`, and the
/// recovery byte `v`.
#[derive(Clone, Copy, Debug)]
pub struct Signature {
    pub bytes: [u8; 65],
}

impl View for Signature {
    type V = Seq<u8>;

    open spec fn view(&self) -> Seq<u8> {
        self.bytes@
    }
}

/// A text without `0x` or `0X` in front, where it has that.
pub open spec fn without_hex_prefix(text: Seq<char>) -> Seq<char> {
    if text.len() >= 2 && text[0] == '0' && (text[1] == 'x' || text[1] == 'X') {
        text.skip(2)
    } else {
        text
    }
}

/// The bytes of the signature that a text spells: after `0x` or `0X`, if it
/// is there, the text must be 130 hex digits, of either case.
pub open spec fn signature_bytes(text: Seq<char>) -> Option<Seq<u8>> {
    let digits = without_hex_prefix(text);
    if digits.len() == 130 && all_hex(digits) {
        Some(bytes_of_digits(digits))
    } else {
        None
    }
}

/// The message of the parser's error on a text that spells no signature.
pub uninterp spec fn signature_parse_error(text: Seq<char>) -> Seq<char>;

/// What parsing a text as a signature gives: its 65 bytes, or the message of
/// the parser's error.
pub open spec fn signature_parsing(text: Seq<char>) -> Result<Seq<u8>, Seq<char>> {
    match signature_bytes(text) {
        Some(bytes) => Ok(bytes),
        None => Err(signature_parse_error(text)),
    }
}

/// The address whose key made `signature` over `message`, hashed as a signed
/// personal message; `None` where no key can be recovered.
pub uninterp spec fn signer(message: Seq<char>, signature: Seq<u8>) -> Option<Seq<u8>>;

/// `str::parse` to `ethers::types::Signature`, and the 65 bytes of what it
/// gives: the text is taken without `0x` or `0X` in front, and exactly 130
/// hex digits give the 65 bytes; on any other text the result is the error,
/// rendered as the text that it displays, which is named.
#[verifier::external_body]
fn parse_signature(text: &str) -> (res: Result<Signature, String>)
    ensures
        match signature_bytes(text@) {
            Some(bytes) => res matches Ok(signature) && signature@ == bytes,
            None => res matches Err(shown) && shown@ == signature_parse_error(text@),
        },
{
    match text.parse::<ethers::types::Signature>() {
        Ok(signature) => Ok(Signature { bytes: signature.into() }),
        Err(error) => Err(error.to_string()),
    }
}

/// `ethers::types::Signature::recover` on the signature that
/// `ethers::types::Signature::try_from` reads from the 65 bytes: the result
/// is the named signer of the message, an error exactly where there is none.
#[verifier::external_body]
fn recover_signer(signature: &Signature, message: &str) -> (res: Result<
    Address,
    ethers::types::SignatureError,
>)
    ensures
        res is Ok == signer(message@, signature@) is Some,
        res matches Ok(address) ==> Some(address@) == signer(message@, signature@),
{
    let outside = ethers::types::Signature::try_from(&signature.bytes[..])?;
    let address = outside.recover(message)?;
    Ok(Address { bytes: address.0 })
}

/// The signature was not made by the claimed identity. Nothing tells
/// whether the identity or the signature was at fault.
#[derive(Clone, Copy, Debug, PartialEq, Eq, Structural)]
pub struct SignatureMismatch;

/// Whether `signature` over `message` was made by the holder of `claimed`.
pub open spec fn verifies(message: Seq<char>, signature: Seq<u8>, claimed: Seq<u8>) -> bool {
    signer(message, signature) == Some(claimed)
}

/// A signature over a message verifies for at most one identity.
pub proof fn lemma_signature_binds_one_identity(
    message: Seq<char>,
    signature: Seq<u8>,
    claimed: Seq<u8>,
    other: Seq<u8>,
)
    requires
        verifies(message, signature, claimed),
        other != claimed,
    ensures
        !verifies(message, signature, other),
{
}

impl Signature {
    /// The signature of these 65 bytes.
    pub fn new(bytes: [u8; 65]) -> (signature: Self)
        ensures
            signature@ == bytes@,
    {
        Signature { bytes }
    }

    /// Parses the hex text of a signature, with or without `0x` in front.
    pub fn parse(text: &str) -> (res: Result<Signature, String>)
        ensures
            match signature_parsing(text@) {
                Ok(bytes) => res matches Ok(signature) && signature@ == bytes,
                Err(message) => res matches Err(shown) && shown@ == message,
            },
    {
        parse_signature(text)
    }

    /// Checks that this signature over the exact text `message` was made by
    /// the holder of `address`.
    pub fn verify(&self, message: &str, address: &Address) -> (res: Result<(), SignatureMismatch>)
        ensures
            res is Ok == verifies(message@, self@, address@),
    {
        match recover_signer(self, message) {
            Ok(recovered) => {
                if recovered.same(address) {
                    Ok(())
                } else {
                    Err(SignatureMismatch)
                }
            },
            Err(_) => Err(SignatureMismatch),
        }
    }
}

impl core::str::FromStr for Signature {
    type Err = String;

    fn from_str(text: &str) -> (res: Result<Self, Self::Err>)
        ensures
            match signature_parsing(text@) {
                Ok(bytes) => res matches Ok(signature) && signature@ == bytes,
                Err(message) => res matches Err(shown) && shown@ == message,
            },
    {
        Signature::parse(text)
    }
}

} // verus!
