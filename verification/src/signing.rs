//! Signing a message with a key pair and checking a signature against a
//! public key.
//!
//! The Ed25519 arithmetic is that of `solana-sdk`; the two calls into it are
//! taken on trust, and what is built on them is proved.

use vstd::prelude::*;
use crate::codec::{
    base64_bytes, base64_decode, base64_encode, base64_text, copy_bytes, is_keypair, Keypair,
    PublicKey,
};
use crate::error::CodecError;

verus! {

/// Number of bytes in a signature.
pub const SIGNATURE_LEN: usize = 64;

/// The signature that a key pair puts on a message. Ed25519 derives its nonce
/// from the secret and the message, so the same pair and message always give
/// the same 64 bytes.
pub uninterp spec fn ed25519_signature(keypair: Seq<u8>, message: Seq<u8>) -> Seq<u8>;

/// Whether strict Ed25519 verification accepts `signature` for `message`
/// under `public_key`.
pub uninterp spec fn ed25519_accepts(
    public_key: Seq<u8>,
    message: Seq<u8>,
    signature: Seq<u8>,
) -> bool;

/// `signature` is what `keypair` signs `message` with, and it is accepted
/// under the public half of that pair.
pub open spec fn is_signature_by(signature: Seq<u8>, keypair: Seq<u8>, message: Seq<u8>) -> bool {
    &&& signature == ed25519_signature(keypair, message)
    &&& ed25519_accepts(keypair.subrange(32, 64), message, signature)
}

/// Calls `Keypair::from_bytes` and `Signer::sign_message` of `solana-sdk`.
///
/// Trusted: the 64 bytes returned are the signature named by
/// [`ed25519_signature`], and verification accepts them for the same message
/// under the public key in the last 32 bytes of the pair. The pair must be
/// one that `Keypair::from_bytes` accepts.
#[verifier::external_body]
fn keypair_sign(keypair: &[u8; 64], message: &[u8]) -> (signature: [u8; 64])
    requires
        is_keypair(keypair@),
    ensures
        signature@ == ed25519_signature(keypair@, message@),
        ed25519_accepts(keypair@.subrange(32, 64), message@, signature@),
{
    let pair = solana_sdk::signature::Keypair::from_bytes(keypair).unwrap();
    solana_sdk::signature::Signer::sign_message(&pair, message).into()
}

/// Calls `solana_sdk::signature::Signature::verify`.
///
/// Trusted: the answer is the value named by [`ed25519_accepts`]; bytes that
/// are no valid key or signature are answered with `false`.
#[verifier::external_body]
fn signature_verify(signature: &[u8; 64], public_key: &[u8; 32], message: &[u8]) -> (valid: bool)
    ensures
        valid == ed25519_accepts(public_key@, message@, signature@),
{
    solana_sdk::signature::Signature::from(*signature).verify(public_key, message)
}

/// A 64-byte Ed25519 signature.
#[derive(Clone, Copy, Debug, PartialEq, Eq)]
pub struct Signature {
    pub bytes: [u8; 64],
}

impl View for Signature {
    type V = Seq<u8>;

    open spec fn view(&self) -> Seq<u8> {
        self.bytes@
    }
}

/// What a byte string holds as a signature: itself if it is 64 bytes long,
/// else `InvalidLength`.
pub open spec fn signature_of_bytes(bytes: Seq<u8>) -> Result<Seq<u8>, CodecError> {
    if bytes.len() == 64 {
        Ok(bytes)
    } else {
        Err(CodecError::InvalidLength)
    }
}

/// What a text holds as a signature: `InvalidEncoding` if it is not base64,
/// else what its bytes hold.
pub open spec fn signature_of_text(text: Seq<char>) -> Result<Seq<u8>, CodecError> {
    match base64_bytes(text) {
        Some(bytes) => signature_of_bytes(bytes),
        None => Err(CodecError::InvalidEncoding),
    }
}

impl Signature {
    /// The signature made of `bytes`.
    pub fn from_bytes(bytes: [u8; 64]) -> (signature: Signature)
        ensures
            signature@ == bytes@,
    {
        Signature { bytes }
    }

    /// The signature's 64 bytes.
    pub fn to_bytes(&self) -> (bytes: [u8; 64])
        ensures
            bytes@ == self@,
    {
        self.bytes
    }

    /// Takes a byte string of length 64 as a signature.
    pub fn from_slice(bytes: &[u8]) -> (signature: Result<Signature, CodecError>)
        ensures
            match signature {
                Ok(s) => signature_of_bytes(bytes@) == Ok::<Seq<u8>, CodecError>(s@),
                Err(e) => signature_of_bytes(bytes@) == Err::<Seq<u8>, CodecError>(e),
            },
    {
        if bytes.len() == SIGNATURE_LEN {
            let signature = Signature { bytes: copy_bytes::<64>(bytes, 0) };
            assert(signature@ =~= bytes@);
            Ok(signature)
        } else {
            Err(CodecError::InvalidLength)
        }
    }

    /// Reads a signature from its base64 text.
    pub fn from_base64(text: &str) -> (signature: Result<Signature, CodecError>)
        ensures
            match signature {
                Ok(s) => signature_of_text(text@) == Ok::<Seq<u8>, CodecError>(s@),
                Err(e) => signature_of_text(text@) == Err::<Seq<u8>, CodecError>(e),
            },
    {
        match base64_decode(text) {
            Some(bytes) => Signature::from_slice(bytes.as_slice()),
            None => Err(CodecError::InvalidEncoding),
        }
    }

    /// The signature's base64 text.
    pub fn to_base64(&self) -> (text: String)
        ensures
            text@ == base64_text(self@),
    {
        base64_encode(self.bytes.as_slice())
    }
}

/// Signs `message` with `keypair`.
pub fn sign(message: &[u8], keypair: &Keypair) -> (signature: Signature)
    ensures
        is_signature_by(signature@, keypair@, message@),
{
    let pair = keypair.to_bytes();
    Signature { bytes: keypair_sign(&pair, message) }
}

/// Tells whether `signature` is a valid signature of `message` under
/// `public_key`. Any 64 and 32 bytes are taken: a signature that does not
/// fit, and a key that is no curve point, are answered with `false`.
pub fn verify(message: &[u8], signature: &Signature, public_key: &PublicKey) -> (valid: bool)
    ensures
        valid == ed25519_accepts(public_key@, message@, signature@),
{
    signature_verify(&signature.bytes, &public_key.bytes, message)
}

/// A key pair's own signature verifies: what [`sign`] returns for a message
/// is accepted by [`verify`] for that message under the pair's public key.
pub proof fn lemma_own_signature_verifies(keypair: Seq<u8>, message: Seq<u8>, signature: Seq<u8>)
    requires
        is_signature_by(signature, keypair, message),
    ensures
        ed25519_accepts(keypair.subrange(32, 64), message, signature),
{
}

/// Verification has no memory: two answers of [`verify`] to the same
/// message, signature and key are the same.
pub proof fn lemma_verify_repeats(
    public_key: Seq<u8>,
    message: Seq<u8>,
    signature: Seq<u8>,
    first: bool,
    second: bool,
)
    requires
        first == ed25519_accepts(public_key, message, signature),
        second == ed25519_accepts(public_key, message, signature),
    ensures
        first == second,
{
}

} // verus!
