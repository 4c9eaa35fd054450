//! Key material and its text forms: base58 for keys, base64 for payloads and
//! signatures.
//!
//! The alphabets and the Ed25519 arithmetic are those of the `bs58`, `base64`
//! and `solana-sdk` crates. Each call into them stands in one small function
//! whose contract is taken on trust; everything else here is proved.

use vstd::prelude::*;
use crate::error::CodecError;

verus! {

/// Number of bytes in a public key.
pub const PUBLIC_KEY_LEN: usize = 32;

/// Number of bytes in a key pair: the secret seed followed by the public key.
pub const KEYPAIR_LEN: usize = 64;

/// The base58 text of a byte string, as `bs58` writes it with its default
/// (Bitcoin) alphabet.
pub uninterp spec fn base58_text(bytes: Seq<u8>) -> Seq<char>;

/// The bytes that a base58 text stands for, as `bs58` reads it with its
/// default alphabet; `None` for a text that is not base58.
pub uninterp spec fn base58_bytes(text: Seq<char>) -> Option<Seq<u8>>;

/// The base64 text of a byte string, as `base64` writes it with the standard
/// alphabet and padding.
pub uninterp spec fn base64_text(bytes: Seq<u8>) -> Seq<char>;

/// The bytes that a base64 text stands for, as `base64` reads it with the
/// standard alphabet and padding; `None` for a text that is not base64.
pub uninterp spec fn base64_bytes(text: Seq<char>) -> Option<Seq<u8>>;

/// Whether 64 bytes are an Ed25519 key pair as `solana-sdk` accepts it: a
/// secret seed followed by the public key derived from that seed.
pub uninterp spec fn is_keypair(bytes: Seq<u8>) -> bool;

/// `text` is the base58 form of `bytes`: it is what the encoder writes for
/// them, and the decoder reads them back from it.
pub open spec fn is_base58_of(text: Seq<char>, bytes: Seq<u8>) -> bool {
    &&& text == base58_text(bytes)
    &&& base58_bytes(text) == Some(bytes)
}

/// Calls `bs58::encode(..).into_string()`.
///
/// Trusted: the result is the text named by [`base58_text`], and decoding that
/// text with the same alphabet gives the input back.
#[verifier::external_body]
fn base58_encode(bytes: &[u8]) -> (text: String)
    ensures
        text@ == base58_text(bytes@),
        base58_bytes(text@) == Some(bytes@),
{
    bs58::encode(bytes).into_string()
}

/// Calls `bs58::decode(..).into_vec()`.
///
/// Trusted: the result is the value named by [`base58_bytes`], with `None`
/// standing for any decoding error.
#[verifier::external_body]
fn base58_decode(text: &str) -> (bytes: Option<Vec<u8>>)
    ensures
        match bytes {
            Some(b) => base58_bytes(text@) == Some(b@),
            None => base58_bytes(text@) is None,
        },
{
    bs58::decode(text).into_vec().ok()
}

/// Calls `base64::encode`.
///
/// Trusted: the result is the text named by [`base64_text`].
#[verifier::external_body]
#[allow(deprecated)]
pub(crate) fn base64_encode(bytes: &[u8]) -> (text: String)
    ensures
        text@ == base64_text(bytes@),
{
    base64::encode(bytes)
}

/// Calls `base64::decode`.
///
/// Trusted: the result is the value named by [`base64_bytes`], with `None`
/// standing for any decoding error.
#[verifier::external_body]
#[allow(deprecated)]
pub(crate) fn base64_decode(text: &str) -> (bytes: Option<Vec<u8>>)
    ensures
        match bytes {
            Some(b) => base64_bytes(text@) == Some(b@),
            None => base64_bytes(text@) is None,
        },
{
    base64::decode(text).ok()
}

/// Calls `solana_sdk::signature::Keypair::from_bytes` and tells whether it
/// accepted the bytes.
///
/// Trusted: the answer is the value named by [`is_keypair`].
#[verifier::external_body]
fn keypair_accepts(bytes: &[u8]) -> (ok: bool)
    ensures
        ok == is_keypair(bytes@),
{
    solana_sdk::signature::Keypair::from_bytes(bytes).is_ok()
}

/// Calls `solana_sdk::signature::Keypair::new` and `Keypair::to_bytes`.
///
/// Trusted: whatever the random source gave, the 64 bytes are a key pair that
/// `Keypair::from_bytes` accepts.
#[verifier::external_body]
fn keypair_new() -> (bytes: [u8; 64])
    ensures
        is_keypair(bytes@),
{
    solana_sdk::signature::Keypair::new().to_bytes()
}

/// The canonical base58 text of `bytes`: the same bytes always give the same
/// text, and the text decodes to exactly those bytes.
pub fn encode(bytes: &[u8]) -> (text: String)
    ensures
        is_base58_of(text@, bytes@),
{
    base58_encode(bytes)
}

/// A 32-byte public key.
#[derive(Clone, Copy, Debug, PartialEq, Eq)]
pub struct PublicKey {
    pub bytes: [u8; 32],
}

impl View for PublicKey {
    type V = Seq<u8>;

    open spec fn view(&self) -> Seq<u8> {
        self.bytes@
    }
}

/// Copies `N` bytes out of `source`, starting at `start`.
pub fn copy_bytes<const N: usize>(source: &[u8], start: usize) -> (out: [u8; N])
    requires
        start + N <= source@.len(),
    ensures
        out@ == source@.subrange(start as int, start + N),
{
    let len = source.len();
    let mut out = [0u8; N];
    let mut i: usize = 0;
    while i < N
        invariant
            i <= N,
            len == source@.len(),
            start + N <= len,
            out@.len() == N,
            forall|j: int| 0 <= j < i ==> out@[j] == source@[start + j],
        decreases N - i,
    {
        out[i] = source[start + i];
        i = i + 1;
    }
    assert(out@ =~= source@.subrange(start as int, start + N));
    out
}

/// What a text holds as a public key: the 32 bytes it decodes to, or
/// `InvalidEncoding` if it is not base58 or decodes to another length.
pub open spec fn public_key_of_text(text: Seq<char>) -> Result<Seq<u8>, CodecError> {
    match base58_bytes(text) {
        Some(bytes) => if bytes.len() == 32 {
            Ok(bytes)
        } else {
            Err(CodecError::InvalidEncoding)
        },
        None => Err(CodecError::InvalidEncoding),
    }
}

impl PublicKey {
    /// The key made of `bytes`.
    pub fn from_bytes(bytes: [u8; 32]) -> (key: PublicKey)
        ensures
            key@ == bytes@,
    {
        PublicKey { bytes }
    }

    /// The key's 32 bytes.
    pub fn to_bytes(&self) -> (bytes: [u8; 32])
        ensures
            bytes@ == self@,
    {
        self.bytes
    }

    /// The key's canonical base58 text.
    pub fn to_base58(&self) -> (text: String)
        ensures
            is_base58_of(text@, self@),
            public_key_of_text(text@) == Ok::<Seq<u8>, CodecError>(self@),
    {
        encode(self.bytes.as_slice())
    }
}

/// Reads a public key from its base58 text.
pub fn decode_public_key(text: &str) -> (key: Result<PublicKey, CodecError>)
    ensures
        match key {
            Ok(k) => public_key_of_text(text@) == Ok::<Seq<u8>, CodecError>(k@),
            Err(e) => public_key_of_text(text@) == Err::<Seq<u8>, CodecError>(e),
        },
{
    match base58_decode(text) {
        Some(bytes) => {
            if bytes.len() == PUBLIC_KEY_LEN {
                let key = PublicKey { bytes: copy_bytes::<32>(bytes.as_slice(), 0) };
                assert(key@ =~= bytes@);
                Ok(key)
            } else {
                Err(CodecError::InvalidEncoding)
            }
        },
        None => Err(CodecError::InvalidEncoding),
    }
}

/// What 64 bytes hold as a key pair: themselves, `InvalidLength` if they are
/// not 64, or `InvalidKeyMaterial` if the public half is not the one that the
/// secret half derives.
pub open spec fn keypair_of_bytes(bytes: Seq<u8>) -> Result<Seq<u8>, CodecError> {
    if bytes.len() != 64 {
        Err(CodecError::InvalidLength)
    } else if !is_keypair(bytes) {
        Err(CodecError::InvalidKeyMaterial)
    } else {
        Ok(bytes)
    }
}

/// What a text holds as a key pair: `InvalidEncoding` if it is not base58,
/// else what its bytes hold.
pub open spec fn keypair_of_text(text: Seq<char>) -> Result<Seq<u8>, CodecError> {
    match base58_bytes(text) {
        Some(bytes) => keypair_of_bytes(bytes),
        None => Err(CodecError::InvalidEncoding),
    }
}

/// An Ed25519 key pair: 32 bytes of secret seed followed by the 32 bytes of
/// the public key derived from it. A value of this type always holds a pair
/// that passed that check.
pub struct Keypair {
    bytes: [u8; 64],
}

impl View for Keypair {
    type V = Seq<u8>;

    closed spec fn view(&self) -> Seq<u8> {
        self.bytes@
    }
}

impl Keypair {
    #[verifier::type_invariant]
    spec fn well_formed(self) -> bool {
        is_keypair(self.bytes@)
    }

    /// A pair is 64 bytes long.
    pub proof fn lemma_len(self)
        ensures
            self@.len() == 64,
    {
    }

    /// Checks 64 bytes and takes them as a key pair.
    pub fn from_bytes(bytes: &[u8]) -> (pair: Result<Keypair, CodecError>)
        ensures
            match pair {
                Ok(p) => keypair_of_bytes(bytes@) == Ok::<Seq<u8>, CodecError>(p@),
                Err(e) => keypair_of_bytes(bytes@) == Err::<Seq<u8>, CodecError>(e),
            },
    {
        if bytes.len() != KEYPAIR_LEN {
            return Err(CodecError::InvalidLength);
        }
        if !keypair_accepts(bytes) {
            return Err(CodecError::InvalidKeyMaterial);
        }
        let copy = copy_bytes::<64>(bytes, 0);
        assert(copy@ =~= bytes@);
        Ok(Keypair { bytes: copy })
    }

    /// The pair's 64 bytes: secret seed, then public key.
    pub fn to_bytes(&self) -> (bytes: [u8; 64])
        ensures
            bytes@ == self@,
            is_keypair(bytes@),
    {
        proof {
            use_type_invariant(self);
        }
        self.bytes
    }

    /// The public key of the pair: its last 32 bytes.
    pub fn public_key(&self) -> (key: PublicKey)
        ensures
            key@ == self@.subrange(32, 64),
    {
        PublicKey { bytes: copy_bytes::<32>(self.bytes.as_slice(), 32) }
    }

    /// The base58 text of the pair's 64 bytes, from which
    /// [`decode_private_key`] reads the pair back.
    pub fn to_base58(&self) -> (text: String)
        ensures
            is_base58_of(text@, self@),
            keypair_of_text(text@) == Ok::<Seq<u8>, CodecError>(self@),
    {
        proof {
            use_type_invariant(self);
        }
        encode(self.bytes.as_slice())
    }
}

/// Reads a key pair from the base58 text of its 64 bytes.
pub fn decode_private_key(text: &str) -> (pair: Result<Keypair, CodecError>)
    ensures
        match pair {
            Ok(p) => keypair_of_text(text@) == Ok::<Seq<u8>, CodecError>(p@),
            Err(e) => keypair_of_text(text@) == Err::<Seq<u8>, CodecError>(e),
        },
{
    match base58_decode(text) {
        Some(bytes) => Keypair::from_bytes(bytes.as_slice()),
        None => Err(CodecError::InvalidEncoding),
    }
}

/// A fresh key pair from the operating system's random source.
pub fn generate() -> (pair: Keypair)
    ensures
        is_keypair(pair@),
{
    Keypair { bytes: keypair_new() }
}

/// Decoding undoes encoding: the base58 text of any 32 bytes is read back by
/// [`decode_public_key`] as exactly those bytes.
pub proof fn lemma_public_key_round_trip(bytes: Seq<u8>, text: Seq<char>)
    requires
        bytes.len() == 32,
        is_base58_of(text, bytes),
    ensures
        public_key_of_text(text) == Ok::<Seq<u8>, CodecError>(bytes),
{
}

} // verus!
