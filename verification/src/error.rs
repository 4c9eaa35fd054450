//! Error kinds of the key codec and of the request handlers, and the text each
//! one is reported with.

use vstd::prelude::*;
use vstd::string::*;

verus! {

/// Why a text could not be turned into key or signature bytes.
#[derive(Clone, Copy, Debug, PartialEq, Eq, Structural)]
pub enum CodecError {
    /// The text is not valid in its alphabet (base58 or base64), or, for a
    /// public key, does not hold exactly 32 bytes.
    InvalidEncoding,
    /// The text decodes, but to the wrong number of bytes.
    InvalidLength,
    /// The bytes have the right length but do not form an Ed25519 key pair.
    InvalidKeyMaterial,
}

/// The request field that was expected to hold a public key.
#[derive(Clone, Copy, Debug, PartialEq, Eq, Structural)]
pub enum KeyField {
    Mint,
    MintAuthority,
    Destination,
    Authority,
    PublicKey,
    Sender,
    Recipient,
}

/// The request field that carries encoded secret or signature bytes.
#[derive(Clone, Copy, Debug, PartialEq, Eq, Structural)]
pub enum EncodedField {
    /// A base58 secret key of 64 bytes.
    Secret,
    /// A base64 signature of 64 bytes.
    Signature,
}

/// The instruction that was being built.
#[derive(Clone, Copy, Debug, PartialEq, Eq, Structural)]
pub enum Operation {
    CreateMint,
    MintTo,
}

/// Every way in which a request can be turned down.
#[derive(Debug, PartialEq, Eq)]
pub enum ApiError {
    /// A required text field is empty.
    MissingField,
    /// A field is not valid base58 or base64.
    InvalidEncoding(EncodedField),
    /// A field decodes to the wrong number of bytes.
    InvalidLength(EncodedField),
    /// The secret key bytes do not form a key pair.
    InvalidKeyMaterial,
    /// A field does not hold a public key.
    InvalidPubkey(KeyField),
    /// A numeric field is zero where a positive amount is needed.
    InvalidAmount,
    /// The instruction encoder turned the parameters down; the text is its reason.
    InstructionBuildFailed(Operation, String),
}

/// The text with which a field that holds no public key is reported.
pub open spec fn key_field_message(field: KeyField) -> Seq<char> {
    match field {
        KeyField::Mint => "Invalid mint pubkey"@,
        KeyField::MintAuthority => "Invalid mint authority pubkey"@,
        KeyField::Destination => "Invalid destination pubkey"@,
        KeyField::Authority => "Invalid authority pubkey"@,
        KeyField::PublicKey => "Invalid public key"@,
        KeyField::Sender => "Invalid sender address"@,
        KeyField::Recipient => "Invalid recipient address"@,
    }
}

/// The text that opens the report of a failed instruction build.
pub open spec fn operation_prefix(operation: Operation) -> Seq<char> {
    match operation {
        Operation::CreateMint => "Failed to build instruction: "@,
        Operation::MintTo => "Failed to create mint instruction: "@,
    }
}

/// The human-readable text of an error.
pub open spec fn error_message(error: ApiError) -> Seq<char> {
    match error {
        ApiError::MissingField => "Missing required fields"@,
        ApiError::InvalidEncoding(EncodedField::Secret) => "Invalid base58 secret key"@,
        ApiError::InvalidEncoding(EncodedField::Signature) => "Invalid base64 signature"@,
        ApiError::InvalidLength(EncodedField::Secret) => "Secret key must be 64 bytes long"@,
        ApiError::InvalidLength(EncodedField::Signature) => "Invalid signature format"@,
        ApiError::InvalidKeyMaterial => "Invalid keypair bytes"@,
        ApiError::InvalidPubkey(field) => key_field_message(field),
        ApiError::InvalidAmount => "Lamports must be greater than 0"@,
        ApiError::InstructionBuildFailed(operation, reason) => operation_prefix(operation)
            + reason@,
    }
}

impl KeyField {
    /// The text with which a bad value in this field is reported.
    pub fn message(&self) -> (text: &'static str)
        ensures
            text@ == key_field_message(*self),
    {
        match self {
            KeyField::Mint => "Invalid mint pubkey",
            KeyField::MintAuthority => "Invalid mint authority pubkey",
            KeyField::Destination => "Invalid destination pubkey",
            KeyField::Authority => "Invalid authority pubkey",
            KeyField::PublicKey => "Invalid public key",
            KeyField::Sender => "Invalid sender address",
            KeyField::Recipient => "Invalid recipient address",
        }
    }
}

impl Operation {
    /// The text that opens the report of a failed build of this instruction.
    pub fn prefix(&self) -> (text: &'static str)
        ensures
            text@ == operation_prefix(*self),
    {
        match self {
            Operation::CreateMint => "Failed to build instruction: ",
            Operation::MintTo => "Failed to create mint instruction: ",
        }
    }
}

impl ApiError {
    /// The human-readable text of this error, as it is sent to the caller.
    pub fn message(&self) -> (text: String)
        ensures
            text@ == error_message(*self),
    {
        match self {
            ApiError::MissingField => String::from_str("Missing required fields"),
            ApiError::InvalidEncoding(EncodedField::Secret) => String::from_str(
                "Invalid base58 secret key",
            ),
            ApiError::InvalidEncoding(EncodedField::Signature) => String::from_str(
                "Invalid base64 signature",
            ),
            ApiError::InvalidLength(EncodedField::Secret) => String::from_str(
                "Secret key must be 64 bytes long",
            ),
            ApiError::InvalidLength(EncodedField::Signature) => String::from_str(
                "Invalid signature format",
            ),
            ApiError::InvalidKeyMaterial => String::from_str("Invalid keypair bytes"),
            ApiError::InvalidPubkey(field) => String::from_str(field.message()),
            ApiError::InvalidAmount => String::from_str("Lamports must be greater than 0"),
            ApiError::InstructionBuildFailed(operation, reason) => String::from_str(
                operation.prefix(),
            ).concat(reason.as_str()),
        }
    }
}

} // verus!
