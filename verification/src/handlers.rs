//! The request handlers: each one checks the fields of a request in a fixed
//! order, stops at the first that is wrong, and otherwise computes the data of
//! the response. None of them keeps anything between calls.

use vstd::prelude::*;
use vstd::string::*;
use vstd::utf8::encode_utf8;
use crate::codec::{
    base58_text, base64_encode, base64_text, decode_private_key, decode_public_key, generate,
    is_base58_of, is_keypair, keypair_of_text, public_key_of_text, Keypair, PublicKey,
};
use crate::error::{ApiError, CodecError, EncodedField, KeyField};
use crate::instruction::{
    create_mint, create_mint_descriptor, mint_to, mint_to_descriptor, transfer_descriptor,
    transfer_native, AccountMeta, AccountMetaView, DescriptorView, InstructionDescriptor,
};
use crate::signing::{
    ed25519_accepts, ed25519_signature, sign, signature_of_text, verify, Signature,
};

verus! {

/// A freshly generated key pair in text form.
#[derive(Debug, PartialEq, Eq)]
pub struct KeypairResponse {
    pub pubkey: String,
    pub secret: String,
}

/// A [`KeypairResponse`] as a mathematical value.
pub struct KeypairResponseView {
    pub pubkey: Seq<char>,
    pub secret: Seq<char>,
}

impl View for KeypairResponse {
    type V = KeypairResponseView;

    open spec fn view(&self) -> KeypairResponseView {
        KeypairResponseView { pubkey: self.pubkey@, secret: self.secret@ }
    }
}

/// The fields of a request to build a mint-initializing instruction.
#[derive(Debug, PartialEq, Eq)]
pub struct CreateTokenRequest {
    pub mint_authority: String,
    pub mint: String,
    pub decimals: u8,
}

/// The fields of a request to build a mint-to instruction.
#[derive(Debug, PartialEq, Eq)]
pub struct MintTokenRequest {
    pub mint: String,
    pub destination: String,
    pub authority: String,
    pub amount: u64,
}

/// One account of an instruction, in text form.
#[derive(Debug, PartialEq, Eq)]
pub struct AccountMetaResponse {
    pub pubkey: String,
    pub is_signer: bool,
    pub is_writable: bool,
}

/// An [`AccountMetaResponse`] as a mathematical value.
pub struct AccountMetaResponseView {
    pub pubkey: Seq<char>,
    pub is_signer: bool,
    pub is_writable: bool,
}

impl View for AccountMetaResponse {
    type V = AccountMetaResponseView;

    open spec fn view(&self) -> AccountMetaResponseView {
        AccountMetaResponseView {
            pubkey: self.pubkey@,
            is_signer: self.is_signer,
            is_writable: self.is_writable,
        }
    }
}

/// A token instruction in text form: keys in base58, the payload in base64.
#[derive(Debug, PartialEq, Eq)]
pub struct CreateTokenResponse {
    pub program_id: String,
    pub accounts: Vec<AccountMetaResponse>,
    pub instruction_data: String,
}

/// A [`CreateTokenResponse`] as a mathematical value.
pub struct CreateTokenResponseView {
    pub program_id: Seq<char>,
    pub accounts: Seq<AccountMetaResponseView>,
    pub instruction_data: Seq<char>,
}

impl View for CreateTokenResponse {
    type V = CreateTokenResponseView;

    open spec fn view(&self) -> CreateTokenResponseView {
        CreateTokenResponseView {
            program_id: self.program_id@,
            accounts: self.accounts@.map_values(|account: AccountMetaResponse| account@),
            instruction_data: self.instruction_data@,
        }
    }
}

/// The fields of a request to sign a message.
#[derive(Debug, PartialEq, Eq)]
pub struct SignMessageRequest {
    pub message: String,
    pub secret: String,
}

/// A signed message: the signature in base64, the signer's key in base58.
#[derive(Debug, PartialEq, Eq)]
pub struct SignMessageResponse {
    pub signature: String,
    pub public_key: String,
    pub message: String,
}

/// A [`SignMessageResponse`] as a mathematical value.
pub struct SignMessageResponseView {
    pub signature: Seq<char>,
    pub public_key: Seq<char>,
    pub message: Seq<char>,
}

impl View for SignMessageResponse {
    type V = SignMessageResponseView;

    open spec fn view(&self) -> SignMessageResponseView {
        SignMessageResponseView {
            signature: self.signature@,
            public_key: self.public_key@,
            message: self.message@,
        }
    }
}

/// The fields of a request to verify a signature.
#[derive(Debug, PartialEq, Eq)]
pub struct VerifyMessageRequest {
    pub message: String,
    pub signature: String,
    pub pubkey: String,
}

/// The verdict on a signature, with the message and key it was given for.
#[derive(Debug, PartialEq, Eq)]
pub struct VerifyMessageResponse {
    pub valid: bool,
    pub message: String,
    pub pubkey: String,
}

/// A [`VerifyMessageResponse`] as a mathematical value.
pub struct VerifyMessageResponseView {
    pub valid: bool,
    pub message: Seq<char>,
    pub pubkey: Seq<char>,
}

impl View for VerifyMessageResponse {
    type V = VerifyMessageResponseView;

    open spec fn view(&self) -> VerifyMessageResponseView {
        VerifyMessageResponseView {
            valid: self.valid,
            message: self.message@,
            pubkey: self.pubkey@,
        }
    }
}

/// The fields of a request to build a native transfer.
#[derive(Debug, PartialEq, Eq)]
pub struct SendSolRequest {
    pub from: String,
    pub to: String,
    pub lamports: u64,
}

/// A native transfer in text form; of the accounts only the keys are given.
#[derive(Debug, PartialEq, Eq)]
pub struct SendSolResponse {
    pub program_id: String,
    pub accounts: Vec<String>,
    pub instruction_data: String,
}

/// A [`SendSolResponse`] as a mathematical value.
pub struct SendSolResponseView {
    pub program_id: Seq<char>,
    pub accounts: Seq<Seq<char>>,
    pub instruction_data: Seq<char>,
}

impl View for SendSolResponse {
    type V = SendSolResponseView;

    open spec fn view(&self) -> SendSolResponseView {
        SendSolResponseView {
            program_id: self.program_id@,
            accounts: self.accounts@.map_values(|key: String| key@),
            instruction_data: self.instruction_data@,
        }
    }
}

/// `got` is the answer that `expected` describes: the same error, or data
/// with the expected view.
pub open spec fn answers<T: View>(got: Result<T, ApiError>, expected: Result<T::V, ApiError>) -> bool {
    match got {
        Ok(data) => expected == Ok::<T::V, ApiError>(data@),
        Err(error) => expected == Err::<T::V, ApiError>(error),
    }
}

/// The public key in a request field, or the error that names the field.
pub open spec fn key_in_field(text: Seq<char>, field: KeyField) -> Result<Seq<u8>, ApiError> {
    match public_key_of_text(text) {
        Ok(key) => Ok(key),
        Err(_) => Err(ApiError::InvalidPubkey(field)),
    }
}

/// The key pair in a secret field, or the error that says what is wrong with
/// the field.
pub open spec fn keypair_in_field(text: Seq<char>) -> Result<Seq<u8>, ApiError> {
    match keypair_of_text(text) {
        Ok(pair) => Ok(pair),
        Err(CodecError::InvalidEncoding) => Err(ApiError::InvalidEncoding(EncodedField::Secret)),
        Err(CodecError::InvalidLength) => Err(ApiError::InvalidLength(EncodedField::Secret)),
        Err(CodecError::InvalidKeyMaterial) => Err(ApiError::InvalidKeyMaterial),
    }
}

/// The signature in a signature field, or the error that says what is wrong
/// with the field.
pub open spec fn signature_in_field(text: Seq<char>) -> Result<Seq<u8>, ApiError> {
    match signature_of_text(text) {
        Ok(signature) => Ok(signature),
        Err(CodecError::InvalidEncoding) => Err(
            ApiError::InvalidEncoding(EncodedField::Signature),
        ),
        Err(_) => Err(ApiError::InvalidLength(EncodedField::Signature)),
    }
}

/// An account in text form.
pub open spec fn account_response(meta: AccountMetaView) -> AccountMetaResponseView {
    AccountMetaResponseView {
        pubkey: base58_text(meta.public_key),
        is_signer: meta.is_signer,
        is_writable: meta.is_writable,
    }
}

/// An instruction in text form, with the flags of each account.
pub open spec fn instruction_response(ix: DescriptorView) -> CreateTokenResponseView {
    CreateTokenResponseView {
        program_id: base58_text(ix.program_id),
        accounts: ix.accounts.map_values(|meta: AccountMetaView| account_response(meta)),
        instruction_data: base64_text(ix.data),
    }
}

/// An instruction in text form, with only the key of each account.
pub open spec fn transfer_response(ix: DescriptorView) -> SendSolResponseView {
    SendSolResponseView {
        program_id: base58_text(ix.program_id),
        accounts: ix.accounts.map_values(|meta: AccountMetaView| base58_text(meta.public_key)),
        instruction_data: base64_text(ix.data),
    }
}

/// The text form of a key pair: its public key and its 64 bytes, in base58.
pub open spec fn keypair_response(pair: Seq<u8>) -> KeypairResponseView {
    KeypairResponseView {
        pubkey: base58_text(pair.subrange(32, 64)),
        secret: base58_text(pair),
    }
}

/// What a request for a mint-initializing instruction is answered with. The
/// mint is looked at first, then the mint authority.
pub open spec fn create_token_outcome(
    mint_authority: Seq<char>,
    mint: Seq<char>,
    decimals: u8,
) -> Result<CreateTokenResponseView, ApiError> {
    match key_in_field(mint, KeyField::Mint) {
        Err(error) => Err(error),
        Ok(mint_key) => match key_in_field(mint_authority, KeyField::MintAuthority) {
            Err(error) => Err(error),
            Ok(authority_key) => Ok(
                instruction_response(create_mint_descriptor(authority_key, mint_key, decimals)),
            ),
        },
    }
}

/// What a request for a mint-to instruction is answered with. The mint is
/// looked at first, then the destination, then the authority.
pub open spec fn mint_token_outcome(
    mint: Seq<char>,
    destination: Seq<char>,
    authority: Seq<char>,
    amount: u64,
) -> Result<CreateTokenResponseView, ApiError> {
    match key_in_field(mint, KeyField::Mint) {
        Err(error) => Err(error),
        Ok(mint_key) => match key_in_field(destination, KeyField::Destination) {
            Err(error) => Err(error),
            Ok(destination_key) => match key_in_field(authority, KeyField::Authority) {
                Err(error) => Err(error),
                Ok(authority_key) => Ok(
                    instruction_response(
                        mint_to_descriptor(mint_key, destination_key, authority_key, amount),
                    ),
                ),
            },
        },
    }
}

/// What a request to sign is answered with. Empty fields are turned down
/// before the secret is read; the message is signed as its UTF-8 bytes.
pub open spec fn sign_message_outcome(message: Seq<char>, secret: Seq<char>) -> Result<
    SignMessageResponseView,
    ApiError,
> {
    if message.len() == 0 || secret.len() == 0 {
        Err(ApiError::MissingField)
    } else {
        match keypair_in_field(secret) {
            Err(error) => Err(error),
            Ok(pair) => Ok(
                SignMessageResponseView {
                    signature: base64_text(ed25519_signature(pair, encode_utf8(message))),
                    public_key: base58_text(pair.subrange(32, 64)),
                    message,
                },
            ),
        }
    }
}

/// What a request to verify is answered with. Empty fields are turned down
/// first, then the key is read, then the signature. A signature that is well
/// formed but wrong is no error: the answer then says `valid: false`.
pub open spec fn verify_message_outcome(
    message: Seq<char>,
    signature: Seq<char>,
    pubkey: Seq<char>,
) -> Result<VerifyMessageResponseView, ApiError> {
    if message.len() == 0 || signature.len() == 0 || pubkey.len() == 0 {
        Err(ApiError::MissingField)
    } else {
        match key_in_field(pubkey, KeyField::PublicKey) {
            Err(error) => Err(error),
            Ok(key) => match signature_in_field(signature) {
                Err(error) => Err(error),
                Ok(signature_bytes) => Ok(
                    VerifyMessageResponseView {
                        valid: ed25519_accepts(key, encode_utf8(message), signature_bytes),
                        message,
                        pubkey,
                    },
                ),
            },
        }
    }
}

/// What a request for a native transfer is answered with. The sender is
/// looked at first, then the recipient, then the amount.
pub open spec fn send_sol_outcome(from: Seq<char>, to: Seq<char>, lamports: u64) -> Result<
    SendSolResponseView,
    ApiError,
> {
    match key_in_field(from, KeyField::Sender) {
        Err(error) => Err(error),
        Ok(from_key) => match key_in_field(to, KeyField::Recipient) {
            Err(error) => Err(error),
            Ok(to_key) => if lamports == 0 {
                Err(ApiError::InvalidAmount)
            } else {
                Ok(transfer_response(transfer_descriptor(from_key, to_key, lamports)))
            },
        },
    }
}

/// Reads the public key in a request field.
pub fn parse_key(text: &str, field: KeyField) -> (key: Result<PublicKey, ApiError>)
    ensures
        answers(key, key_in_field(text@, field)),
{
    match decode_public_key(text) {
        Ok(key) => Ok(key),
        Err(_) => Err(ApiError::InvalidPubkey(field)),
    }
}

/// Reads the key pair in a secret field.
pub fn parse_secret(text: &str) -> (pair: Result<Keypair, ApiError>)
    ensures
        answers(pair, keypair_in_field(text@)),
{
    match decode_private_key(text) {
        Ok(pair) => Ok(pair),
        Err(CodecError::InvalidEncoding) => Err(ApiError::InvalidEncoding(EncodedField::Secret)),
        Err(CodecError::InvalidLength) => Err(ApiError::InvalidLength(EncodedField::Secret)),
        Err(CodecError::InvalidKeyMaterial) => Err(ApiError::InvalidKeyMaterial),
    }
}

/// Reads the signature in a signature field.
pub fn parse_signature(text: &str) -> (signature: Result<Signature, ApiError>)
    ensures
        answers(signature, signature_in_field(text@)),
{
    match Signature::from_base64(text) {
        Ok(signature) => Ok(signature),
        Err(CodecError::InvalidEncoding) => Err(
            ApiError::InvalidEncoding(EncodedField::Signature),
        ),
        Err(_) => Err(ApiError::InvalidLength(EncodedField::Signature)),
    }
}

/// Writes an account in text form.
pub fn render_account(meta: &AccountMeta) -> (account: AccountMetaResponse)
    ensures
        account@ == account_response(meta@),
{
    AccountMetaResponse {
        pubkey: meta.public_key.to_base58(),
        is_signer: meta.is_signer,
        is_writable: meta.is_writable,
    }
}

/// Writes an instruction in text form, account flags included.
pub fn render_instruction(ix: &InstructionDescriptor) -> (response: CreateTokenResponse)
    ensures
        response@ == instruction_response(ix@),
{
    let mut accounts: Vec<AccountMetaResponse> = Vec::new();
    let mut i: usize = 0;
    while i < ix.accounts.len()
        invariant
            i <= ix.accounts@.len(),
            accounts@.len() == i,
            forall|j: int| 0 <= j < i ==> (#[trigger] accounts@[j])@ == account_response(ix.accounts@[j]@),
        decreases ix.accounts@.len() - i,
    {
        accounts.push(render_account(&ix.accounts[i]));
        i = i + 1;
    }
    let response = CreateTokenResponse {
        program_id: ix.program_id.to_base58(),
        accounts,
        instruction_data: base64_encode(ix.data.as_slice()),
    };
    assert(response@.accounts =~= instruction_response(ix@).accounts);
    response
}

/// Writes a transfer in text form, with the accounts' keys only.
pub fn render_transfer(ix: &InstructionDescriptor) -> (response: SendSolResponse)
    ensures
        response@ == transfer_response(ix@),
{
    let mut accounts: Vec<String> = Vec::new();
    let mut i: usize = 0;
    while i < ix.accounts.len()
        invariant
            i <= ix.accounts@.len(),
            accounts@.len() == i,
            forall|j: int| 0 <= j < i ==> (#[trigger] accounts@[j])@ == base58_text(ix.accounts@[j]@.public_key),
        decreases ix.accounts@.len() - i,
    {
        accounts.push(ix.accounts[i].public_key.to_base58());
        i = i + 1;
    }
    let response = SendSolResponse {
        program_id: ix.program_id.to_base58(),
        accounts,
        instruction_data: base64_encode(ix.data.as_slice()),
    };
    assert(response@.accounts =~= transfer_response(ix@).accounts);
    response
}

/// Writes a key pair in text form.
pub fn render_keypair(pair: &Keypair) -> (response: KeypairResponse)
    ensures
        response@ == keypair_response(pair@),
        is_base58_of(response.pubkey@, pair@.subrange(32, 64)),
        is_base58_of(response.secret@, pair@),
{
    KeypairResponse { pubkey: pair.public_key().to_base58(), secret: pair.to_base58() }
}

/// The greeting served at the root.
pub fn hello() -> (greeting: String)
    ensures
        greeting@ == "Hi Rusty"@,
{
    String::from_str("Hi Rusty")
}

/// Generates a key pair and gives it out in text form. Whatever pair the
/// random source gave, the public key is the one derived from the secret,
/// and both texts decode to the bytes they were written from.
pub fn generate_keypair() -> (response: KeypairResponse)
    ensures
        exists|pair: Seq<u8>|
            {
                &&& is_keypair(pair)
                &&& #[trigger] keypair_response(pair) == response@
                &&& is_base58_of(response.pubkey@, pair.subrange(32, 64))
                &&& is_base58_of(response.secret@, pair)
            },
{
    let pair = generate();
    render_keypair(&pair)
}

/// Builds the instruction that initializes a token mint.
pub fn create_token(request: &CreateTokenRequest) -> (response: Result<CreateTokenResponse, ApiError>)
    ensures
        answers(
            response,
            create_token_outcome(request.mint_authority@, request.mint@, request.decimals),
        ),
{
    let mint = parse_key(request.mint.as_str(), KeyField::Mint)?;
    let mint_authority = parse_key(request.mint_authority.as_str(), KeyField::MintAuthority)?;
    let ix = create_mint(&mint_authority, &mint, request.decimals)?;
    Ok(render_instruction(&ix))
}

/// Builds the instruction that mints tokens to an account.
pub fn mint_token(request: &MintTokenRequest) -> (response: Result<CreateTokenResponse, ApiError>)
    ensures
        answers(
            response,
            mint_token_outcome(
                request.mint@,
                request.destination@,
                request.authority@,
                request.amount,
            ),
        ),
{
    let mint = parse_key(request.mint.as_str(), KeyField::Mint)?;
    let destination = parse_key(request.destination.as_str(), KeyField::Destination)?;
    let authority = parse_key(request.authority.as_str(), KeyField::Authority)?;
    let ix = mint_to(&mint, &destination, &authority, request.amount)?;
    Ok(render_instruction(&ix))
}

/// Signs the UTF-8 bytes of a message with the key pair given as a base58
/// secret.
pub fn sign_message(request: &SignMessageRequest) -> (response: Result<SignMessageResponse, ApiError>)
    ensures
        answers(response, sign_message_outcome(request.message@, request.secret@)),
{
    if request.message.as_str().is_empty() || request.secret.as_str().is_empty() {
        return Err(ApiError::MissingField);
    }
    let pair = parse_secret(request.secret.as_str())?;
    let signature = sign(request.message.as_str().as_bytes(), &pair);
    Ok(
        SignMessageResponse {
            signature: signature.to_base64(),
            public_key: pair.public_key().to_base58(),
            message: request.message.clone(),
        },
    )
}

/// Checks a base64 signature of the UTF-8 bytes of a message against a
/// base58 public key.
pub fn verify_message(request: &VerifyMessageRequest) -> (response: Result<
    VerifyMessageResponse,
    ApiError,
>)
    ensures
        answers(
            response,
            verify_message_outcome(request.message@, request.signature@, request.pubkey@),
        ),
{
    if request.message.as_str().is_empty() || request.signature.as_str().is_empty()
        || request.pubkey.as_str().is_empty() {
        return Err(ApiError::MissingField);
    }
    let key = parse_key(request.pubkey.as_str(), KeyField::PublicKey)?;
    let signature = parse_signature(request.signature.as_str())?;
    let valid = verify(request.message.as_str().as_bytes(), &signature, &key);
    Ok(
        VerifyMessageResponse {
            valid,
            message: request.message.clone(),
            pubkey: request.pubkey.clone(),
        },
    )
}

/// Builds the instruction that transfers lamports between two accounts.
pub fn send_sol(request: &SendSolRequest) -> (response: Result<SendSolResponse, ApiError>)
    ensures
        answers(response, send_sol_outcome(request.from@, request.to@, request.lamports)),
{
    let from = parse_key(request.from.as_str(), KeyField::Sender)?;
    let to = parse_key(request.to.as_str(), KeyField::Recipient)?;
    let ix = transfer_native(&from, &to, request.lamports)?;
    Ok(render_transfer(&ix))
}

/// A well-formed request to verify is never answered with an error: once
/// the fields are filled, the key reads as 32 bytes and the signature as 64,
/// the answer is a verdict, and the verdict is that of the signature check,
/// `false` included.
pub proof fn lemma_well_formed_signature_gets_a_verdict(
    message: Seq<char>,
    signature: Seq<char>,
    pubkey: Seq<char>,
)
    requires
        message.len() > 0,
        signature.len() > 0,
        pubkey.len() > 0,
        public_key_of_text(pubkey) is Ok,
        signature_of_text(signature) is Ok,
    ensures
        verify_message_outcome(message, signature, pubkey) == Ok::<
            VerifyMessageResponseView,
            ApiError,
        >(
            VerifyMessageResponseView {
                valid: ed25519_accepts(
                    public_key_of_text(pubkey)->Ok_0,
                    encode_utf8(message),
                    signature_of_text(signature)->Ok_0,
                ),
                message,
                pubkey,
            },
        ),
{
}

/// A transfer of nothing is turned down whatever the addresses are, as long
/// as they are addresses; a transfer of something between two addresses is
/// answered with the sender's and the recipient's text, in that order.
pub proof fn lemma_send_sol_amount(from: Seq<char>, to: Seq<char>, lamports: u64)
    requires
        public_key_of_text(from) is Ok,
        public_key_of_text(to) is Ok,
    ensures
        lamports == 0 ==> send_sol_outcome(from, to, lamports) == Err::<
            SendSolResponseView,
            ApiError,
        >(ApiError::InvalidAmount),
        lamports > 0 ==> send_sol_outcome(from, to, lamports) is Ok,
        lamports > 0 ==> send_sol_outcome(from, to, lamports)->Ok_0.accounts =~= seq![
            base58_text(public_key_of_text(from)->Ok_0),
            base58_text(public_key_of_text(to)->Ok_0),
        ],
{
}

} // verus!
