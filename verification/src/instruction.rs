//! Instruction descriptors for the token program and the system program:
//! which program is addressed, which accounts it is given and in what order,
//! and the bytes of the payload.
//!
//! The descriptors are built by `spl-token` and `solana-sdk`. What those
//! crates return is written down here byte for byte, so that everything
//! built on top can be proved against the layout that the on-chain programs
//! read.

use vstd::prelude::*;
use vstd::bytes::spec_u64_to_le_bytes;
use crate::codec::PublicKey;
use crate::error::{ApiError, Operation};

verus! {

/// One account slot of an instruction.
#[derive(Clone, Copy, Debug, PartialEq, Eq)]
pub struct AccountMeta {
    pub public_key: PublicKey,
    pub is_signer: bool,
    pub is_writable: bool,
}

/// An account slot as a mathematical value.
pub struct AccountMetaView {
    pub public_key: Seq<u8>,
    pub is_signer: bool,
    pub is_writable: bool,
}

impl View for AccountMeta {
    type V = AccountMetaView;

    open spec fn view(&self) -> AccountMetaView {
        AccountMetaView {
            public_key: self.public_key@,
            is_signer: self.is_signer,
            is_writable: self.is_writable,
        }
    }
}

/// An instruction as it is handed to the ledger: the program to run, the
/// accounts in the order the program expects them, and the payload.
#[derive(Debug, PartialEq, Eq)]
pub struct InstructionDescriptor {
    pub program_id: PublicKey,
    pub accounts: Vec<AccountMeta>,
    pub data: Vec<u8>,
}

/// An instruction descriptor as a mathematical value.
pub struct DescriptorView {
    pub program_id: Seq<u8>,
    pub accounts: Seq<AccountMetaView>,
    pub data: Seq<u8>,
}

impl View for InstructionDescriptor {
    type V = DescriptorView;

    open spec fn view(&self) -> DescriptorView {
        DescriptorView {
            program_id: self.program_id@,
            accounts: self.accounts@.map_values(|meta: AccountMeta| meta@),
            data: self.data@,
        }
    }
}

/// An account that the instruction may change.
pub open spec fn writable(public_key: Seq<u8>, is_signer: bool) -> AccountMetaView {
    AccountMetaView { public_key, is_signer, is_writable: true }
}

/// An account that the instruction only reads.
pub open spec fn readonly(public_key: Seq<u8>, is_signer: bool) -> AccountMetaView {
    AccountMetaView { public_key, is_signer, is_writable: false }
}

/// The address of the token program,
/// `TokenkegQfeZyiNwAJbNbGKPFXCWuBvf9Ss623VQ5DA`.
pub open spec fn token_program_id() -> Seq<u8> {
    seq![
        6u8, 221, 246, 225, 215, 101, 161, 147, 217, 203, 225, 70, 206, 235, 121, 172,
        28, 180, 133, 237, 95, 91, 55, 145, 58, 140, 245, 133, 126, 255, 0, 169,
    ]
}

/// The address of the rent sysvar,
/// `SysvarRent111111111111111111111111111111111`.
pub open spec fn rent_sysvar_id() -> Seq<u8> {
    seq![
        6u8, 167, 213, 23, 25, 44, 92, 81, 33, 140, 201, 76, 61, 74, 241, 127,
        88, 218, 238, 8, 155, 161, 253, 68, 227, 219, 217, 138, 0, 0, 0, 0,
    ]
}

/// The address of the system program, `11111111111111111111111111111111`:
/// 32 zero bytes.
pub open spec fn system_program_id() -> Seq<u8> {
    Seq::new(32, |i: int| 0u8)
}

/// Payload of the token program's `InitializeMint` without a freeze
/// authority: tag 0, the decimals, the mint authority, and a 0 for the absent
/// freeze authority.
pub open spec fn initialize_mint_data(mint_authority: Seq<u8>, decimals: u8) -> Seq<u8> {
    seq![0u8, decimals] + mint_authority + seq![0u8]
}

/// Payload of the token program's `MintTo`: tag 7, then the amount as eight
/// little-endian bytes.
pub open spec fn mint_to_data(amount: u64) -> Seq<u8> {
    seq![7u8] + spec_u64_to_le_bytes(amount)
}

/// Payload of the system program's `Transfer`: the variant's index 2 as four
/// little-endian bytes, then the lamports as eight.
pub open spec fn transfer_data(lamports: u64) -> Seq<u8> {
    seq![2u8, 0u8, 0u8, 0u8] + spec_u64_to_le_bytes(lamports)
}

/// The instruction that initializes `mint` as a token mint with the given
/// mint authority and decimals and no freeze authority.
pub open spec fn create_mint_descriptor(
    mint_authority: Seq<u8>,
    mint: Seq<u8>,
    decimals: u8,
) -> DescriptorView {
    DescriptorView {
        program_id: token_program_id(),
        accounts: seq![writable(mint, false), readonly(rent_sysvar_id(), false)],
        data: initialize_mint_data(mint_authority, decimals),
    }
}

/// The instruction that mints `amount` base units of `mint` to `destination`,
/// signed by `authority` alone.
pub open spec fn mint_to_descriptor(
    mint: Seq<u8>,
    destination: Seq<u8>,
    authority: Seq<u8>,
    amount: u64,
) -> DescriptorView {
    DescriptorView {
        program_id: token_program_id(),
        accounts: seq![
            writable(mint, false),
            writable(destination, false),
            readonly(authority, true),
        ],
        data: mint_to_data(amount),
    }
}

/// The instruction that moves `lamports` of the native asset from `from`,
/// who signs, to `to`.
pub open spec fn transfer_descriptor(from: Seq<u8>, to: Seq<u8>, lamports: u64) -> DescriptorView {
    DescriptorView {
        program_id: system_program_id(),
        accounts: seq![writable(from, true), writable(to, false)],
        data: transfer_data(lamports),
    }
}

/// Calls `spl_token::instruction::initialize_mint` for the token program
/// `spl_token::id()`, without a freeze authority.
///
/// Trusted: for that program id the call succeeds, and the instruction names
/// the token program, lists the mint (writable) and the rent sysvar
/// (read-only), neither signing, and carries the payload that
/// `TokenInstruction::pack` writes for `InitializeMint`.
#[verifier::external_body]
fn token_initialize_mint(
    mint: &[u8; 32],
    mint_authority: &[u8; 32],
    decimals: u8,
) -> (built: Result<InstructionDescriptor, String>)
    ensures
        built is Ok,
        built->Ok_0@ == create_mint_descriptor(mint_authority@, mint@, decimals),
{
    let mint = solana_sdk::pubkey::Pubkey::new_from_array(*mint);
    let authority = solana_sdk::pubkey::Pubkey::new_from_array(*mint_authority);
    match spl_token::instruction::initialize_mint(&spl_token::id(), &mint, &authority, None, decimals) {
        Ok(ix) => Ok(InstructionDescriptor {
            program_id: PublicKey { bytes: ix.program_id.to_bytes() },
            accounts: ix.accounts.iter().map(|m| AccountMeta { public_key: PublicKey { bytes: m.pubkey.to_bytes() }, is_signer: m.is_signer, is_writable: m.is_writable }).collect(),
            data: ix.data,
        }),
        Err(e) => Err(e.to_string()),
    }
}

/// Calls `spl_token::instruction::mint_to` for the token program
/// `spl_token::id()`, with no multisig signers.
///
/// Trusted: for that program id the call succeeds, and the instruction names
/// the token program, lists the mint and the destination (both writable, not
/// signing) and the authority (read-only, signing), and carries the payload
/// that `TokenInstruction::pack` writes for `MintTo`.
#[verifier::external_body]
fn token_mint_to(
    mint: &[u8; 32],
    destination: &[u8; 32],
    authority: &[u8; 32],
    amount: u64,
) -> (built: Result<InstructionDescriptor, String>)
    ensures
        built is Ok,
        built->Ok_0@ == mint_to_descriptor(mint@, destination@, authority@, amount),
{
    let mint = solana_sdk::pubkey::Pubkey::new_from_array(*mint);
    let destination = solana_sdk::pubkey::Pubkey::new_from_array(*destination);
    let authority = solana_sdk::pubkey::Pubkey::new_from_array(*authority);
    match spl_token::instruction::mint_to(&spl_token::id(), &mint, &destination, &authority, &[], amount) {
        Ok(ix) => Ok(InstructionDescriptor {
            program_id: PublicKey { bytes: ix.program_id.to_bytes() },
            accounts: ix.accounts.iter().map(|m| AccountMeta { public_key: PublicKey { bytes: m.pubkey.to_bytes() }, is_signer: m.is_signer, is_writable: m.is_writable }).collect(),
            data: ix.data,
        }),
        Err(e) => Err(e.to_string()),
    }
}

/// Calls `solana_sdk::system_instruction::transfer`.
///
/// Trusted: the instruction names the system program, lists the sender
/// (writable, signing) and the recipient (writable, not signing), and carries
/// the `bincode` form of `SystemInstruction::Transfer`.
#[verifier::external_body]
fn system_transfer(from: &[u8; 32], to: &[u8; 32], lamports: u64) -> (ix: InstructionDescriptor)
    ensures
        ix@ == transfer_descriptor(from@, to@, lamports),
{
    let from = solana_sdk::pubkey::Pubkey::new_from_array(*from);
    let to = solana_sdk::pubkey::Pubkey::new_from_array(*to);
    let ix = solana_sdk::system_instruction::transfer(&from, &to, lamports);
    InstructionDescriptor {
        program_id: PublicKey { bytes: ix.program_id.to_bytes() },
        accounts: ix.accounts.iter().map(|m| AccountMeta { public_key: PublicKey { bytes: m.pubkey.to_bytes() }, is_signer: m.is_signer, is_writable: m.is_writable }).collect(),
        data: ix.data,
    }
}

/// Turns what the instruction encoder returned into the library's result: the
/// descriptor as it is, or the encoder's reason as an
/// `InstructionBuildFailed` of the given operation.
pub fn finish_build(
    operation: Operation,
    outcome: Result<InstructionDescriptor, String>,
) -> (built: Result<InstructionDescriptor, ApiError>)
    ensures
        match outcome {
            Ok(ix) => built == Ok::<InstructionDescriptor, ApiError>(ix),
            Err(reason) => built == Err::<InstructionDescriptor, ApiError>(
                ApiError::InstructionBuildFailed(operation, reason),
            ),
        },
{
    match outcome {
        Ok(ix) => Ok(ix),
        Err(reason) => Err(ApiError::InstructionBuildFailed(operation, reason)),
    }
}

/// Builds the instruction that initializes `mint` as a token mint with
/// `decimals` decimals, `mint_authority` as its mint authority and no freeze
/// authority.
pub fn create_mint(
    mint_authority: &PublicKey,
    mint: &PublicKey,
    decimals: u8,
) -> (built: Result<InstructionDescriptor, ApiError>)
    ensures
        built matches Ok(ix) && ix@ == create_mint_descriptor(mint_authority@, mint@, decimals),
{
    finish_build(
        Operation::CreateMint,
        token_initialize_mint(&mint.bytes, &mint_authority.bytes, decimals),
    )
}

/// Builds the instruction that mints `amount` base units of `mint` to
/// `destination`, authorized by `authority` alone.
pub fn mint_to(
    mint: &PublicKey,
    destination: &PublicKey,
    authority: &PublicKey,
    amount: u64,
) -> (built: Result<InstructionDescriptor, ApiError>)
    ensures
        built matches Ok(ix) && ix@ == mint_to_descriptor(mint@, destination@, authority@, amount),
{
    finish_build(
        Operation::MintTo,
        token_mint_to(&mint.bytes, &destination.bytes, &authority.bytes, amount),
    )
}

/// Builds the instruction that moves `amount` lamports from `from` to `to`.
/// An amount of zero is turned down with `InvalidAmount`.
pub fn transfer_native(
    from: &PublicKey,
    to: &PublicKey,
    amount: u64,
) -> (built: Result<InstructionDescriptor, ApiError>)
    ensures
        amount == 0 ==> built == Err::<InstructionDescriptor, ApiError>(ApiError::InvalidAmount),
        amount > 0 ==> (built matches Ok(ix) && ix@ == transfer_descriptor(from@, to@, amount)),
{
    if amount == 0 {
        return Err(ApiError::InvalidAmount);
    }
    Ok(system_transfer(&from.bytes, &to.bytes, amount))
}

/// The mint instruction addresses the token program and lists exactly two
/// accounts, neither of which signs: the mint, which it may change, and the
/// rent sysvar, which it only reads.
pub proof fn lemma_create_mint_shape(mint_authority: Seq<u8>, mint: Seq<u8>, decimals: u8)
    ensures
        create_mint_descriptor(mint_authority, mint, decimals).program_id == token_program_id(),
        create_mint_descriptor(mint_authority, mint, decimals).accounts.len() == 2,
        create_mint_descriptor(mint_authority, mint, decimals).accounts[0] == writable(mint, false),
        create_mint_descriptor(mint_authority, mint, decimals).accounts[1] == readonly(
            rent_sysvar_id(),
            false,
        ),
        mint_authority.len() == 32 ==> create_mint_descriptor(
            mint_authority,
            mint,
            decimals,
        ).data.len() == 35,
{
}

/// The transfer instruction lists exactly the sender, who signs, and then the
/// recipient, who does not; it may change both.
pub proof fn lemma_transfer_shape(from: Seq<u8>, to: Seq<u8>, lamports: u64)
    ensures
        transfer_descriptor(from, to, lamports).program_id == system_program_id(),
        transfer_descriptor(from, to, lamports).accounts.len() == 2,
        transfer_descriptor(from, to, lamports).accounts[0] == writable(from, true),
        transfer_descriptor(from, to, lamports).accounts[1] == writable(to, false),
{
}

} // verus!
