use vstd::prelude::*;

use spl_token::solana_program::pubkey::Pubkey as SolanaPubkey;

use crate::token::{le_value, token_program_key};
use crate::types::{AccountView, ErrorCode, Pubkey};

verus! {

/// One account of an instruction, with its signer and writable marks.
#[derive(Clone, Copy, Debug, PartialEq, Eq)]
pub struct AccountMetaData {
    pub pubkey: Pubkey,
    pub is_signer: bool,
    pub is_writable: bool,
}

/// An instruction for a program: the program, its accounts and its data.
#[derive(Debug)]
pub struct InstructionData {
    pub program_id: Pubkey,
    pub accounts: Vec<AccountMetaData>,
    pub data: Vec<u8>,
}

/// What a cross-program call is made of: the instruction, and the seed lists
/// that sign for program-derived authorities (none or one).
#[derive(Debug)]
pub struct Invocation {
    pub instruction: InstructionData,
    pub signer_seeds: Vec<Vec<Vec<u8>>>,
}

/// The accounts and amount of a token transfer.
#[derive(Debug)]
pub struct TokenTransferParams {
    pub source: AccountView,
    pub destination: AccountView,
    pub amount: u64,
    pub authority: AccountView,
    /// Seeds of the authority when it is a program-derived address; empty
    /// when the authority signs itself.
    pub authority_signer_seeds: Vec<Vec<u8>>,
    pub token_program: AccountView,
}

/// The accounts and amount of a token burn.
#[derive(Debug)]
pub struct TokenBurnParams {
    pub mint: AccountView,
    pub source: AccountView,
    pub amount: u64,
    pub authority: AccountView,
    /// Seeds of the authority when it is a program-derived address.
    pub authority_signer_seeds: Option<Vec<Vec<u8>>>,
    pub token_program: AccountView,
}

/// Instruction tag of the token program's `Transfer`.
pub const TRANSFER_TAG: u8 = 3;

/// Instruction tag of the token program's `Burn`.
pub const BURN_TAG: u8 = 8;

/// A token-program instruction with tag `tag` on two writable accounts and an
/// authority that signs, carrying `amount` as eight little-endian bytes.
pub open spec fn token_call_shape(
    ix: InstructionData,
    tag: u8,
    first: Pubkey,
    second: Pubkey,
    authority: Pubkey,
    amount: u64,
) -> bool {
    &&& ix.program_id@ == token_program_key()
    &&& ix.accounts@ == seq![
        AccountMetaData { pubkey: first, is_signer: false, is_writable: true },
        AccountMetaData { pubkey: second, is_signer: false, is_writable: true },
        AccountMetaData { pubkey: authority, is_signer: true, is_writable: false },
    ]
    &&& ix.data@.len() == 9
    &&& ix.data@[0] == tag
    &&& le_value(ix.data@.subrange(1, 9)) == amount as int
}

/// Relies on `spl_token::instruction::transfer` with no multisig signers: it
/// refuses any program but the token program, else returns tag 3 and the
/// amount, on source and destination (writable) and the authority (signer).
#[verifier::external_body]
fn transfer_instruction(
    token_program: &Pubkey,
    source: &Pubkey,
    destination: &Pubkey,
    authority: &Pubkey,
    amount: u64,
) -> (r: Option<InstructionData>)
    ensures
        r.is_some() == (token_program@ == token_program_key()),
        r matches Some(ix) ==> token_call_shape(ix, 3, *source, *destination, *authority, amount),
{
    let k = |b: &Pubkey| SolanaPubkey::new_from_array(*b);
    let ix = spl_token::instruction::transfer(
        &k(token_program), &k(source), &k(destination), &k(authority), &[], amount,
    ).ok()?;
    let accounts = ix.accounts.iter().map(|m| AccountMetaData {
        pubkey: m.pubkey.to_bytes(), is_signer: m.is_signer, is_writable: m.is_writable,
    }).collect();
    Some(InstructionData { program_id: ix.program_id.to_bytes(), accounts, data: ix.data })
}

/// Relies on `spl_token::instruction::burn` with no multisig signers: it
/// refuses any program but the token program, else returns tag 8 and the
/// amount, on the account and the mint (writable) and the authority (signer).
#[verifier::external_body]
fn burn_instruction(
    token_program: &Pubkey,
    account: &Pubkey,
    mint: &Pubkey,
    authority: &Pubkey,
    amount: u64,
) -> (r: Option<InstructionData>)
    ensures
        r.is_some() == (token_program@ == token_program_key()),
        r matches Some(ix) ==> token_call_shape(ix, 8, *account, *mint, *authority, amount),
{
    let k = |b: &Pubkey| SolanaPubkey::new_from_array(*b);
    let ix = spl_token::instruction::burn(
        &k(token_program), &k(account), &k(mint), &k(authority), &[], amount,
    ).ok()?;
    let accounts = ix.accounts.iter().map(|m| AccountMetaData {
        pubkey: m.pubkey.to_bytes(), is_signer: m.is_signer, is_writable: m.is_writable,
    }).collect();
    Some(InstructionData { program_id: ix.program_id.to_bytes(), accounts, data: ix.data })
}

/// Prepares the token transfer that `params` describes: its instruction, and
/// the authority's seed list as the one signer when the list is not empty.
pub fn transfer_invocation(params: TokenTransferParams) -> (r: Result<Invocation, ErrorCode>)
    ensures
        match r {
            Ok(inv) => {
                &&& params.token_program.key@ == token_program_key()
                &&& token_call_shape(
                    inv.instruction,
                    TRANSFER_TAG,
                    params.source.key,
                    params.destination.key,
                    params.authority.key,
                    params.amount,
                )
                &&& inv.signer_seeds@ == (if params.authority_signer_seeds@.len() > 0 {
                    seq![params.authority_signer_seeds]
                } else {
                    Seq::empty()
                })
            },
            Err(e) => {
                &&& e == ErrorCode::IncorrectProgramId
                &&& params.token_program.key@ != token_program_key()
            },
        },
{
    let TokenTransferParams {
        source,
        destination,
        amount,
        authority,
        authority_signer_seeds,
        token_program,
    } = params;
    let mut signer_seeds: Vec<Vec<Vec<u8>>> = Vec::new();
    if authority_signer_seeds.len() > 0 {
        signer_seeds.push(authority_signer_seeds);
    }
    match transfer_instruction(&token_program.key, &source.key, &destination.key, &authority.key, amount) {
        None => Err(ErrorCode::IncorrectProgramId),
        Some(instruction) => Ok(Invocation { instruction, signer_seeds }),
    }
}

/// Prepares the token burn that `params` describes: its instruction, and the
/// authority's seed list as the one signer when one is given.
pub fn burn_invocation(params: TokenBurnParams) -> (r: Result<Invocation, ErrorCode>)
    ensures
        match r {
            Ok(inv) => {
                &&& params.token_program.key@ == token_program_key()
                &&& token_call_shape(
                    inv.instruction,
                    BURN_TAG,
                    params.source.key,
                    params.mint.key,
                    params.authority.key,
                    params.amount,
                )
                &&& inv.signer_seeds@ == match params.authority_signer_seeds {
                    Some(seeds) => seq![seeds],
                    None => Seq::empty(),
                }
            },
            Err(e) => {
                &&& e == ErrorCode::IncorrectProgramId
                &&& params.token_program.key@ != token_program_key()
            },
        },
{
    let TokenBurnParams { mint, source, amount, authority, authority_signer_seeds, token_program } =
        params;
    let mut signer_seeds: Vec<Vec<Vec<u8>>> = Vec::new();
    if let Some(seeds) = authority_signer_seeds {
        signer_seeds.push(seeds);
    }
    match burn_instruction(&token_program.key, &source.key, &mint.key, &authority.key, amount) {
        None => Err(ErrorCode::IncorrectProgramId),
        Some(instruction) => Ok(Invocation { instruction, signer_seeds }),
    }
}

/// The result of a transfer given what the call returned: any failure, of
/// whatever cause, becomes `TokenTransferFailed`.
pub fn transfer_outcome(invoked: Result<(), u64>) -> (r: Result<(), ErrorCode>)
    ensures
        r == (if invoked is Ok { Ok(()) } else { Err(ErrorCode::TokenTransferFailed) }),
{
    match invoked {
        Ok(()) => Ok(()),
        Err(_) => Err(ErrorCode::TokenTransferFailed),
    }
}

/// The result of a burn given what the call returned: any failure, of
/// whatever cause, becomes `TokenBurnFailed`.
pub fn burn_outcome(invoked: Result<(), u64>) -> (r: Result<(), ErrorCode>)
    ensures
        r == (if invoked is Ok { Ok(()) } else { Err(ErrorCode::TokenBurnFailed) }),
{
    match invoked {
        Ok(()) => Ok(()),
        Err(_) => Err(ErrorCode::TokenBurnFailed),
    }
}

} // verus!
