use vstd::prelude::*;

use spl_token::solana_program::program_pack::Pack;
use spl_token::solana_program::pubkey::Pubkey as SolanaPubkey;

use crate::types::{Pubkey, TokenAccount};

verus! {

/// The address of the token program.
pub open spec fn token_program_key() -> Seq<u8> {
    seq![
        6u8, 221, 246, 225, 215, 101, 161, 147, 217, 203, 225, 70, 206, 235, 121, 172,
        28, 180, 133, 237, 95, 91, 55, 145, 58, 140, 245, 133, 126, 255, 0, 169,
    ]
}

/// Size in bytes of a token account.
pub const TOKEN_ACCOUNT_LEN: usize = 165;

/// The unsigned integer that bytes `s` hold, least significant first.
pub open spec fn le_value(s: Seq<u8>) -> int
    decreases s.len(),
{
    if s.len() == 0 {
        0
    } else {
        s[0] as int + 256 * le_value(s.drop_first())
    }
}

/// A four-byte option tag: none (0) or some (1), little endian.
pub open spec fn option_tag_ok(tag: Seq<u8>) -> bool {
    tag == seq![0u8, 0, 0, 0] || tag == seq![1u8, 0, 0, 0]
}

/// Whether `d` has the token account layout: 165 bytes, a known state byte,
/// and valid tags on the delegate, native and close-authority options.
pub open spec fn token_layout_ok(d: Seq<u8>) -> bool {
    &&& d.len() == 165
    &&& d[108] <= 2
    &&& option_tag_ok(d.subrange(72, 76))
    &&& option_tag_ok(d.subrange(109, 113))
    &&& option_tag_ok(d.subrange(129, 133))
}

/// Whether `rec` holds the mint, owner, amount and state stored in `d`.
pub open spec fn decodes_to(d: Seq<u8>, rec: TokenAccount) -> bool {
    &&& rec.mint@ == d.subrange(0, 32)
    &&& rec.owner@ == d.subrange(32, 64)
    &&& rec.amount as int == le_value(d.subrange(64, 72))
    &&& rec.state == d[108]
}

/// Whether the record stored in `d` is initialized.
pub open spec fn stored_initialized(d: Seq<u8>) -> bool {
    d[108] != 0
}

/// The associated token account address of a wallet and a mint.
pub uninterp spec fn associated_token_address_of(wallet: Seq<u8>, mint: Seq<u8>) -> Seq<u8>;

/// Relies on `spl_token::id()`: the token program's declared address.
#[verifier::external_body]
pub(crate) fn token_program_id() -> (r: Pubkey)
    ensures
        r@ == token_program_key(),
{
    spl_token::id().to_bytes()
}

/// Relies on `spl_token::state::Account::unpack_unchecked` (`Pack`): it
/// refuses any length but 165, an unknown state byte and a bad option tag,
/// and reads mint, owner, amount and state at fixed offsets.
#[verifier::external_body]
pub(crate) fn unpack_token_account(data: &Vec<u8>) -> (r: Option<TokenAccount>)
    ensures
        r.is_some() == token_layout_ok(data@),
        r matches Some(rec) ==> decodes_to(data@, rec),
{
    let a = spl_token::state::Account::unpack_unchecked(data).ok()?;
    Some(TokenAccount {
        mint: a.mint.to_bytes(),
        owner: a.owner.to_bytes(),
        amount: a.amount,
        state: a.state as u8,
    })
}

/// Relies on `spl_associated_token_account::get_associated_token_address`:
/// the program-derived address of (wallet, token program, mint), a function
/// of the two addresses alone.
#[verifier::external_body]
pub(crate) fn associated_token_address(wallet: &Pubkey, mint: &Pubkey) -> (r: Pubkey)
    ensures
        r@ == associated_token_address_of(wallet@, mint@),
{
    spl_associated_token_account::get_associated_token_address(
        &SolanaPubkey::new_from_array(*wallet),
        &SolanaPubkey::new_from_array(*mint),
    ).to_bytes()
}

} // verus!
