use vstd::prelude::*;

use crate::token::{
    associated_token_address, associated_token_address_of, decodes_to, stored_initialized,
    token_layout_ok, token_program_id, token_program_key, unpack_token_account,
};
use crate::types::{AccountView, CandyMachineView, ErrorCode, Pubkey, TokenAccount};

verus! {

/// Whether two identities hold the same bytes.
pub fn keys_match(a: &Pubkey, b: &Pubkey) -> (r: bool)
    ensures
        r == (a@ == b@),
{
    let mut i: usize = 0;
    while i < 32
        invariant
            i <= 32,
            a@.len() == 32,
            b@.len() == 32,
            forall|j: int| 0 <= j < i ==> a@[j] == b@[j],
        decreases 32 - i,
    {
        if a[i] != b[i] {
            return false;
        }
        i += 1;
    }
    proof {
        assert(a@ =~= b@);
    }
    true
}

/// Succeeds when the two identities are equal, else `PublicKeyMismatch`.
pub fn assert_keys_equal(key1: Pubkey, key2: Pubkey) -> (r: Result<(), ErrorCode>)
    ensures
        r == (if key1@ == key2@ { Ok(()) } else { Err(ErrorCode::PublicKeyMismatch) }),
{
    if !keys_match(&key1, &key2) {
        Err(ErrorCode::PublicKeyMismatch)
    } else {
        Ok(())
    }
}

/// The error that the initialization check raises on bytes `d`, if any.
pub open spec fn initialized_error(d: Seq<u8>) -> Option<ErrorCode> {
    if !token_layout_ok(d) {
        Some(ErrorCode::InvalidAccountData)
    } else if !stored_initialized(d) {
        Some(ErrorCode::Uninitialized)
    } else {
        None
    }
}

/// The outcome of the initialization check on bytes `d`: the record stored
/// there when it is laid out and initialized, else the first error.
pub open spec fn is_initialized_result(d: Seq<u8>, r: Result<TokenAccount, ErrorCode>) -> bool {
    match r {
        Ok(rec) => initialized_error(d).is_none() && decodes_to(d, rec),
        Err(e) => initialized_error(d) == Some(e),
    }
}

/// Decodes `account`'s bytes as a token account; fails with `Uninitialized`
/// when the record's initialized flag is not set, and with
/// `InvalidAccountData` when the bytes do not have the layout.
pub fn assert_initialized(account: &AccountView) -> (r: Result<TokenAccount, ErrorCode>)
    ensures
        is_initialized_result(account.data@, r),
{
    match unpack_token_account(&account.data) {
        None => Err(ErrorCode::InvalidAccountData),
        Some(rec) => {
            if !rec.is_initialized() {
                Err(ErrorCode::Uninitialized)
            } else {
                Ok(rec)
            }
        },
    }
}

/// Succeeds when `account` is owned by program `owner`, else `IncorrectOwner`.
pub fn assert_owned_by(account: &AccountView, owner: &Pubkey) -> (r: Result<(), ErrorCode>)
    ensures
        r == (if account.owner@ == owner@ { Ok(()) } else { Err(ErrorCode::IncorrectOwner) }),
{
    if !keys_match(&account.owner, owner) {
        Err(ErrorCode::IncorrectOwner)
    } else {
        Ok(())
    }
}

/// The first of the associated-account steps that fails, if any: owner
/// program, record layout and initialization, record owner, address.
pub open spec fn ata_error(ata: AccountView, wallet: Seq<u8>, mint: Seq<u8>) -> Option<ErrorCode> {
    if ata.owner@ != token_program_key() {
        Some(ErrorCode::IncorrectOwner)
    } else if initialized_error(ata.data@).is_some() {
        initialized_error(ata.data@)
    } else if ata.data@.subrange(32, 64) != wallet {
        Some(ErrorCode::PublicKeyMismatch)
    } else if associated_token_address_of(wallet, mint) != ata.key@ {
        Some(ErrorCode::PublicKeyMismatch)
    } else {
        None
    }
}

/// The outcome of the associated-account check.
pub open spec fn is_ata_result(
    ata: AccountView,
    wallet: Seq<u8>,
    mint: Seq<u8>,
    r: Result<TokenAccount, ErrorCode>,
) -> bool {
    match r {
        Ok(rec) => ata_error(ata, wallet, mint).is_none() && decodes_to(ata.data@, rec),
        Err(e) => ata_error(ata, wallet, mint) == Some(e),
    }
}

/// Checks that `ata` is the canonical associated token account of `wallet`
/// for `mint`, and returns its record. The steps run in order and stop at
/// the first failure: owned by the token program, decoded and initialized,
/// recorded owner equal to `wallet`, address equal to the derived one.
pub fn assert_is_ata(ata: &AccountView, wallet: &Pubkey, mint: &Pubkey) -> (r: Result<
    TokenAccount,
    ErrorCode,
>)
    ensures
        is_ata_result(*ata, wallet@, mint@, r),
{
    let program = token_program_id();
    assert_owned_by(ata, &program)?;
    let ata_account = assert_initialized(ata)?;
    assert_keys_equal(ata_account.owner, *wallet)?;
    assert_keys_equal(associated_token_address(wallet, mint), ata.key)?;
    Ok(ata_account)
}

/// Whether `payer` may mint at time `now`: the authority always may, anyone
/// else once a go-live date is set and has come.
pub open spec fn go_live_allowed(payer: Seq<u8>, now: i64, candy_machine: CandyMachineView) -> bool {
    payer == candy_machine.authority@ || match candy_machine.go_live_date {
        None => false,
        Some(date) => now >= date,
    }
}

/// Succeeds when `payer` may mint at `unix_timestamp`, else
/// `CandyMachineNotLive`.
pub fn assert_valid_go_live(
    payer: &Pubkey,
    unix_timestamp: i64,
    candy_machine: &CandyMachineView,
) -> (r: Result<(), ErrorCode>)
    ensures
        r == (if go_live_allowed(payer@, unix_timestamp, *candy_machine) {
            Ok(())
        } else {
            Err(ErrorCode::CandyMachineNotLive)
        }),
{
    match candy_machine.go_live_date {
        None => {
            if !keys_match(payer, &candy_machine.authority) {
                return Err(ErrorCode::CandyMachineNotLive);
            }
        },
        Some(val) => {
            if unix_timestamp < val && !keys_match(payer, &candy_machine.authority) {
                return Err(ErrorCode::CandyMachineNotLive);
            }
        },
    }
    Ok(())
}

} // verus!
