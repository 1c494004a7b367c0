use vstd::prelude::*;

use crate::checks::{ata_error, go_live_allowed, is_ata_result, is_initialized_result};
use crate::token::{associated_token_address_of, stored_initialized, token_layout_ok, token_program_key};
use crate::types::{AccountView, CandyMachineView, ErrorCode, Pubkey, TokenAccount};

verus! {

broadcast use vstd::array::group_array_axioms;

/// The associated-account check succeeds exactly when its four steps pass,
/// and a failure is reported by the first step that fails, whatever the
/// later steps would have said.
pub proof fn lemma_ata_first_failure(
    ata: AccountView,
    wallet: Pubkey,
    mint: Pubkey,
    r: Result<TokenAccount, ErrorCode>,
)
    requires
        is_ata_result(ata, wallet@, mint@, r),
    ensures
        r is Ok <==> {
            &&& ata.owner@ == token_program_key()
            &&& token_layout_ok(ata.data@)
            &&& stored_initialized(ata.data@)
            &&& ata.data@.subrange(32, 64) == wallet@
            &&& associated_token_address_of(wallet@, mint@) == ata.key@
        },
        ata.owner@ != token_program_key() ==> r == Err::<TokenAccount, ErrorCode>(
            ErrorCode::IncorrectOwner,
        ),
        ata.owner@ == token_program_key() && !token_layout_ok(ata.data@) ==> r == Err::<
            TokenAccount,
            ErrorCode,
        >(ErrorCode::InvalidAccountData),
        ata.owner@ == token_program_key() && token_layout_ok(ata.data@) && !stored_initialized(
            ata.data@,
        ) ==> r == Err::<TokenAccount, ErrorCode>(ErrorCode::Uninitialized),
        ata.owner@ == token_program_key() && token_layout_ok(ata.data@) && stored_initialized(
            ata.data@,
        ) && ata.data@.subrange(32, 64) != wallet@ ==> r == Err::<TokenAccount, ErrorCode>(
            ErrorCode::PublicKeyMismatch,
        ),
        ata.owner@ == token_program_key() && token_layout_ok(ata.data@) && stored_initialized(
            ata.data@,
        ) && ata.data@.subrange(32, 64) == wallet@ && associated_token_address_of(wallet@, mint@)
            != ata.key@ ==> r == Err::<TokenAccount, ErrorCode>(ErrorCode::PublicKeyMismatch),
{
}

/// The go-live policy for an authority `authority`, another caller `caller`,
/// a go-live date `date` and a time `now`: with no date only the authority
/// may mint; before the date only the authority may; from the date anyone may.
pub proof fn lemma_go_live_policy(authority: Pubkey, caller: Pubkey, date: i64, now: i64)
    requires
        caller@ != authority@,
    ensures
        go_live_allowed(authority@, now, (CandyMachineView { authority, go_live_date: None })),
        !go_live_allowed(caller@, now, (CandyMachineView { authority, go_live_date: None })),
        now < date ==> go_live_allowed(
            authority@,
            now,
            (CandyMachineView { authority, go_live_date: Some(date) }),
        ),
        now < date ==> !go_live_allowed(
            caller@,
            now,
            (CandyMachineView { authority, go_live_date: Some(date) }),
        ),
        now >= date ==> go_live_allowed(
            caller@,
            now,
            (CandyMachineView { authority, go_live_date: Some(date) }),
        ),
{
}

/// The initialization check has one outcome for given bytes: two runs on
/// unchanged bytes give the same result.
pub proof fn lemma_initialized_repeatable(
    account: AccountView,
    r1: Result<TokenAccount, ErrorCode>,
    r2: Result<TokenAccount, ErrorCode>,
)
    requires
        is_initialized_result(account.data@, r1),
        is_initialized_result(account.data@, r2),
    ensures
        r1 == r2,
{
    if let (Ok(a), Ok(b)) = (r1, r2) {
        assert(a.mint =~= b.mint);
        assert(a.owner =~= b.owner);
    }
}

/// The associated-account check has one outcome for given inputs: two runs
/// on unchanged inputs give the same result.
pub proof fn lemma_ata_repeatable(
    ata: AccountView,
    wallet: Pubkey,
    mint: Pubkey,
    r1: Result<TokenAccount, ErrorCode>,
    r2: Result<TokenAccount, ErrorCode>,
)
    requires
        is_ata_result(ata, wallet@, mint@, r1),
        is_ata_result(ata, wallet@, mint@, r2),
    ensures
        r1 == r2,
{
    if let (Ok(a), Ok(b)) = (r1, r2) {
        assert(a.mint =~= b.mint);
        assert(a.owner =~= b.owner);
    }
}

} // verus!
