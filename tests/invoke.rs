use candy_machine_utils::{
    burn_invocation, burn_outcome, transfer_invocation, transfer_outcome, AccountMetaData,
    AccountView, ErrorCode, Pubkey, TokenBurnParams, TokenTransferParams, BURN_TAG,
    TRANSFER_TAG,
};

fn key(b: u8) -> Pubkey {
    [b; 32]
}

fn account(k: Pubkey) -> AccountView {
    AccountView { key: k, owner: key(0), data: vec![] }
}

fn token_program() -> AccountView {
    account(spl_token::id().to_bytes())
}

fn transfer_params(seeds: Vec<Vec<u8>>, program: AccountView) -> TokenTransferParams {
    TokenTransferParams {
        source: account(key(1)),
        destination: account(key(2)),
        amount: 1_000_000,
        authority: account(key(3)),
        authority_signer_seeds: seeds,
        token_program: program,
    }
}

fn burn_params(seeds: Option<Vec<Vec<u8>>>, program: AccountView) -> TokenBurnParams {
    TokenBurnParams {
        mint: account(key(4)),
        source: account(key(1)),
        amount: 258,
        authority: account(key(3)),
        authority_signer_seeds: seeds,
        token_program: program,
    }
}

fn meta(k: Pubkey, is_signer: bool, is_writable: bool) -> AccountMetaData {
    AccountMetaData { pubkey: k, is_signer, is_writable }
}

#[test]
fn transfer_instruction_has_token_shape() {
    let inv = transfer_invocation(transfer_params(vec![], token_program())).unwrap();
    assert_eq!(inv.instruction.program_id, spl_token::id().to_bytes());
    assert_eq!(inv.instruction.data, vec![TRANSFER_TAG, 0x40, 0x42, 0x0f, 0, 0, 0, 0, 0]);
    assert_eq!(
        inv.instruction.accounts,
        vec![meta(key(1), false, true), meta(key(2), false, true), meta(key(3), true, false)]
    );
    assert!(inv.signer_seeds.is_empty());
}

#[test]
fn transfer_signs_with_one_seed_list() {
    let seeds = vec![b"candy_machine".to_vec(), vec![254u8]];
    let inv = transfer_invocation(transfer_params(seeds.clone(), token_program())).unwrap();
    assert_eq!(inv.signer_seeds, vec![seeds]);
}

#[test]
fn transfer_refuses_other_program() {
    let err = transfer_invocation(transfer_params(vec![], account(key(9)))).unwrap_err();
    assert_eq!(err, ErrorCode::IncorrectProgramId);
}

#[test]
fn burn_instruction_has_token_shape() {
    let inv = burn_invocation(burn_params(None, token_program())).unwrap();
    assert_eq!(inv.instruction.program_id, spl_token::id().to_bytes());
    assert_eq!(inv.instruction.data, vec![BURN_TAG, 2, 1, 0, 0, 0, 0, 0, 0]);
    assert_eq!(
        inv.instruction.accounts,
        vec![meta(key(1), false, true), meta(key(4), false, true), meta(key(3), true, false)]
    );
    assert!(inv.signer_seeds.is_empty());
}

#[test]
fn burn_signs_with_given_seed_list() {
    let seeds = vec![b"candy_machine".to_vec()];
    let inv = burn_invocation(burn_params(Some(seeds.clone()), token_program())).unwrap();
    assert_eq!(inv.signer_seeds, vec![seeds]);
    let inv = burn_invocation(burn_params(Some(vec![]), token_program())).unwrap();
    assert_eq!(inv.signer_seeds, vec![Vec::<Vec<u8>>::new()]);
}

#[test]
fn burn_refuses_other_program() {
    let err = burn_invocation(burn_params(None, account(key(9)))).unwrap_err();
    assert_eq!(err, ErrorCode::IncorrectProgramId);
}

#[test]
fn failed_transfer_becomes_transfer_failed() {
    assert_eq!(transfer_outcome(Ok(())), Ok(()));
    assert_eq!(transfer_outcome(Err(1)), Err(ErrorCode::TokenTransferFailed));
    assert_eq!(transfer_outcome(Err(u64::MAX)), Err(ErrorCode::TokenTransferFailed));
}

#[test]
fn failed_burn_becomes_burn_failed() {
    assert_eq!(burn_outcome(Ok(())), Ok(()));
    assert_eq!(burn_outcome(Err(0)), Err(ErrorCode::TokenBurnFailed));
    assert_eq!(burn_outcome(Err(42)), Err(ErrorCode::TokenBurnFailed));
}
