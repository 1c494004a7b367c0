//! Guard checks and token-program call planning for a candy machine minting
//! program: account initialization, ownership, associated token account
//! derivation, go-live timing, and the shape of token `transfer` / `burn`
//! calls signed by a program-derived authority.
pub mod checks;
pub mod invoke;
pub mod lemmas;
pub mod token;
pub mod types;

pub use checks::{
    assert_initialized, assert_is_ata, assert_keys_equal, assert_owned_by, assert_valid_go_live,
    keys_match,
};
pub use invoke::{
    burn_invocation, burn_outcome, transfer_invocation, transfer_outcome, AccountMetaData,
    InstructionData, Invocation, TokenBurnParams, TokenTransferParams, BURN_TAG, TRANSFER_TAG,
};
pub use token::TOKEN_ACCOUNT_LEN;
pub use types::{AccountView, CandyMachineView, ErrorCode, Pubkey, TokenAccount};
pub use lemmas::{
    lemma_ata_first_failure, lemma_ata_repeatable, lemma_go_live_policy,
    lemma_initialized_repeatable,
};
