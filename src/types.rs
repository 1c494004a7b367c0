use vstd::prelude::*;

verus! {

/// A 32-byte account or program identity.
pub type Pubkey = [u8; 32];

/// The errors raised by the checks and the token calls.
#[derive(Clone, Copy, Debug, PartialEq, Eq, Structural)]
pub enum ErrorCode {
    /// A decoded record's initialized flag is not set.
    Uninitialized,
    /// An account's owner program is not the expected one.
    IncorrectOwner,
    /// Two identities that must be equal are not.
    PublicKeyMismatch,
    /// The caller is not the authority and the go-live date has not come.
    CandyMachineNotLive,
    /// The token program's `transfer` call failed.
    TokenTransferFailed,
    /// The token program's `burn` call failed.
    TokenBurnFailed,
    /// An account's bytes do not hold a record of the expected layout.
    InvalidAccountData,
    /// The program named as the token program is not the token program.
    IncorrectProgramId,
}

/// What the checks read of an account: its address, its owner program and
/// its stored bytes.
#[derive(Debug)]
pub struct AccountView {
    pub key: Pubkey,
    pub owner: Pubkey,
    pub data: Vec<u8>,
}

/// What the go-live check reads of the candy machine's record.
#[derive(Clone, Copy, Debug)]
pub struct CandyMachineView {
    /// The identity allowed to mint before the go-live date.
    pub authority: Pubkey,
    /// The time from which anyone may mint; with none, only the authority.
    pub go_live_date: Option<i64>,
}

/// A token account as the token program lays it out: the fields that the
/// checks and their callers read.
#[derive(Clone, Copy, Debug)]
pub struct TokenAccount {
    pub mint: Pubkey,
    pub owner: Pubkey,
    pub amount: u64,
    /// 0: uninitialized, 1: initialized, 2: frozen.
    pub state: u8,
}

impl TokenAccount {
    /// Whether the record was initialized (its state is not 0).
    pub fn is_initialized(&self) -> (r: bool)
        ensures
            r == (self.state != 0),
    {
        self.state != 0
    }
}

} // verus!
