//! The records the bridge stores, the instructions' inputs, the events it
//! emits and its errors.

use vstd::prelude::*;

use crate::key::Pubkey;
use crate::table::Record;

verus! {

/// The bridge's singleton configuration.
#[derive(Clone, Copy, Debug, PartialEq, Eq)]
pub struct BridgeState {
    /// The principal allowed to register tokens and manage relayers.
    pub authority: Pubkey,
    /// How many relayers were ever added; the index of the next one.
    pub relayer_count: u32,
    pub bump: u8,
}

/// A token that the bridge accepts, keyed by `token_id`.
#[derive(Clone, Copy, Debug, PartialEq, Eq)]
pub struct TokenInfo {
    /// The token's mint on the transfer layer.
    pub mint: Pubkey,
    pub token_id: u64,
    /// Who registered the token.
    pub authority: Pubkey,
    pub is_active: bool,
}

/// A relayer, keyed by its own key `relayer`.
#[derive(Clone, Copy, Debug, PartialEq, Eq)]
pub struct RelayerInfo {
    pub relayer: Pubkey,
    /// Who added the relayer.
    pub authority: Pubkey,
    pub is_active: bool,
    /// The order in which relayers were added, from zero.
    pub index: u32,
}

/// Tokens locked under `deposit_id`, waiting for one withdrawal.
#[derive(Clone, Copy, Debug, PartialEq, Eq)]
pub struct DepositInfo {
    pub deposit_id: u64,
    pub token_id: u64,
    /// The mint copied from the token at deposit time.
    pub mint: Pubkey,
    pub amount: u64,
    pub depositor: Pubkey,
    pub claimed: bool,
    pub timestamp: i64,
}

impl Record for TokenInfo {
    type Key = u64;

    open spec fn key(&self) -> u64 {
        self.token_id
    }

    fn record_key(&self) -> (k: u64) {
        self.token_id
    }

    fn has_key(&self, k: &u64) -> (r: bool) {
        self.token_id == *k
    }
}

impl Record for RelayerInfo {
    type Key = Pubkey;

    open spec fn key(&self) -> Pubkey {
        self.relayer
    }

    fn record_key(&self) -> (k: Pubkey) {
        self.relayer
    }

    fn has_key(&self, k: &Pubkey) -> (r: bool) {
        self.relayer.same_as(k)
    }
}

impl Record for DepositInfo {
    type Key = u64;

    open spec fn key(&self) -> u64 {
        self.deposit_id
    }

    fn record_key(&self) -> (k: u64) {
        self.deposit_id
    }

    fn has_key(&self, k: &u64) -> (r: bool) {
        self.deposit_id == *k
    }
}

/// Emitted when tokens have been locked.
#[derive(Clone, Copy, Debug, PartialEq, Eq)]
pub struct DepositEvent {
    pub deposit_id: u64,
    pub token_id: u64,
    pub amount: u64,
    pub depositor: Pubkey,
    pub timestamp: i64,
}

/// Emitted to ask relayers to release a deposit.
#[derive(Clone, Copy, Debug, PartialEq, Eq)]
pub struct WithdrawalRequestEvent {
    pub deposit_id: u64,
    pub token_id: u64,
    pub amount: u64,
    pub recipient: Pubkey,
    pub requester: Pubkey,
    pub timestamp: i64,
}

/// Emitted when a deposit has been released.
#[derive(Clone, Copy, Debug, PartialEq, Eq)]
pub struct WithdrawalCompletedEvent {
    pub deposit_id: u64,
    pub token_id: u64,
    pub amount: u64,
    pub recipient: Pubkey,
    pub relayer: Pubkey,
    pub timestamp: i64,
}

#[derive(Clone, Copy, Debug, PartialEq, Eq)]
pub enum BridgeError {
    /// The caller is not the bridge's authority.
    UnauthorizedAccess,
    /// The token is not registered, or not active.
    TokenNotActive,
    /// The deposit does not exist, or was already released.
    AlreadyClaimed,
    /// The relayer is not registered, or was removed.
    RelayerNotActive,
    /// The bridge was already initialized.
    AlreadyInitialized,
    /// The bridge has not been initialized.
    NotInitialized,
    /// A token with this id is already registered.
    TokenAlreadyRegistered,
    /// This relayer was already added.
    RelayerAlreadyRegistered,
    /// No further relayer index is available.
    RelayerCountOverflow,
    /// A deposit with this id already exists.
    DepositAlreadyExists,
    /// A deposit must lock a positive amount.
    InvalidAmount,
    /// The token transfer did not go through.
    TransferFailed,
}

/// Inputs of `initialize`: the signer that becomes the authority.
#[derive(Clone, Copy, Debug, PartialEq, Eq)]
pub struct Initialize {
    pub authority: Pubkey,
}

/// Inputs of `register_token`: the signer and the token's mint.
#[derive(Clone, Copy, Debug, PartialEq, Eq)]
pub struct RegisterToken {
    pub authority: Pubkey,
    pub mint: Pubkey,
}

/// Inputs of `add_relayer`: the signer.
#[derive(Clone, Copy, Debug, PartialEq, Eq)]
pub struct AddRelayer {
    pub authority: Pubkey,
}

/// Inputs of `remove_relayer`: the signer and the relayer to deactivate.
#[derive(Clone, Copy, Debug, PartialEq, Eq)]
pub struct RemoveRelayer {
    pub authority: Pubkey,
    pub relayer: Pubkey,
}

/// Inputs of `deposit`: the depositor, the token and the current time.
#[derive(Clone, Copy, Debug, PartialEq, Eq)]
pub struct Deposit {
    pub user: Pubkey,
    pub token_id: u64,
    pub timestamp: i64,
}

/// Inputs of `request_withdrawal`: the requester and the current time.
#[derive(Clone, Copy, Debug, PartialEq, Eq)]
pub struct RequestWithdrawal {
    pub requester: Pubkey,
    pub timestamp: i64,
}

/// Inputs of `process_withdrawal`: the relayer and the current time.
#[derive(Clone, Copy, Debug, PartialEq, Eq)]
pub struct ProcessWithdrawal {
    pub relayer: Pubkey,
    pub timestamp: i64,
}

/// A token account: the bridge's custody account, or the one owned by a key.
#[derive(Clone, Copy, Debug, PartialEq, Eq)]
pub enum Custody {
    Bridge,
    Owner(Pubkey),
}

/// A token transfer that the bridge needs before it can commit.
#[derive(Clone, Copy, Debug, PartialEq, Eq)]
pub struct Transfer {
    pub from: Custody,
    pub to: Custody,
    pub mint: Pubkey,
    pub amount: u64,
}

} // verus!
