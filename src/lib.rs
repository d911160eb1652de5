//! A custodial token-bridge ledger: an authority registers tokens and
//! relayers, users lock tokens under a deposit id, and an active relayer
//! releases each deposit to a recipient exactly once.
//!
//! Instructions that move tokens come in two steps. `deposit_transfer` and
//! `withdrawal_transfer` check the instruction and name the transfer it needs;
//! the caller performs it and hands its outcome to `deposit` or
//! `process_withdrawal`, which commit only when the transfer went through.

pub mod bridge;
pub mod key;
pub mod laws;
pub mod model;
pub mod state;
pub mod table;

pub use bridge::{
    add_relayer, deposit, deposit_transfer, initialize, process_withdrawal, register_token,
    remove_relayer, request_withdrawal, withdrawal_transfer, Bridge,
};
pub use key::Pubkey;
pub use model::BridgeView;
pub use state::{
    AddRelayer, BridgeError, BridgeState, Custody, Deposit, DepositEvent, DepositInfo, Initialize,
    ProcessWithdrawal, RegisterToken, RelayerInfo, RemoveRelayer, RequestWithdrawal, TokenInfo,
    Transfer, WithdrawalCompletedEvent, WithdrawalRequestEvent,
};
