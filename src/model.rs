//! The bridge as a state machine over maps: each instruction is a spec
//! function from a state and its inputs to a result and the next state.

use vstd::prelude::*;

use crate::key::Pubkey;
use crate::state::{
    AddRelayer, BridgeError, BridgeState, Custody, Deposit, DepositEvent, DepositInfo, Initialize,
    ProcessWithdrawal, RegisterToken, RelayerInfo, RemoveRelayer, RequestWithdrawal, TokenInfo,
    Transfer, WithdrawalCompletedEvent, WithdrawalRequestEvent,
};

verus! {

/// What the bridge stores: the configuration, once initialized, and the
/// tokens, relayers and deposits by their keys.
pub struct BridgeView {
    pub state: Option<BridgeState>,
    pub tokens: Map<u64, TokenInfo>,
    pub relayers: Map<Pubkey, RelayerInfo>,
    pub deposits: Map<u64, DepositInfo>,
}

impl BridgeView {
    /// Every record is stored under its own key.
    pub open spec fn wf(self) -> bool {
        &&& forall|k: u64| #[trigger]
            self.tokens.contains_key(k) ==> self.tokens[k].token_id == k
        &&& forall|k: Pubkey| #[trigger]
            self.relayers.contains_key(k) ==> self.relayers[k].relayer == k
        &&& forall|k: u64| #[trigger]
            self.deposits.contains_key(k) ==> self.deposits[k].deposit_id == k
    }

    /// What every reachable state satisfies: records under their own keys,
    /// positive deposits, and relayer indices that are distinct and below
    /// the count of relayers ever added.
    pub open spec fn inv(self) -> bool {
        &&& self.wf()
        &&& forall|k: u64| #[trigger]
            self.deposits.contains_key(k) ==> self.deposits[k].amount > 0
        &&& forall|k: Pubkey| #[trigger]
            self.relayers.contains_key(k) ==> self.state is Some && self.relayers[k].index
                < self.state->0.relayer_count
        &&& forall|k1: Pubkey, k2: Pubkey|
            #[trigger] self.relayers.contains_key(k1) && #[trigger] self.relayers.contains_key(k2)
                && k1 != k2 ==> self.relayers[k1].index != self.relayers[k2].index
    }

    pub open spec fn with_state(self, s: BridgeState) -> BridgeView {
        BridgeView {
            state: Some(s),
            tokens: self.tokens,
            relayers: self.relayers,
            deposits: self.deposits,
        }
    }

    pub open spec fn with_token(self, t: TokenInfo) -> BridgeView {
        BridgeView {
            state: self.state,
            tokens: self.tokens.insert(t.token_id, t),
            relayers: self.relayers,
            deposits: self.deposits,
        }
    }

    pub open spec fn with_relayer(self, r: RelayerInfo) -> BridgeView {
        BridgeView {
            state: self.state,
            tokens: self.tokens,
            relayers: self.relayers.insert(r.relayer, r),
            deposits: self.deposits,
        }
    }

    pub open spec fn with_deposit(self, d: DepositInfo) -> BridgeView {
        BridgeView {
            state: self.state,
            tokens: self.tokens,
            relayers: self.relayers,
            deposits: self.deposits.insert(d.deposit_id, d),
        }
    }

    /// The caller is the authority of an initialized bridge.
    pub open spec fn admin_check(self, caller: Pubkey) -> Result<BridgeState, BridgeError> {
        match self.state {
            None => Err(BridgeError::NotInitialized),
            Some(s) => if s.authority == caller {
                Ok(s)
            } else {
                Err(BridgeError::UnauthorizedAccess)
            },
        }
    }

    pub open spec fn relayer_is_active(self, relayer: Pubkey) -> bool {
        self.relayers.contains_key(relayer) && self.relayers[relayer].is_active
    }

    pub open spec fn token_is_active(self, token_id: u64) -> bool {
        self.tokens.contains_key(token_id) && self.tokens[token_id].is_active
    }

    pub open spec fn deposit_is_open(self, deposit_id: u64) -> bool {
        self.deposits.contains_key(deposit_id) && !self.deposits[deposit_id].claimed
    }
}

/// Creates the configuration once, with no relayers.
pub open spec fn initialize_spec(v: BridgeView, ctx: Initialize, bump: u8) -> (
    Result<(), BridgeError>,
    BridgeView,
) {
    if v.state is Some {
        (Err(BridgeError::AlreadyInitialized), v)
    } else {
        (Ok(()), v.with_state(BridgeState { authority: ctx.authority, relayer_count: 0, bump }))
    }
}

/// The authority registers a new token id, active.
pub open spec fn register_token_spec(v: BridgeView, ctx: RegisterToken, token_id: u64) -> (
    Result<(), BridgeError>,
    BridgeView,
) {
    match v.admin_check(ctx.authority) {
        Err(e) => (Err(e), v),
        Ok(_) => if v.tokens.contains_key(token_id) {
            (Err(BridgeError::TokenAlreadyRegistered), v)
        } else {
            (
                Ok(()),
                v.with_token(
                    TokenInfo { mint: ctx.mint, token_id, authority: ctx.authority, is_active: true },
                ),
            )
        },
    }
}

/// The authority adds a new relayer, active, under the next index.
pub open spec fn add_relayer_spec(v: BridgeView, ctx: AddRelayer, relayer_address: Pubkey) -> (
    Result<(), BridgeError>,
    BridgeView,
) {
    match v.admin_check(ctx.authority) {
        Err(e) => (Err(e), v),
        Ok(s) => if v.relayers.contains_key(relayer_address) {
            (Err(BridgeError::RelayerAlreadyRegistered), v)
        } else if s.relayer_count == u32::MAX {
            (Err(BridgeError::RelayerCountOverflow), v)
        } else {
            (
                Ok(()),
                v.with_relayer(
                    RelayerInfo {
                        relayer: relayer_address,
                        authority: ctx.authority,
                        is_active: true,
                        index: s.relayer_count,
                    },
                ).with_state(
                    BridgeState {
                        authority: s.authority,
                        relayer_count: (s.relayer_count + 1) as u32,
                        bump: s.bump,
                    },
                ),
            )
        },
    }
}

/// The authority deactivates a registered relayer.
pub open spec fn remove_relayer_spec(v: BridgeView, ctx: RemoveRelayer) -> (
    Result<(), BridgeError>,
    BridgeView,
) {
    match v.admin_check(ctx.authority) {
        Err(e) => (Err(e), v),
        Ok(_) => if !v.relayers.contains_key(ctx.relayer) {
            (Err(BridgeError::RelayerNotActive), v)
        } else {
            let r = v.relayers[ctx.relayer];
            (
                Ok(()),
                v.with_relayer(
                    RelayerInfo {
                        relayer: r.relayer,
                        authority: r.authority,
                        is_active: false,
                        index: r.index,
                    },
                ),
            )
        },
    }
}

/// The checks of `deposit`, in order; on success, the token deposited.
pub open spec fn deposit_check_spec(v: BridgeView, ctx: Deposit, deposit_id: u64, amount: u64) -> Result<
    TokenInfo,
    BridgeError,
> {
    if !v.token_is_active(ctx.token_id) {
        Err(BridgeError::TokenNotActive)
    } else if v.deposits.contains_key(deposit_id) {
        Err(BridgeError::DepositAlreadyExists)
    } else if amount == 0 {
        Err(BridgeError::InvalidAmount)
    } else {
        Ok(v.tokens[ctx.token_id])
    }
}

/// The transfer that locks a deposit: from the depositor into custody.
pub open spec fn deposit_transfer_spec(
    v: BridgeView,
    ctx: Deposit,
    deposit_id: u64,
    amount: u64,
) -> Result<Transfer, BridgeError> {
    match deposit_check_spec(v, ctx, deposit_id, amount) {
        Err(e) => Err(e),
        Ok(t) => Ok(
            Transfer { from: Custody::Owner(ctx.user), to: Custody::Bridge, mint: t.mint, amount },
        ),
    }
}

/// Records an unclaimed deposit, only once its transfer went through.
pub open spec fn deposit_spec(
    v: BridgeView,
    ctx: Deposit,
    deposit_id: u64,
    amount: u64,
    transferred: bool,
) -> (Result<DepositEvent, BridgeError>, BridgeView) {
    match deposit_check_spec(v, ctx, deposit_id, amount) {
        Err(e) => (Err(e), v),
        Ok(t) => if !transferred {
            (Err(BridgeError::TransferFailed), v)
        } else {
            (
                Ok(
                    DepositEvent {
                        deposit_id,
                        token_id: t.token_id,
                        amount,
                        depositor: ctx.user,
                        timestamp: ctx.timestamp,
                    },
                ),
                v.with_deposit(
                    DepositInfo {
                        deposit_id,
                        token_id: t.token_id,
                        mint: t.mint,
                        amount,
                        depositor: ctx.user,
                        claimed: false,
                        timestamp: ctx.timestamp,
                    },
                ),
            )
        },
    }
}

/// Reports an open deposit to relayers; it changes no state.
pub open spec fn request_withdrawal_spec(
    v: BridgeView,
    ctx: RequestWithdrawal,
    deposit_id: u64,
    recipient: Pubkey,
) -> Result<WithdrawalRequestEvent, BridgeError> {
    if !v.deposit_is_open(deposit_id) {
        Err(BridgeError::AlreadyClaimed)
    } else {
        let d = v.deposits[deposit_id];
        Ok(
            WithdrawalRequestEvent {
                deposit_id,
                token_id: d.token_id,
                amount: d.amount,
                recipient,
                requester: ctx.requester,
                timestamp: ctx.timestamp,
            },
        )
    }
}

/// The checks of `process_withdrawal`, in order; on success, the deposit.
pub open spec fn withdrawal_check_spec(v: BridgeView, ctx: ProcessWithdrawal, deposit_id: u64) -> Result<
    DepositInfo,
    BridgeError,
> {
    if !v.relayer_is_active(ctx.relayer) {
        Err(BridgeError::RelayerNotActive)
    } else if !v.deposit_is_open(deposit_id) {
        Err(BridgeError::AlreadyClaimed)
    } else {
        Ok(v.deposits[deposit_id])
    }
}

/// The transfer that releases a deposit: out of custody to the recipient.
pub open spec fn withdrawal_transfer_spec(
    v: BridgeView,
    ctx: ProcessWithdrawal,
    deposit_id: u64,
    recipient: Pubkey,
) -> Result<Transfer, BridgeError> {
    match withdrawal_check_spec(v, ctx, deposit_id) {
        Err(e) => Err(e),
        Ok(d) => Ok(
            Transfer {
                from: Custody::Bridge,
                to: Custody::Owner(recipient),
                mint: d.mint,
                amount: d.amount,
            },
        ),
    }
}

/// Marks a deposit claimed, only once its transfer went through.
pub open spec fn process_withdrawal_spec(
    v: BridgeView,
    ctx: ProcessWithdrawal,
    deposit_id: u64,
    recipient: Pubkey,
    transferred: bool,
) -> (Result<WithdrawalCompletedEvent, BridgeError>, BridgeView) {
    match withdrawal_check_spec(v, ctx, deposit_id) {
        Err(e) => (Err(e), v),
        Ok(d) => if !transferred {
            (Err(BridgeError::TransferFailed), v)
        } else {
            (
                Ok(
                    WithdrawalCompletedEvent {
                        deposit_id,
                        token_id: d.token_id,
                        amount: d.amount,
                        recipient,
                        relayer: ctx.relayer,
                        timestamp: ctx.timestamp,
                    },
                ),
                v.with_deposit(
                    DepositInfo {
                        deposit_id: d.deposit_id,
                        token_id: d.token_id,
                        mint: d.mint,
                        amount: d.amount,
                        depositor: d.depositor,
                        claimed: true,
                        timestamp: d.timestamp,
                    },
                ),
            )
        },
    }
}

} // verus!
