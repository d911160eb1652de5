//! The bridge's storage and its instructions.

use vstd::prelude::*;

use crate::key::Pubkey;
use crate::model::{
    add_relayer_spec, deposit_check_spec, deposit_spec, deposit_transfer_spec, initialize_spec,
    process_withdrawal_spec, register_token_spec, remove_relayer_spec, request_withdrawal_spec,
    withdrawal_check_spec, withdrawal_transfer_spec, BridgeView,
};
use crate::state::{
    AddRelayer, BridgeError, BridgeState, Custody, Deposit, DepositEvent, DepositInfo, Initialize,
    ProcessWithdrawal, RegisterToken, RelayerInfo, RemoveRelayer, RequestWithdrawal, TokenInfo,
    Transfer, WithdrawalCompletedEvent, WithdrawalRequestEvent,
};
use crate::table::Table;

verus! {

/// Everything the bridge stores.
pub struct Bridge {
    state: Option<BridgeState>,
    tokens: Table<TokenInfo>,
    relayers: Table<RelayerInfo>,
    deposits: Table<DepositInfo>,
}

impl View for Bridge {
    type V = BridgeView;

    closed spec fn view(&self) -> BridgeView {
        BridgeView {
            state: self.state,
            tokens: self.tokens@,
            relayers: self.relayers@,
            deposits: self.deposits@,
        }
    }
}

impl Bridge {
    pub closed spec fn wf(&self) -> bool {
        self.tokens.wf() && self.relayers.wf() && self.deposits.wf()
    }

    /// A well-formed bridge stores each record under its own key.
    pub proof fn lemma_view_wf(&self)
        requires
            self.wf(),
        ensures
            self@.wf(),
    {
        self.tokens.lemma_keys();
        self.relayers.lemma_keys();
        self.deposits.lemma_keys();
    }

    /// A bridge that stores nothing and is not initialized.
    pub fn new() -> (b: Bridge)
        ensures
            b.wf(),
            b@.state is None,
            b@.tokens == Map::<u64, TokenInfo>::empty(),
            b@.relayers == Map::<Pubkey, RelayerInfo>::empty(),
            b@.deposits == Map::<u64, DepositInfo>::empty(),
    {
        Bridge { state: None, tokens: Table::new(), relayers: Table::new(), deposits: Table::new() }
    }

    pub fn bridge_state(&self) -> (r: Option<BridgeState>)
        ensures
            r == self@.state,
    {
        self.state
    }

    pub fn token_info(&self, token_id: u64) -> (r: Option<TokenInfo>)
        requires
            self.wf(),
        ensures
            r == (if self@.tokens.contains_key(token_id) {
                Some(self@.tokens[token_id])
            } else {
                None
            }),
    {
        self.tokens.get(&token_id)
    }

    pub fn relayer_info(&self, relayer: &Pubkey) -> (r: Option<RelayerInfo>)
        requires
            self.wf(),
        ensures
            r == (if self@.relayers.contains_key(*relayer) {
                Some(self@.relayers[*relayer])
            } else {
                None
            }),
    {
        self.relayers.get(relayer)
    }

    pub fn deposit_info(&self, deposit_id: u64) -> (r: Option<DepositInfo>)
        requires
            self.wf(),
        ensures
            r == (if self@.deposits.contains_key(deposit_id) {
                Some(self@.deposits[deposit_id])
            } else {
                None
            }),
    {
        self.deposits.get(&deposit_id)
    }

    /// Puts back the stored configuration.
    pub fn restore_state(&mut self, s: BridgeState)
        requires
            old(self).wf(),
        ensures
            final(self).wf(),
            final(self)@ == old(self)@.with_state(s),
    {
        self.state = Some(s);
    }

    /// Puts back a stored token; refused (`false`, nothing changed) when its
    /// id is taken.
    pub fn restore_token(&mut self, t: TokenInfo) -> (r: bool)
        requires
            old(self).wf(),
        ensures
            final(self).wf(),
            r == !old(self)@.tokens.contains_key(t.token_id),
            final(self)@ == (if r {
                old(self)@.with_token(t)
            } else {
                old(self)@
            }),
    {
        if self.tokens.get(&t.token_id).is_some() {
            return false;
        }
        self.tokens.insert_new(t);
        true
    }

    /// Puts back a stored relayer; refused (`false`, nothing changed) when its
    /// key is taken.
    pub fn restore_relayer(&mut self, info: RelayerInfo) -> (r: bool)
        requires
            old(self).wf(),
        ensures
            final(self).wf(),
            r == !old(self)@.relayers.contains_key(info.relayer),
            final(self)@ == (if r {
                old(self)@.with_relayer(info)
            } else {
                old(self)@
            }),
    {
        if self.relayers.get(&info.relayer).is_some() {
            return false;
        }
        self.relayers.insert_new(info);
        true
    }

    /// Puts back a stored deposit; refused (`false`, nothing changed) when its
    /// id is taken.
    pub fn restore_deposit(&mut self, d: DepositInfo) -> (r: bool)
        requires
            old(self).wf(),
        ensures
            final(self).wf(),
            r == !old(self)@.deposits.contains_key(d.deposit_id),
            final(self)@ == (if r {
                old(self)@.with_deposit(d)
            } else {
                old(self)@
            }),
    {
        if self.deposits.get(&d.deposit_id).is_some() {
            return false;
        }
        self.deposits.insert_new(d);
        true
    }

    fn admin_check(&self, caller: &Pubkey) -> (r: Result<BridgeState, BridgeError>)
        ensures
            r == self@.admin_check(*caller),
    {
        match self.state {
            None => Err(BridgeError::NotInitialized),
            Some(s) => if s.authority.same_as(caller) {
                Ok(s)
            } else {
                Err(BridgeError::UnauthorizedAccess)
            },
        }
    }
}

/// Creates the configuration, with the signer as authority and no relayers.
pub fn initialize(bridge: &mut Bridge, ctx: &Initialize, bump: u8) -> (r: Result<(), BridgeError>)
    requires
        old(bridge).wf(),
    ensures
        final(bridge).wf(),
        (r, final(bridge)@) == initialize_spec(old(bridge)@, *ctx, bump),
{
    if bridge.state.is_some() {
        return Err(BridgeError::AlreadyInitialized);
    }
    bridge.state = Some(BridgeState { authority: ctx.authority, relayer_count: 0, bump });
    Ok(())
}

/// Registers the token `token_id` with the given mint, active.
pub fn register_token(bridge: &mut Bridge, ctx: &RegisterToken, token_id: u64) -> (r: Result<
    (),
    BridgeError,
>)
    requires
        old(bridge).wf(),
    ensures
        final(bridge).wf(),
        (r, final(bridge)@) == register_token_spec(old(bridge)@, *ctx, token_id),
{
    bridge.admin_check(&ctx.authority)?;
    if bridge.tokens.get(&token_id).is_some() {
        return Err(BridgeError::TokenAlreadyRegistered);
    }
    bridge.tokens.insert_new(
        TokenInfo { mint: ctx.mint, token_id, authority: ctx.authority, is_active: true },
    );
    Ok(())
}

/// Adds an active relayer, with the next index.
pub fn add_relayer(bridge: &mut Bridge, ctx: &AddRelayer, relayer_address: Pubkey) -> (r: Result<
    (),
    BridgeError,
>)
    requires
        old(bridge).wf(),
    ensures
        final(bridge).wf(),
        (r, final(bridge)@) == add_relayer_spec(old(bridge)@, *ctx, relayer_address),
{
    let s = bridge.admin_check(&ctx.authority)?;
    if bridge.relayers.get(&relayer_address).is_some() {
        return Err(BridgeError::RelayerAlreadyRegistered);
    }
    if s.relayer_count == u32::MAX {
        return Err(BridgeError::RelayerCountOverflow);
    }
    bridge.relayers.insert_new(
        RelayerInfo {
            relayer: relayer_address,
            authority: ctx.authority,
            is_active: true,
            index: s.relayer_count,
        },
    );
    bridge.state = Some(
        BridgeState {
            authority: s.authority,
            relayer_count: s.relayer_count + 1,
            bump: s.bump,
        },
    );
    Ok(())
}

/// Deactivates a relayer; one already inactive stays so.
pub fn remove_relayer(bridge: &mut Bridge, ctx: &RemoveRelayer) -> (r: Result<(), BridgeError>)
    requires
        old(bridge).wf(),
    ensures
        final(bridge).wf(),
        (r, final(bridge)@) == remove_relayer_spec(old(bridge)@, *ctx),
{
    bridge.admin_check(&ctx.authority)?;
    match bridge.relayers.get(&ctx.relayer) {
        None => Err(BridgeError::RelayerNotActive),
        Some(info) => {
            proof {
                bridge.relayers.lemma_keys();
            }
            bridge.relayers.replace(
                RelayerInfo {
                    relayer: info.relayer,
                    authority: info.authority,
                    is_active: false,
                    index: info.index,
                },
            );
            Ok(())
        },
    }
}

fn deposit_check(bridge: &Bridge, ctx: &Deposit, deposit_id: u64, amount: u64) -> (r: Result<
    TokenInfo,
    BridgeError,
>)
    requires
        bridge.wf(),
    ensures
        r == deposit_check_spec(bridge@, *ctx, deposit_id, amount),
{
    let token = match bridge.tokens.get(&ctx.token_id) {
        Some(t) if t.is_active => t,
        _ => {
            return Err(BridgeError::TokenNotActive);
        },
    };
    if bridge.deposits.get(&deposit_id).is_some() {
        return Err(BridgeError::DepositAlreadyExists);
    }
    if amount == 0 {
        return Err(BridgeError::InvalidAmount);
    }
    Ok(token)
}

/// The transfer that a deposit needs, or the check that refuses it.
pub fn deposit_transfer(bridge: &Bridge, ctx: &Deposit, deposit_id: u64, amount: u64) -> (r: Result<
    Transfer,
    BridgeError,
>)
    requires
        bridge.wf(),
    ensures
        r == deposit_transfer_spec(bridge@, *ctx, deposit_id, amount),
{
    let token = deposit_check(bridge, ctx, deposit_id, amount)?;
    Ok(Transfer { from: Custody::Owner(ctx.user), to: Custody::Bridge, mint: token.mint, amount })
}

/// Records a deposit once its transfer into custody went through
/// (`transferred`); a refused check or a failed transfer changes nothing.
pub fn deposit(
    bridge: &mut Bridge,
    ctx: &Deposit,
    deposit_id: u64,
    amount: u64,
    transferred: bool,
) -> (r: Result<DepositEvent, BridgeError>)
    requires
        old(bridge).wf(),
    ensures
        final(bridge).wf(),
        (r, final(bridge)@) == deposit_spec(old(bridge)@, *ctx, deposit_id, amount, transferred),
{
    let token = deposit_check(bridge, ctx, deposit_id, amount)?;
    if !transferred {
        return Err(BridgeError::TransferFailed);
    }
    bridge.deposits.insert_new(
        DepositInfo {
            deposit_id,
            token_id: token.token_id,
            mint: token.mint,
            amount,
            depositor: ctx.user,
            claimed: false,
            timestamp: ctx.timestamp,
        },
    );
    Ok(
        DepositEvent {
            deposit_id,
            token_id: token.token_id,
            amount,
            depositor: ctx.user,
            timestamp: ctx.timestamp,
        },
    )
}

/// Asks relayers to release an open deposit; stores nothing.
pub fn request_withdrawal(
    bridge: &Bridge,
    ctx: &RequestWithdrawal,
    deposit_id: u64,
    recipient: Pubkey,
) -> (r: Result<WithdrawalRequestEvent, BridgeError>)
    requires
        bridge.wf(),
    ensures
        r == request_withdrawal_spec(bridge@, *ctx, deposit_id, recipient),
{
    match bridge.deposits.get(&deposit_id) {
        Some(d) if !d.claimed => Ok(
            WithdrawalRequestEvent {
                deposit_id,
                token_id: d.token_id,
                amount: d.amount,
                recipient,
                requester: ctx.requester,
                timestamp: ctx.timestamp,
            },
        ),
        _ => Err(BridgeError::AlreadyClaimed),
    }
}

fn withdrawal_check(bridge: &Bridge, ctx: &ProcessWithdrawal, deposit_id: u64) -> (r: Result<
    DepositInfo,
    BridgeError,
>)
    requires
        bridge.wf(),
    ensures
        r == withdrawal_check_spec(bridge@, *ctx, deposit_id),
{
    match bridge.relayers.get(&ctx.relayer) {
        Some(info) if info.is_active => {},
        _ => {
            return Err(BridgeError::RelayerNotActive);
        },
    }
    match bridge.deposits.get(&deposit_id) {
        Some(d) if !d.claimed => Ok(d),
        _ => Err(BridgeError::AlreadyClaimed),
    }
}

/// The transfer that a withdrawal needs, or the check that refuses it.
pub fn withdrawal_transfer(
    bridge: &Bridge,
    ctx: &ProcessWithdrawal,
    deposit_id: u64,
    recipient: Pubkey,
) -> (r: Result<Transfer, BridgeError>)
    requires
        bridge.wf(),
    ensures
        r == withdrawal_transfer_spec(bridge@, *ctx, deposit_id, recipient),
{
    let d = withdrawal_check(bridge, ctx, deposit_id)?;
    Ok(
        Transfer {
            from: Custody::Bridge,
            to: Custody::Owner(recipient),
            mint: d.mint,
            amount: d.amount,
        },
    )
}

/// Marks a deposit claimed once its transfer out of custody went through
/// (`transferred`); a refused check or a failed transfer changes nothing.
pub fn process_withdrawal(
    bridge: &mut Bridge,
    ctx: &ProcessWithdrawal,
    deposit_id: u64,
    recipient: Pubkey,
    transferred: bool,
) -> (r: Result<WithdrawalCompletedEvent, BridgeError>)
    requires
        old(bridge).wf(),
    ensures
        final(bridge).wf(),
        (r, final(bridge)@) == process_withdrawal_spec(
            old(bridge)@,
            *ctx,
            deposit_id,
            recipient,
            transferred,
        ),
{
    let d = withdrawal_check(bridge, ctx, deposit_id)?;
    if !transferred {
        return Err(BridgeError::TransferFailed);
    }
    proof {
        bridge.deposits.lemma_keys();
    }
    bridge.deposits.replace(
        DepositInfo {
            deposit_id: d.deposit_id,
            token_id: d.token_id,
            mint: d.mint,
            amount: d.amount,
            depositor: d.depositor,
            claimed: true,
            timestamp: d.timestamp,
        },
    );
    Ok(
        WithdrawalCompletedEvent {
            deposit_id,
            token_id: d.token_id,
            amount: d.amount,
            recipient,
            relayer: ctx.relayer,
            timestamp: ctx.timestamp,
        },
    )
}

} // verus!
