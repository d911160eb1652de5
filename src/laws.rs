//! Properties of the bridge's state machine, over the spec functions that the
//! instructions' contracts are stated with.

use vstd::prelude::*;

use crate::key::Pubkey;
use crate::model::{
    add_relayer_spec, deposit_spec, deposit_transfer_spec, process_withdrawal_spec,
    register_token_spec, remove_relayer_spec, withdrawal_transfer_spec, BridgeView,
};
use crate::state::{
    AddRelayer, BridgeError, Deposit, ProcessWithdrawal, RegisterToken, RemoveRelayer,
};

verus! {

/// A deposit is released at most once: after a withdrawal of it succeeds, a
/// second withdrawal of it fails, whatever its transfer does, and with
/// `AlreadyClaimed` when made by an active relayer (the first one included).
pub proof fn lemma_withdrawal_succeeds_once(
    v: BridgeView,
    ctx: ProcessWithdrawal,
    deposit_id: u64,
    recipient: Pubkey,
    ctx2: ProcessWithdrawal,
    recipient2: Pubkey,
    transferred2: bool,
)
    requires
        v.wf(),
        process_withdrawal_spec(v, ctx, deposit_id, recipient, true).0 is Ok,
    ensures
        ({
            let v1 = process_withdrawal_spec(v, ctx, deposit_id, recipient, true).1;
            let second = process_withdrawal_spec(v1, ctx2, deposit_id, recipient2, transferred2);
            &&& second.0 is Err
            &&& second.1 == v1
            &&& v1.relayer_is_active(ctx2.relayer) ==> second.0 == Err::<
                crate::state::WithdrawalCompletedEvent,
                BridgeError,
            >(BridgeError::AlreadyClaimed)
            &&& v1.relayer_is_active(ctx.relayer)
        }),
{
}

/// Once removed, a relayer can release no deposit: every withdrawal it makes
/// fails with `RelayerNotActive` and changes nothing.
pub proof fn lemma_removed_relayer_cannot_withdraw(
    v: BridgeView,
    rm: RemoveRelayer,
    ctx: ProcessWithdrawal,
    deposit_id: u64,
    recipient: Pubkey,
    transferred: bool,
)
    requires
        v.wf(),
        remove_relayer_spec(v, rm).0 is Ok,
        ctx.relayer == rm.relayer,
    ensures
        ({
            let v1 = remove_relayer_spec(v, rm).1;
            let w = process_withdrawal_spec(v1, ctx, deposit_id, recipient, transferred);
            &&& w.0 == Err::<crate::state::WithdrawalCompletedEvent, BridgeError>(
                BridgeError::RelayerNotActive,
            )
            &&& w.1 == v1
            &&& withdrawal_transfer_spec(v1, ctx, deposit_id, recipient) == Err::<
                crate::state::Transfer,
                BridgeError,
            >(BridgeError::RelayerNotActive)
        }),
{
}

/// An inactive relayer stays inactive: no instruction but `add_relayer` writes
/// relayers, and `add_relayer` refuses a relayer that is registered.
pub proof fn lemma_inactive_relayer_stays_inactive(
    v: BridgeView,
    relayer: Pubkey,
    add: AddRelayer,
    relayer_address: Pubkey,
    rm: RemoveRelayer,
)
    requires
        v.wf(),
        v.relayers.contains_key(relayer),
        !v.relayers[relayer].is_active,
    ensures
        add_relayer_spec(v, add, relayer_address).1.relayers.contains_key(relayer),
        !add_relayer_spec(v, add, relayer_address).1.relayers[relayer].is_active,
        remove_relayer_spec(v, rm).1.relayers.contains_key(relayer),
        !remove_relayer_spec(v, rm).1.relayers[relayer].is_active,
{
}

/// A deposit of a token that was never registered fails with
/// `TokenNotActive`, asks for no transfer and stores nothing.
pub proof fn lemma_deposit_needs_registered_token(
    v: BridgeView,
    ctx: Deposit,
    deposit_id: u64,
    amount: u64,
    transferred: bool,
)
    requires
        !v.tokens.contains_key(ctx.token_id),
    ensures
        deposit_transfer_spec(v, ctx, deposit_id, amount) == Err::<crate::state::Transfer, BridgeError>(
            BridgeError::TokenNotActive,
        ),
        deposit_spec(v, ctx, deposit_id, amount, transferred) == (
            Err::<crate::state::DepositEvent, BridgeError>(BridgeError::TokenNotActive),
            v,
        ),
{
}

/// Only the authority registers tokens, adds relayers or removes them: any
/// other caller gets `UnauthorizedAccess` and changes nothing.
pub proof fn lemma_admin_needs_authority(
    v: BridgeView,
    reg: RegisterToken,
    token_id: u64,
    add: AddRelayer,
    relayer_address: Pubkey,
    rm: RemoveRelayer,
)
    requires
        v.state is Some,
        reg.authority != v.state->0.authority,
        add.authority != v.state->0.authority,
        rm.authority != v.state->0.authority,
    ensures
        register_token_spec(v, reg, token_id) == (
            Err::<(), BridgeError>(BridgeError::UnauthorizedAccess),
            v,
        ),
        add_relayer_spec(v, add, relayer_address) == (
            Err::<(), BridgeError>(BridgeError::UnauthorizedAccess),
            v,
        ),
        remove_relayer_spec(v, rm) == (Err::<(), BridgeError>(BridgeError::UnauthorizedAccess), v),
{
}

/// A withdrawal whose transfer fails changes nothing, so a retry whose
/// transfer goes through succeeds and leaves the deposit claimed; a third
/// attempt then fails.
pub proof fn lemma_withdrawal_retry_after_failed_transfer(
    v: BridgeView,
    ctx: ProcessWithdrawal,
    deposit_id: u64,
    recipient: Pubkey,
    retry: ProcessWithdrawal,
    recipient2: Pubkey,
    ctx3: ProcessWithdrawal,
    recipient3: Pubkey,
    transferred3: bool,
)
    requires
        v.wf(),
        v.relayer_is_active(ctx.relayer),
        v.relayer_is_active(retry.relayer),
        v.deposit_is_open(deposit_id),
    ensures
        ({
            let first = process_withdrawal_spec(v, ctx, deposit_id, recipient, false);
            let second = process_withdrawal_spec(first.1, retry, deposit_id, recipient2, true);
            let third = process_withdrawal_spec(second.1, ctx3, deposit_id, recipient3, transferred3);
            &&& first.0 == Err::<crate::state::WithdrawalCompletedEvent, BridgeError>(
                BridgeError::TransferFailed,
            )
            &&& first.1 == v
            &&& second.0 is Ok
            &&& second.1.deposits.contains_key(deposit_id)
            &&& second.1.deposits[deposit_id].claimed
            &&& third.0 is Err
            &&& third.1 == second.1
        }),
{
}

} // verus!

verus! {

/// A claimed deposit stays claimed: neither `deposit` nor
/// `process_withdrawal`, the two instructions that write deposits, reopens it.
pub proof fn lemma_claimed_stays_claimed(
    v: BridgeView,
    deposit_id: u64,
    dep: Deposit,
    new_id: u64,
    amount: u64,
    transferred: bool,
    ctx: ProcessWithdrawal,
    other_id: u64,
    recipient: Pubkey,
    transferred2: bool,
)
    requires
        v.wf(),
        v.deposits.contains_key(deposit_id),
        v.deposits[deposit_id].claimed,
    ensures
        deposit_spec(v, dep, new_id, amount, transferred).1.deposits.contains_key(deposit_id),
        deposit_spec(v, dep, new_id, amount, transferred).1.deposits[deposit_id].claimed,
        process_withdrawal_spec(v, ctx, other_id, recipient, transferred2).1.deposits.contains_key(
            deposit_id,
        ),
        process_withdrawal_spec(v, ctx, other_id, recipient, transferred2).1.deposits[deposit_id].claimed,
{
}

} // verus!

verus! {

/// The empty bridge satisfies the invariant, and every instruction keeps it,
/// whether it succeeds or fails.
pub proof fn lemma_instructions_keep_invariant(
    v: BridgeView,
    init: crate::state::Initialize,
    bump: u8,
    reg: RegisterToken,
    token_id: u64,
    add: AddRelayer,
    relayer_address: Pubkey,
    rm: RemoveRelayer,
    dep: Deposit,
    deposit_id: u64,
    amount: u64,
    transferred: bool,
    pw: ProcessWithdrawal,
    recipient: Pubkey,
)
    requires
        v.inv(),
    ensures
        (BridgeView {
            state: None,
            tokens: Map::empty(),
            relayers: Map::empty(),
            deposits: Map::empty(),
        }).inv(),
        crate::model::initialize_spec(v, init, bump).1.inv(),
        register_token_spec(v, reg, token_id).1.inv(),
        add_relayer_spec(v, add, relayer_address).1.inv(),
        remove_relayer_spec(v, rm).1.inv(),
        deposit_spec(v, dep, deposit_id, amount, transferred).1.inv(),
        process_withdrawal_spec(v, pw, deposit_id, recipient, transferred).1.inv(),
{
    let a = add_relayer_spec(v, add, relayer_address).1;
    if add_relayer_spec(v, add, relayer_address).0 is Ok {
        assert forall|k1: Pubkey, k2: Pubkey|
            #[trigger] a.relayers.contains_key(k1) && #[trigger] a.relayers.contains_key(k2) && k1
                != k2 implies a.relayers[k1].index != a.relayers[k2].index by {
            if k1 != relayer_address && k2 != relayer_address {
                assert(v.relayers.contains_key(k1) && v.relayers.contains_key(k2));
            }
        }
    }
    let r = remove_relayer_spec(v, rm).1;
    if remove_relayer_spec(v, rm).0 is Ok {
        assert forall|k1: Pubkey, k2: Pubkey|
            #[trigger] r.relayers.contains_key(k1) && #[trigger] r.relayers.contains_key(k2) && k1
                != k2 implies r.relayers[k1].index != r.relayers[k2].index by {
            assert(v.relayers.contains_key(k1) && v.relayers.contains_key(k2));
        }
    }
}

} // verus!
