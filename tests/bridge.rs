use solana_proof_of_collateral::{
    add_relayer, deposit, deposit_transfer, initialize, process_withdrawal, register_token,
    remove_relayer, request_withdrawal, withdrawal_transfer, AddRelayer, Bridge, BridgeError,
    BridgeState, Custody, Deposit, DepositEvent, DepositInfo, Initialize, ProcessWithdrawal,
    Pubkey, RegisterToken, RelayerInfo, RemoveRelayer, RequestWithdrawal, TokenInfo, Transfer,
    WithdrawalCompletedEvent, WithdrawalRequestEvent,
};

fn key(b: u8) -> Pubkey {
    Pubkey::new([b; 32])
}

const AUTHORITY: u8 = 1;
const RELAYER: u8 = 2;
const DEPOSITOR: u8 = 3;
const RECIPIENT: u8 = 4;
const MINT: u8 = 9;
const USDX: u64 = 77;
const FAKE: u64 = 78;

/// An initialized bridge with one token (USDX) and one relayer.
fn ready_bridge() -> Bridge {
    let mut b = Bridge::new();
    assert_eq!(initialize(&mut b, &Initialize { authority: key(AUTHORITY) }, 254), Ok(()));
    let reg = RegisterToken { authority: key(AUTHORITY), mint: key(MINT) };
    assert_eq!(register_token(&mut b, &reg, USDX), Ok(()));
    let add = AddRelayer { authority: key(AUTHORITY) };
    assert_eq!(add_relayer(&mut b, &add, key(RELAYER)), Ok(()));
    b
}

fn dep_ctx(user: u8, token_id: u64) -> Deposit {
    Deposit { user: key(user), token_id, timestamp: 1_000 }
}

fn pw_ctx(relayer: u8) -> ProcessWithdrawal {
    ProcessWithdrawal { relayer: key(relayer), timestamp: 2_000 }
}

/// Deposits `amount` of USDX under `id`, with a transfer that goes through.
fn lock(b: &mut Bridge, id: u64, amount: u64) {
    let ctx = dep_ctx(DEPOSITOR, USDX);
    assert!(deposit_transfer(b, &ctx, id, amount).is_ok());
    assert!(deposit(b, &ctx, id, amount, true).is_ok());
}

#[test]
fn full_deposit_and_withdrawal_flow() {
    let mut b = ready_bridge();
    let ctx = dep_ctx(DEPOSITOR, USDX);
    assert_eq!(
        deposit_transfer(&b, &ctx, 1, 100),
        Ok(Transfer {
            from: Custody::Owner(key(DEPOSITOR)),
            to: Custody::Bridge,
            mint: key(MINT),
            amount: 100
        })
    );
    assert_eq!(
        deposit(&mut b, &ctx, 1, 100, true),
        Ok(DepositEvent {
            deposit_id: 1,
            token_id: USDX,
            amount: 100,
            depositor: key(DEPOSITOR),
            timestamp: 1_000
        })
    );
    assert_eq!(
        b.deposit_info(1),
        Some(DepositInfo {
            deposit_id: 1,
            token_id: USDX,
            mint: key(MINT),
            amount: 100,
            depositor: key(DEPOSITOR),
            claimed: false,
            timestamp: 1_000
        })
    );
    let pw = pw_ctx(RELAYER);
    assert_eq!(
        withdrawal_transfer(&b, &pw, 1, key(RECIPIENT)),
        Ok(Transfer {
            from: Custody::Bridge,
            to: Custody::Owner(key(RECIPIENT)),
            mint: key(MINT),
            amount: 100
        })
    );
    assert_eq!(
        process_withdrawal(&mut b, &pw, 1, key(RECIPIENT), true),
        Ok(WithdrawalCompletedEvent {
            deposit_id: 1,
            token_id: USDX,
            amount: 100,
            recipient: key(RECIPIENT),
            relayer: key(RELAYER),
            timestamp: 2_000
        })
    );
    assert!(b.deposit_info(1).unwrap().claimed);
    assert_eq!(
        withdrawal_transfer(&b, &pw, 1, key(RECIPIENT)),
        Err(BridgeError::AlreadyClaimed)
    );
    assert_eq!(
        process_withdrawal(&mut b, &pw, 1, key(RECIPIENT), true),
        Err(BridgeError::AlreadyClaimed)
    );
}

#[test]
fn deposit_of_unregistered_token_fails() {
    let mut b = ready_bridge();
    let ctx = dep_ctx(DEPOSITOR, FAKE);
    assert_eq!(deposit_transfer(&b, &ctx, 2, 100), Err(BridgeError::TokenNotActive));
    assert_eq!(deposit(&mut b, &ctx, 2, 100, true), Err(BridgeError::TokenNotActive));
    assert_eq!(b.deposit_info(2), None);
}

#[test]
fn second_withdrawal_by_another_relayer_fails() {
    let mut b = ready_bridge();
    let add = AddRelayer { authority: key(AUTHORITY) };
    assert_eq!(add_relayer(&mut b, &add, key(5)), Ok(()));
    lock(&mut b, 3, 40);
    assert!(process_withdrawal(&mut b, &pw_ctx(RELAYER), 3, key(RECIPIENT), true).is_ok());
    assert_eq!(
        process_withdrawal(&mut b, &pw_ctx(5), 3, key(6), true),
        Err(BridgeError::AlreadyClaimed)
    );
}

#[test]
fn removed_relayer_cannot_withdraw() {
    let mut b = ready_bridge();
    lock(&mut b, 4, 10);
    let rm = RemoveRelayer { authority: key(AUTHORITY), relayer: key(RELAYER) };
    assert_eq!(remove_relayer(&mut b, &rm), Ok(()));
    assert!(!b.relayer_info(&key(RELAYER)).unwrap().is_active);
    let pw = pw_ctx(RELAYER);
    assert_eq!(
        withdrawal_transfer(&b, &pw, 4, key(RECIPIENT)),
        Err(BridgeError::RelayerNotActive)
    );
    assert_eq!(
        process_withdrawal(&mut b, &pw, 4, key(RECIPIENT), true),
        Err(BridgeError::RelayerNotActive)
    );
    assert!(!b.deposit_info(4).unwrap().claimed);
}

#[test]
fn removing_inactive_relayer_is_a_no_op() {
    let mut b = ready_bridge();
    let rm = RemoveRelayer { authority: key(AUTHORITY), relayer: key(RELAYER) };
    assert_eq!(remove_relayer(&mut b, &rm), Ok(()));
    assert_eq!(remove_relayer(&mut b, &rm), Ok(()));
    assert!(!b.relayer_info(&key(RELAYER)).unwrap().is_active);
}

#[test]
fn removed_relayer_cannot_be_added_again() {
    let mut b = ready_bridge();
    let rm = RemoveRelayer { authority: key(AUTHORITY), relayer: key(RELAYER) };
    assert_eq!(remove_relayer(&mut b, &rm), Ok(()));
    let add = AddRelayer { authority: key(AUTHORITY) };
    assert_eq!(add_relayer(&mut b, &add, key(RELAYER)), Err(BridgeError::RelayerAlreadyRegistered));
    assert!(!b.relayer_info(&key(RELAYER)).unwrap().is_active);
}

#[test]
fn unknown_relayer_cannot_withdraw() {
    let mut b = ready_bridge();
    lock(&mut b, 5, 10);
    assert_eq!(
        process_withdrawal(&mut b, &pw_ctx(8), 5, key(RECIPIENT), true),
        Err(BridgeError::RelayerNotActive)
    );
}

#[test]
fn admin_instructions_need_the_authority() {
    let mut b = ready_bridge();
    let before = (b.bridge_state(), b.token_info(80), b.relayer_info(&key(RELAYER)));
    let reg = RegisterToken { authority: key(DEPOSITOR), mint: key(MINT) };
    assert_eq!(register_token(&mut b, &reg, 80), Err(BridgeError::UnauthorizedAccess));
    let add = AddRelayer { authority: key(DEPOSITOR) };
    assert_eq!(add_relayer(&mut b, &add, key(7)), Err(BridgeError::UnauthorizedAccess));
    let rm = RemoveRelayer { authority: key(DEPOSITOR), relayer: key(RELAYER) };
    assert_eq!(remove_relayer(&mut b, &rm), Err(BridgeError::UnauthorizedAccess));
    assert_eq!(before, (b.bridge_state(), b.token_info(80), b.relayer_info(&key(RELAYER))));
    assert_eq!(b.relayer_info(&key(7)), None);
}

#[test]
fn retry_after_failed_transfer_succeeds_once() {
    let mut b = ready_bridge();
    lock(&mut b, 6, 25);
    let pw = pw_ctx(RELAYER);
    assert_eq!(
        process_withdrawal(&mut b, &pw, 6, key(RECIPIENT), false),
        Err(BridgeError::TransferFailed)
    );
    assert!(!b.deposit_info(6).unwrap().claimed);
    assert!(process_withdrawal(&mut b, &pw, 6, key(RECIPIENT), true).is_ok());
    assert!(b.deposit_info(6).unwrap().claimed);
    assert_eq!(
        process_withdrawal(&mut b, &pw, 6, key(RECIPIENT), true),
        Err(BridgeError::AlreadyClaimed)
    );
}

#[test]
fn request_withdrawal_reports_and_stores_nothing() {
    let mut b = ready_bridge();
    lock(&mut b, 7, 55);
    let before = b.deposit_info(7);
    let ctx = RequestWithdrawal { requester: key(12), timestamp: 3_000 };
    assert_eq!(
        request_withdrawal(&b, &ctx, 7, key(RECIPIENT)),
        Ok(WithdrawalRequestEvent {
            deposit_id: 7,
            token_id: USDX,
            amount: 55,
            recipient: key(RECIPIENT),
            requester: key(12),
            timestamp: 3_000
        })
    );
    assert_eq!(b.deposit_info(7), before);
    assert_eq!(request_withdrawal(&b, &ctx, 99, key(RECIPIENT)), Err(BridgeError::AlreadyClaimed));
    assert!(process_withdrawal(&mut b, &pw_ctx(RELAYER), 7, key(RECIPIENT), true).is_ok());
    assert_eq!(request_withdrawal(&b, &ctx, 7, key(RECIPIENT)), Err(BridgeError::AlreadyClaimed));
}

#[test]
fn initialize_sets_authority_once() {
    let mut b = Bridge::new();
    assert_eq!(b.bridge_state(), None);
    assert_eq!(initialize(&mut b, &Initialize { authority: key(AUTHORITY) }, 7), Ok(()));
    assert_eq!(
        b.bridge_state(),
        Some(BridgeState { authority: key(AUTHORITY), relayer_count: 0, bump: 7 })
    );
    assert_eq!(
        initialize(&mut b, &Initialize { authority: key(2) }, 8),
        Err(BridgeError::AlreadyInitialized)
    );
    assert_eq!(b.bridge_state().unwrap().authority, key(AUTHORITY));
}

#[test]
fn admin_instructions_need_initialization() {
    let mut b = Bridge::new();
    let reg = RegisterToken { authority: key(AUTHORITY), mint: key(MINT) };
    assert_eq!(register_token(&mut b, &reg, USDX), Err(BridgeError::NotInitialized));
    let add = AddRelayer { authority: key(AUTHORITY) };
    assert_eq!(add_relayer(&mut b, &add, key(RELAYER)), Err(BridgeError::NotInitialized));
    let rm = RemoveRelayer { authority: key(AUTHORITY), relayer: key(RELAYER) };
    assert_eq!(remove_relayer(&mut b, &rm), Err(BridgeError::NotInitialized));
}

#[test]
fn register_token_records_the_token_once() {
    let mut b = ready_bridge();
    assert_eq!(
        b.token_info(USDX),
        Some(TokenInfo { mint: key(MINT), token_id: USDX, authority: key(AUTHORITY), is_active: true })
    );
    let reg = RegisterToken { authority: key(AUTHORITY), mint: key(10) };
    assert_eq!(register_token(&mut b, &reg, USDX), Err(BridgeError::TokenAlreadyRegistered));
    assert_eq!(b.token_info(USDX).unwrap().mint, key(MINT));
}

#[test]
fn relayers_get_consecutive_indices() {
    let mut b = ready_bridge();
    let add = AddRelayer { authority: key(AUTHORITY) };
    assert_eq!(add_relayer(&mut b, &add, key(20)), Ok(()));
    assert_eq!(add_relayer(&mut b, &add, key(21)), Ok(()));
    assert_eq!(
        b.relayer_info(&key(RELAYER)),
        Some(RelayerInfo { relayer: key(RELAYER), authority: key(AUTHORITY), is_active: true, index: 0 })
    );
    assert_eq!(b.relayer_info(&key(20)).unwrap().index, 1);
    assert_eq!(b.relayer_info(&key(21)).unwrap().index, 2);
    assert_eq!(b.bridge_state().unwrap().relayer_count, 3);
    assert_eq!(add_relayer(&mut b, &add, key(20)), Err(BridgeError::RelayerAlreadyRegistered));
    assert_eq!(b.bridge_state().unwrap().relayer_count, 3);
}

#[test]
fn remove_unknown_relayer_fails() {
    let mut b = ready_bridge();
    let rm = RemoveRelayer { authority: key(AUTHORITY), relayer: key(30) };
    assert_eq!(remove_relayer(&mut b, &rm), Err(BridgeError::RelayerNotActive));
}

#[test]
fn duplicate_deposit_id_fails() {
    let mut b = ready_bridge();
    lock(&mut b, 8, 10);
    let ctx = Deposit { user: key(40), token_id: USDX, timestamp: 5 };
    assert_eq!(deposit_transfer(&b, &ctx, 8, 20), Err(BridgeError::DepositAlreadyExists));
    assert_eq!(deposit(&mut b, &ctx, 8, 20, true), Err(BridgeError::DepositAlreadyExists));
    assert_eq!(b.deposit_info(8).unwrap().amount, 10);
}

#[test]
fn zero_amount_deposit_fails() {
    let mut b = ready_bridge();
    let ctx = dep_ctx(DEPOSITOR, USDX);
    assert_eq!(deposit_transfer(&b, &ctx, 9, 0), Err(BridgeError::InvalidAmount));
    assert_eq!(deposit(&mut b, &ctx, 9, 0, true), Err(BridgeError::InvalidAmount));
    assert_eq!(b.deposit_info(9), None);
}

#[test]
fn failed_deposit_transfer_stores_nothing() {
    let mut b = ready_bridge();
    let ctx = dep_ctx(DEPOSITOR, USDX);
    assert_eq!(deposit(&mut b, &ctx, 10, 5, false), Err(BridgeError::TransferFailed));
    assert_eq!(b.deposit_info(10), None);
    assert!(deposit(&mut b, &ctx, 10, 5, true).is_ok());
    assert_eq!(b.deposit_info(10).unwrap().amount, 5);
}

#[test]
fn largest_amount_and_ids_are_kept() {
    let mut b = ready_bridge();
    let ctx = dep_ctx(DEPOSITOR, USDX);
    assert!(deposit(&mut b, &ctx, u64::MAX, u64::MAX, true).is_ok());
    assert_eq!(b.deposit_info(u64::MAX).unwrap().amount, u64::MAX);
    assert_eq!(
        withdrawal_transfer(&b, &pw_ctx(RELAYER), u64::MAX, key(RECIPIENT)).unwrap().amount,
        u64::MAX
    );
}

#[test]
fn keys_differing_in_one_byte_are_distinct() {
    let mut b = ready_bridge();
    let mut bytes = [RELAYER; 32];
    bytes[31] = 0;
    let near = Pubkey::new(bytes);
    assert!(!near.same_as(&key(RELAYER)));
    assert!(key(RELAYER).same_as(&key(RELAYER)));
    assert_eq!(b.relayer_info(&near), None);
    lock(&mut b, 11, 3);
    assert_eq!(
        process_withdrawal(&mut b, &ProcessWithdrawal { relayer: near, timestamp: 0 }, 11, key(4), true),
        Err(BridgeError::RelayerNotActive)
    );
}

#[test]
fn restored_records_are_found_and_keys_stay_unique() {
    let mut b = Bridge::new();
    b.restore_state(BridgeState { authority: key(AUTHORITY), relayer_count: 1, bump: 3 });
    let relayer = RelayerInfo { relayer: key(RELAYER), authority: key(AUTHORITY), is_active: true, index: 0 };
    assert!(b.restore_relayer(relayer));
    assert!(!b.restore_relayer(RelayerInfo { is_active: false, ..relayer }));
    let d = DepositInfo {
        deposit_id: 12,
        token_id: USDX,
        mint: key(MINT),
        amount: 8,
        depositor: key(DEPOSITOR),
        claimed: false,
        timestamp: 0,
    };
    assert!(b.restore_deposit(d));
    assert!(!b.restore_deposit(DepositInfo { amount: 9, ..d }));
    let t = TokenInfo { mint: key(MINT), token_id: USDX, authority: key(AUTHORITY), is_active: true };
    assert!(b.restore_token(t));
    assert!(!b.restore_token(TokenInfo { is_active: false, ..t }));
    assert_eq!(b.relayer_info(&key(RELAYER)), Some(relayer));
    assert_eq!(b.deposit_info(12), Some(d));
    assert_eq!(b.token_info(USDX), Some(t));
    assert!(process_withdrawal(&mut b, &pw_ctx(RELAYER), 12, key(RECIPIENT), true).is_ok());
    assert!(b.deposit_info(12).unwrap().claimed);
}
