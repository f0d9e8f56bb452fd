use token_vault::derivation::derive_user_vault_address;
use token_vault::error::VaultError;
use token_vault::processor::{
    deposit_tokens, init_vault, process_instruction, withdraw_tokens, AccountSet, Effect,
    TransferAuthority, TransferDirection,
};
use token_vault::state::{Vault, VAULT_LEN};

const PROGRAM_ID: [u8; 32] = [9u8; 32];
const OWNER: [u8; 32] = [1u8; 32];
const MINT: [u8; 32] = [2u8; 32];
const POOL: [u8; 32] = [3u8; 32];
const VAULT_ADDR: [u8; 32] = [4u8; 32];

fn user_record_addr(user: &[u8; 32]) -> [u8; 32] {
    derive_user_vault_address(user, &VAULT_ADDR, &PROGRAM_ID).unwrap().0
}

fn fresh_vault() -> Vault {
    init_vault(true, &OWNER, &vec![0u8; VAULT_LEN], &MINT, &POOL).unwrap()
}

#[test]
fn create_vault_records_its_arguments() {
    let v = fresh_vault();
    assert!(v.is_initialized);
    assert_eq!(v.owner, OWNER);
    assert_eq!(v.token_mint, MINT);
    assert_eq!(v.vault_token_account, POOL);
    assert_eq!(v.total_deposits, 0);
}

#[test]
fn create_vault_requires_a_signer() {
    let err = init_vault(false, &OWNER, &vec![0u8; VAULT_LEN], &MINT, &POOL).unwrap_err();
    assert_eq!(err, VaultError::Unauthorized);
}

#[test]
fn create_vault_on_an_initialized_slot_fails_and_changes_nothing() {
    let v = fresh_vault();
    let slot = v.pack();
    let err = init_vault(true, &[5u8; 32], &slot, &[6u8; 32], &[7u8; 32]).unwrap_err();
    assert_eq!(err, VaultError::AlreadyInitialized);
    // The slot still decodes to the record it held before.
    assert_eq!(Vault::unpack_from_slice(&slot).unwrap(), v);
}

#[test]
fn deposit_then_deposit_then_withdrawals() {
    // CreateVault, Deposit 100, Deposit 50, Withdraw 200 (fails),
    // Withdraw 150 (succeeds back down to zero).
    let ud_addr = user_record_addr(&OWNER);
    let vault_data = fresh_vault().pack();

    let up = deposit_tokens(
        true, &OWNER, &VAULT_ADDR, &vault_data, &ud_addr, &[], 100, &PROGRAM_ID,
    )
    .unwrap();
    assert_eq!(up.vault.total_deposits, 100);
    assert_eq!(up.user_vault.deposited_amount, 100);
    assert!(up.user_vault.is_initialized);
    assert_eq!(up.user_vault.user, OWNER);
    assert_eq!(up.user_vault.vault, VAULT_ADDR);
    assert_eq!(up.transfer.amount, 100);
    assert_eq!(up.transfer.pool_account, POOL);
    assert_eq!(up.transfer.direction, TransferDirection::IntoPool);
    assert_eq!(up.transfer.authority, TransferAuthority::Requester);

    let vault_data = up.vault.pack();
    let user_data = up.user_vault.pack();
    let up = deposit_tokens(
        true, &OWNER, &VAULT_ADDR, &vault_data, &ud_addr, &user_data, 50, &PROGRAM_ID,
    )
    .unwrap();
    assert_eq!(up.vault.total_deposits, 150);
    assert_eq!(up.user_vault.deposited_amount, 150);

    let vault_data = up.vault.pack();
    let user_data = up.user_vault.pack();
    let err = withdraw_tokens(
        true, &OWNER, &VAULT_ADDR, &vault_data, &ud_addr, &user_data, 200, &PROGRAM_ID,
    )
    .unwrap_err();
    assert_eq!(err, VaultError::InsufficientFunds);
    // Nothing was committed: the buffers still decode to 150/150.
    assert_eq!(Vault::unpack_from_slice(&vault_data).unwrap().total_deposits, 150);

    let w = withdraw_tokens(
        true, &OWNER, &VAULT_ADDR, &vault_data, &ud_addr, &user_data, 150, &PROGRAM_ID,
    )
    .unwrap();
    assert_eq!(w.vault.total_deposits, 0);
    assert_eq!(w.user_vault.deposited_amount, 0);
    assert_eq!(w.transfer.amount, 150);
    assert_eq!(w.transfer.pool_account, POOL);
    assert_eq!(w.transfer.direction, TransferDirection::OutOfPool);
    assert!(matches!(w.transfer.authority, TransferAuthority::VaultAuthority { .. }));
}

#[test]
fn deposit_overflowing_the_vault_total_fails() {
    let mut vault = fresh_vault();
    vault.total_deposits = u64::MAX - 10;
    let err = deposit_tokens(
        true,
        &OWNER,
        &VAULT_ADDR,
        &vault.pack(),
        &user_record_addr(&OWNER),
        &[],
        100,
        &PROGRAM_ID,
    )
    .unwrap_err();
    assert_eq!(err, VaultError::ArithmeticOverflow);
}

#[test]
fn deposit_overflowing_the_user_balance_fails() {
    let vault = fresh_vault();
    let ud_addr = user_record_addr(&OWNER);
    // Credit the user record once, then present it with a huge balance.
    let mut up = deposit_tokens(
        true, &OWNER, &VAULT_ADDR, &vault.pack(), &ud_addr, &[], 1, &PROGRAM_ID,
    )
    .unwrap();
    up.user_vault.deposited_amount = u64::MAX;
    let err = deposit_tokens(
        true,
        &OWNER,
        &VAULT_ADDR,
        &up.vault.pack(),
        &ud_addr,
        &up.user_vault.pack(),
        1,
        &PROGRAM_ID,
    )
    .unwrap_err();
    assert_eq!(err, VaultError::ArithmeticOverflow);
}

#[test]
fn withdraw_more_than_the_user_balance_fails() {
    let ud_addr = user_record_addr(&OWNER);
    let up = deposit_tokens(
        true,
        &OWNER,
        &VAULT_ADDR,
        &fresh_vault().pack(),
        &ud_addr,
        &[],
        100,
        &PROGRAM_ID,
    )
    .unwrap();
    // The vault total covers the request but the user's claim does not.
    let mut vault = up.vault;
    vault.total_deposits = 1_000;
    let err = withdraw_tokens(
        true,
        &OWNER,
        &VAULT_ADDR,
        &vault.pack(),
        &ud_addr,
        &up.user_vault.pack(),
        500,
        &PROGRAM_ID,
    )
    .unwrap_err();
    assert_eq!(err, VaultError::InsufficientFunds);
}

#[test]
fn spoofed_user_record_address_is_rejected() {
    let vault_data = fresh_vault().pack();
    let spoofed = [42u8; 32];
    for amount in [0u64, 1, u64::MAX] {
        let err = deposit_tokens(
            true, &OWNER, &VAULT_ADDR, &vault_data, &spoofed, &[], amount, &PROGRAM_ID,
        )
        .unwrap_err();
        assert_eq!(err, VaultError::InvalidAccountAddress);
        let err = withdraw_tokens(
            true, &OWNER, &VAULT_ADDR, &vault_data, &spoofed, &[], amount, &PROGRAM_ID,
        )
        .unwrap_err();
        assert_eq!(err, VaultError::InvalidAccountAddress);
    }
}

#[test]
fn mutating_operations_require_a_signer() {
    let vault_data = fresh_vault().pack();
    let ud_addr = user_record_addr(&OWNER);
    let err = deposit_tokens(
        false, &OWNER, &VAULT_ADDR, &vault_data, &ud_addr, &[], 1, &PROGRAM_ID,
    )
    .unwrap_err();
    assert_eq!(err, VaultError::Unauthorized);
    let err = withdraw_tokens(
        false, &OWNER, &VAULT_ADDR, &vault_data, &ud_addr, &[], 1, &PROGRAM_ID,
    )
    .unwrap_err();
    assert_eq!(err, VaultError::Unauthorized);
}

#[test]
fn deposit_into_an_uninitialized_vault_fails() {
    let err = deposit_tokens(
        true,
        &OWNER,
        &VAULT_ADDR,
        &vec![0u8; VAULT_LEN],
        &user_record_addr(&OWNER),
        &[],
        1,
        &PROGRAM_ID,
    )
    .unwrap_err();
    assert_eq!(err, VaultError::InvalidAccountData);
}

#[test]
fn withdraw_without_an_existing_user_record_fails() {
    let vault_data = fresh_vault().pack();
    let err = withdraw_tokens(
        true,
        &OWNER,
        &VAULT_ADDR,
        &vault_data,
        &user_record_addr(&OWNER),
        &[],
        1,
        &PROGRAM_ID,
    )
    .unwrap_err();
    assert_eq!(err, VaultError::InvalidAccountData);
}

#[test]
fn malformed_record_buffers_are_rejected() {
    let err = deposit_tokens(
        true,
        &OWNER,
        &VAULT_ADDR,
        &vec![0u8; 3],
        &user_record_addr(&OWNER),
        &[],
        1,
        &PROGRAM_ID,
    )
    .unwrap_err();
    assert_eq!(err, VaultError::DecodeError);
    let vault_data = fresh_vault().pack();
    let err = deposit_tokens(
        true,
        &OWNER,
        &VAULT_ADDR,
        &vault_data,
        &user_record_addr(&OWNER),
        &vec![0u8; 5],
        1,
        &PROGRAM_ID,
    )
    .unwrap_err();
    assert_eq!(err, VaultError::DecodeError);
}

fn account_set(vault_data: Vec<u8>, user_vault_data: Vec<u8>) -> AccountSet {
    AccountSet {
        requester: OWNER,
        requester_signed: true,
        vault_address: VAULT_ADDR,
        vault_data,
        token_mint: MINT,
        vault_token_account: POOL,
        user_vault_address: user_record_addr(&OWNER),
        user_vault_data,
    }
}

#[test]
fn process_instruction_dispatches_create() {
    let accounts = account_set(vec![0u8; VAULT_LEN], Vec::new());
    let effect = process_instruction(&PROGRAM_ID, &accounts, &[0]).unwrap();
    match effect {
        Effect::Created { vault } => {
            assert_eq!(vault.owner, OWNER);
            assert_eq!(vault.total_deposits, 0);
        }
        other => panic!("unexpected effect: {other:?}"),
    }
}

#[test]
fn process_instruction_dispatches_deposit_and_withdraw() {
    let vault_data = fresh_vault().pack();
    let accounts = account_set(vault_data, Vec::new());
    let mut data = vec![1u8];
    data.extend_from_slice(&100u64.to_le_bytes());
    let effect = process_instruction(&PROGRAM_ID, &accounts, &data).unwrap();
    let update = match effect {
        Effect::Deposited { update } => update,
        other => panic!("unexpected effect: {other:?}"),
    };
    assert_eq!(update.vault.total_deposits, 100);

    let accounts = account_set(update.vault.pack(), update.user_vault.pack());
    let mut data = vec![2u8];
    data.extend_from_slice(&40u64.to_le_bytes());
    let effect = process_instruction(&PROGRAM_ID, &accounts, &data).unwrap();
    match effect {
        Effect::Withdrawn { update } => {
            assert_eq!(update.vault.total_deposits, 60);
            assert_eq!(update.user_vault.deposited_amount, 60);
        }
        other => panic!("unexpected effect: {other:?}"),
    }
}

#[test]
fn process_instruction_rejects_malformed_bytes() {
    let accounts = account_set(vec![0u8; VAULT_LEN], Vec::new());
    assert_eq!(
        process_instruction(&PROGRAM_ID, &accounts, &[]).unwrap_err(),
        VaultError::DecodeError
    );
    assert_eq!(
        process_instruction(&PROGRAM_ID, &accounts, &[7]).unwrap_err(),
        VaultError::DecodeError
    );
    assert_eq!(
        process_instruction(&PROGRAM_ID, &accounts, &[1, 2, 3]).unwrap_err(),
        VaultError::DecodeError
    );
}

#[test]
fn vault_total_equals_the_sum_of_all_depositor_claims() {
    let alice = [20u8; 32];
    let bob = [21u8; 32];
    let vault_data = fresh_vault().pack();

    let a1 = deposit_tokens(
        true,
        &alice,
        &VAULT_ADDR,
        &vault_data,
        &user_record_addr(&alice),
        &[],
        70,
        &PROGRAM_ID,
    )
    .unwrap();
    let b1 = deposit_tokens(
        true,
        &bob,
        &VAULT_ADDR,
        &a1.vault.pack(),
        &user_record_addr(&bob),
        &[],
        30,
        &PROGRAM_ID,
    )
    .unwrap();
    assert_eq!(
        b1.vault.total_deposits,
        a1.user_vault.deposited_amount + b1.user_vault.deposited_amount
    );

    let w = withdraw_tokens(
        true,
        &alice,
        &VAULT_ADDR,
        &b1.vault.pack(),
        &user_record_addr(&alice),
        &a1.user_vault.pack(),
        25,
        &PROGRAM_ID,
    )
    .unwrap();
    assert_eq!(
        w.vault.total_deposits,
        w.user_vault.deposited_amount + b1.user_vault.deposited_amount
    );
}
