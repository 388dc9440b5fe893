use anchor_lang::prelude::Pubkey;
use subscription_engine::subscription::{
    cancel_subscription, charge_subscription, charge_transfer_instruction,
    cleanup_cancelled_subscription, delegation_instruction, initialize_subscription,
    revocation_instruction, update_subscription, ErrorCode, Subscription, TokenAccountRef,
};

const AMOUNT: u64 = 1_000_000;
const INTERVAL: i64 = 2_592_000;
const CREATED: i64 = 1_700_000_000;

fn key(n: u8) -> Pubkey {
    Pubkey::new_from_array([n; 32])
}

fn owner() -> Pubkey {
    key(1)
}

fn user_account() -> TokenAccountRef {
    TokenAccountRef { key: key(3), owned_by_token_program: true }
}

fn recipient_account() -> TokenAccountRef {
    TokenAccountRef { key: key(4), owned_by_token_program: true }
}

fn fresh(prepaid: bool, expires_at: Option<i64>) -> Subscription {
    initialize_subscription(
        owner(),
        key(2),
        user_account().key,
        recipient_account().key,
        key(5),
        AMOUNT,
        INTERVAL,
        expires_at,
        CREATED,
        prepaid,
        true,
    )
    .unwrap()
}

#[test]
fn initialize_populates_record() {
    let sub = fresh(false, None);
    assert_eq!(sub.authority, owner());
    assert_eq!(sub.recipient, key(2));
    assert_eq!(sub.user_token_account, key(3));
    assert_eq!(sub.recipient_token_account, key(4));
    assert_eq!(sub.token_mint, key(5));
    assert_eq!(sub.amount_per_period, AMOUNT);
    assert_eq!(sub.interval_seconds, INTERVAL);
    assert_eq!(sub.last_charge_timestamp, CREATED);
    assert_eq!(sub.created_at, CREATED);
    assert_eq!(sub.expires_at, None);
    assert!(sub.is_active);
    assert_eq!(sub.total_charged, 0);
}

#[test]
fn prepaid_initialize_charges_first_period() {
    let sub = fresh(true, None);
    assert_eq!(sub.total_charged, AMOUNT);
    assert_eq!(sub.last_charge_timestamp, CREATED);
}

#[test]
fn prepaid_initialize_rolls_back_on_failed_transfer() {
    let result = initialize_subscription(
        owner(),
        key(2),
        key(3),
        key(4),
        key(5),
        AMOUNT,
        INTERVAL,
        None,
        CREATED,
        true,
        false,
    );
    assert_eq!(result.err(), Some(ErrorCode::TransferFailed));
}

#[test]
fn deferred_initialize_ignores_transfer_report() {
    let result = initialize_subscription(
        owner(),
        key(2),
        key(3),
        key(4),
        key(5),
        AMOUNT,
        INTERVAL,
        None,
        CREATED,
        false,
        false,
    );
    assert!(result.is_ok());
    assert_eq!(result.unwrap().total_charged, 0);
}

#[test]
fn immediate_charge_fails_interval_not_elapsed() {
    // Deferred policy: the schedule starts at the creation time, so a
    // charge submitted right away must wait one full interval.
    let mut sub = fresh(false, None);
    let result = charge_subscription(&mut sub, &user_account(), &recipient_account(), CREATED, true);
    assert_eq!(result, Err(ErrorCode::IntervalNotElapsed));
    assert_eq!(sub.total_charged, 0);
    assert_eq!(sub.last_charge_timestamp, CREATED);
}

#[test]
fn prepaid_charge_one_second_early_fails() {
    let mut sub = fresh(true, None);
    let result = charge_subscription(
        &mut sub,
        &user_account(),
        &recipient_account(),
        CREATED + INTERVAL - 1,
        true,
    );
    assert_eq!(result, Err(ErrorCode::IntervalNotElapsed));
    assert_eq!(sub.total_charged, AMOUNT);
}

#[test]
fn prepaid_charge_on_the_interval_succeeds() {
    let mut sub = fresh(true, None);
    let result = charge_subscription(
        &mut sub,
        &user_account(),
        &recipient_account(),
        CREATED + INTERVAL,
        true,
    );
    assert_eq!(result, Ok(()));
    assert_eq!(sub.total_charged, 2 * AMOUNT);
    assert_eq!(sub.last_charge_timestamp, CREATED + INTERVAL);
}

#[test]
fn charge_past_expiry_fails_expired() {
    let mut sub = fresh(false, Some(CREATED + 100));
    let result = charge_subscription(
        &mut sub,
        &user_account(),
        &recipient_account(),
        CREATED + 101,
        true,
    );
    assert_eq!(result, Err(ErrorCode::Expired));
    assert_eq!(sub.total_charged, 0);
}

#[test]
fn charge_at_exact_expiry_fails_expired() {
    let mut sub = fresh(false, Some(CREATED + 100));
    let result = charge_subscription(
        &mut sub,
        &user_account(),
        &recipient_account(),
        CREATED + 100,
        true,
    );
    assert_eq!(result, Err(ErrorCode::Expired));
}

#[test]
fn charge_strictly_before_expiry_passes_expiry_check() {
    let mut sub = fresh(true, Some(CREATED + INTERVAL + 50));
    let result = charge_subscription(
        &mut sub,
        &user_account(),
        &recipient_account(),
        CREATED + INTERVAL,
        true,
    );
    assert_eq!(result, Ok(()));
}

#[test]
fn cancelled_record_is_terminal() {
    let mut sub = fresh(false, None);
    assert_eq!(cancel_subscription(&mut sub, &owner()), Ok(()));
    assert!(!sub.is_active);

    let charge = charge_subscription(
        &mut sub,
        &user_account(),
        &recipient_account(),
        CREATED + INTERVAL,
        true,
    );
    assert_eq!(charge, Err(ErrorCode::NotActive));

    let update = update_subscription(&mut sub, &owner(), Some(5), None, None);
    assert_eq!(update, Err(ErrorCode::NotActive));
    assert_eq!(sub.amount_per_period, AMOUNT);

    let again = cancel_subscription(&mut sub, &owner());
    assert_eq!(again, Err(ErrorCode::AlreadyCancelled));
}

#[test]
fn non_owner_update_fails_unauthorized() {
    let mut sub = fresh(false, None);
    let result = update_subscription(&mut sub, &key(9), Some(5), None, None);
    assert_eq!(result, Err(ErrorCode::Unauthorized));
    assert_eq!(sub.amount_per_period, AMOUNT);
    assert!(sub.is_active);
}

#[test]
fn non_owner_cancel_fails_unauthorized() {
    let mut sub = fresh(false, None);
    let result = cancel_subscription(&mut sub, &key(9));
    assert_eq!(result, Err(ErrorCode::Unauthorized));
    assert!(sub.is_active);
}

#[test]
fn serialized_double_charge_commits_once() {
    // Two racing charges when the interval has just elapsed: the substrate
    // serializes them, so the second sees the advanced schedule.
    let mut sub = fresh(true, None);
    let t = CREATED + INTERVAL;
    let first = charge_subscription(&mut sub, &user_account(), &recipient_account(), t, true);
    assert_eq!(first, Ok(()));
    assert_eq!(sub.total_charged, 2 * AMOUNT);

    let second = charge_subscription(&mut sub, &user_account(), &recipient_account(), t, true);
    assert_eq!(second, Err(ErrorCode::IntervalNotElapsed));
    assert_eq!(sub.total_charged, 2 * AMOUNT);
    assert_eq!(sub.last_charge_timestamp, t);
}

#[test]
fn failed_transfer_leaves_record_unchanged() {
    let mut sub = fresh(true, None);
    let result = charge_subscription(
        &mut sub,
        &user_account(),
        &recipient_account(),
        CREATED + INTERVAL,
        false,
    );
    assert_eq!(result, Err(ErrorCode::TransferFailed));
    assert_eq!(sub.total_charged, AMOUNT);
    assert_eq!(sub.last_charge_timestamp, CREATED);
    assert!(sub.is_active);
}

#[test]
fn substituted_user_account_fails_account_mismatch() {
    let mut sub = fresh(false, None);
    let wrong = TokenAccountRef { key: key(9), owned_by_token_program: true };
    let result =
        charge_subscription(&mut sub, &wrong, &recipient_account(), CREATED + INTERVAL, true);
    assert_eq!(result, Err(ErrorCode::AccountMismatch));
    assert_eq!(sub.total_charged, 0);
}

#[test]
fn foreign_held_recipient_account_fails_account_mismatch() {
    let mut sub = fresh(false, None);
    let unheld = TokenAccountRef { key: key(4), owned_by_token_program: false };
    let result =
        charge_subscription(&mut sub, &user_account(), &unheld, CREATED + INTERVAL, true);
    assert_eq!(result, Err(ErrorCode::AccountMismatch));
}

#[test]
fn update_overwrites_only_provided_fields() {
    let mut sub = fresh(true, None);
    let result = update_subscription(&mut sub, &owner(), Some(7), None, Some(CREATED + 500));
    assert_eq!(result, Ok(()));
    assert_eq!(sub.amount_per_period, 7);
    assert_eq!(sub.interval_seconds, INTERVAL);
    assert_eq!(sub.expires_at, Some(CREATED + 500));
    assert_eq!(sub.total_charged, AMOUNT);
    assert_eq!(sub.last_charge_timestamp, CREATED);
}

#[test]
fn update_with_no_fields_changes_nothing() {
    let mut sub = fresh(false, Some(CREATED + 9));
    let result = update_subscription(&mut sub, &owner(), None, None, None);
    assert_eq!(result, Ok(()));
    assert_eq!(sub.amount_per_period, AMOUNT);
    assert_eq!(sub.interval_seconds, INTERVAL);
    assert_eq!(sub.expires_at, Some(CREATED + 9));
}

#[test]
fn cleanup_requires_cancelled_record() {
    let mut sub = fresh(false, None);
    assert_eq!(cleanup_cancelled_subscription(&sub), Err(ErrorCode::StillActive));
    cancel_subscription(&mut sub, &owner()).unwrap();
    assert_eq!(cleanup_cancelled_subscription(&sub), Ok(()));
}

#[test]
fn total_equals_charge_count_times_amount() {
    let mut sub = fresh(false, None);
    for i in 1..=3i64 {
        let result = charge_subscription(
            &mut sub,
            &user_account(),
            &recipient_account(),
            CREATED + i * INTERVAL,
            true,
        );
        assert_eq!(result, Ok(()));
    }
    assert_eq!(sub.total_charged, 3 * AMOUNT);
}

#[test]
fn zero_interval_allows_back_to_back_charges() {
    let mut sub = initialize_subscription(
        owner(),
        key(2),
        key(3),
        key(4),
        key(5),
        AMOUNT,
        0,
        None,
        CREATED,
        false,
        true,
    )
    .unwrap();
    let t = CREATED;
    assert_eq!(
        charge_subscription(&mut sub, &user_account(), &recipient_account(), t, true),
        Ok(())
    );
    assert_eq!(
        charge_subscription(&mut sub, &user_account(), &recipient_account(), t, true),
        Ok(())
    );
    assert_eq!(sub.total_charged, 2 * AMOUNT);
}

#[test]
fn pre_epoch_timestamps_charge_normally() {
    let mut sub = initialize_subscription(
        owner(),
        key(2),
        key(3),
        key(4),
        key(5),
        AMOUNT,
        50,
        None,
        -100,
        false,
        true,
    )
    .unwrap();
    assert_eq!(sub.last_charge_timestamp, -100);
    let early = charge_subscription(&mut sub, &user_account(), &recipient_account(), -51, true);
    assert_eq!(early, Err(ErrorCode::IntervalNotElapsed));
    let result = charge_subscription(&mut sub, &user_account(), &recipient_account(), -50, true);
    assert_eq!(result, Ok(()));
    assert_eq!(sub.last_charge_timestamp, -50);
    assert_eq!(sub.total_charged, AMOUNT);
}

#[test]
fn delegation_instruction_targets_token_program() {
    let sub = fresh(false, None);
    let record_address = key(8);
    let ix = delegation_instruction(&sub, &record_address);
    assert_eq!(ix.program_id, spl_token::id());
    assert_eq!(ix.accounts[0].pubkey, sub.user_token_account);
    assert_eq!(ix.accounts[1].pubkey, record_address);
    assert_eq!(ix.accounts[2].pubkey, sub.authority);
}

#[test]
fn charge_transfer_instruction_moves_one_period() {
    let sub = fresh(false, None);
    let record_address = key(8);
    let ix = charge_transfer_instruction(&sub, &record_address);
    assert_eq!(ix.program_id, spl_token::id());
    assert_eq!(ix.accounts[0].pubkey, sub.user_token_account);
    assert_eq!(ix.accounts[1].pubkey, sub.recipient_token_account);
    assert_eq!(ix.accounts[2].pubkey, record_address);
    // Tag 3 is the token program's transfer, then the amount in
    // little-endian bytes.
    assert_eq!(ix.data[0], 3);
    assert_eq!(&ix.data[1..9], &AMOUNT.to_le_bytes());
}

#[test]
fn revocation_instruction_releases_user_account() {
    let sub = fresh(false, None);
    let ix = revocation_instruction(&sub);
    assert_eq!(ix.program_id, spl_token::id());
    assert_eq!(ix.accounts[0].pubkey, sub.user_token_account);
    assert_eq!(ix.accounts[1].pubkey, sub.authority);
}
