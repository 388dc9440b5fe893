//! The subscription record and its state machine.
//!
//! A record is created once by its owner, charged by anyone at bounded
//! intervals, and updated or cancelled by the owner alone. Every operation
//! is a total state transition: it either commits the documented effect or
//! returns the one error naming the first violated precondition and leaves
//! the record untouched. The fund movement itself is the ledger substrate's
//! job; its outcome enters each transition as an argument, so the contracts
//! hold whatever the substrate did.

use anchor_lang::prelude::Pubkey;
use anchor_lang::solana_program::instruction::Instruction;
use vstd::prelude::*;

use crate::ledger::{
    approve_ix_of, build_approve_instruction, build_revoke_instruction, build_transfer_instruction,
    pubkey_eq, revoke_ix_of, transfer_ix_of,
};

verus! {

/// Why an operation was refused. Each variant names the first precondition
/// that the refused invocation violated; none is transient from the
/// engine's point of view.
#[derive(Clone, Copy, Debug, PartialEq, Eq, Structural)]
pub enum ErrorCode {
    /// A charge or update reached a record that is no longer active.
    NotActive,
    /// A charge arrived at or past the record's expiry time.
    Expired,
    /// A charge arrived before `interval_seconds` had passed since the
    /// last successful charge.
    IntervalNotElapsed,
    /// A cancel reached a record that was already cancelled.
    AlreadyCancelled,
    /// A cleanup reached a record that has not been cancelled yet.
    StillActive,
    /// A supplied funds account is not the one recorded at initialization,
    /// or is not held by the fund-custody program.
    AccountMismatch,
    /// The underlying funds movement failed; the whole operation rolled
    /// back with it.
    TransferFailed,
    /// A cancel or update came from a caller other than the owner.
    Unauthorized,
}

/// A caller-supplied funds account as seen at invocation time: its address
/// and whether the fund-custody program holds it. A charge checks both
/// against the record, which defends against substitution of a different
/// account at call time.
#[derive(Clone, Copy)]
pub struct TokenAccountRef {
    pub key: Pubkey,
    pub owned_by_token_program: bool,
}

/// The subscription record: the one persistent entity of the engine.
///
/// The owner (`authority`) pre-authorizes pulls of `amount_per_period`
/// from `user_token_account` to `recipient_token_account`, no more often
/// than every `interval_seconds`. The five addresses are fixed at
/// creation; only the schedule parameters can change, and only by the
/// owner's hand.
#[derive(Clone, Copy, Debug)]
pub struct Subscription {
    pub authority: Pubkey,
    pub recipient: Pubkey,
    pub user_token_account: Pubkey,
    pub recipient_token_account: Pubkey,
    pub token_mint: Pubkey,
    pub amount_per_period: u64,
    pub interval_seconds: i64,
    pub last_charge_timestamp: i64,
    pub created_at: i64,
    pub expires_at: Option<i64>,
    pub is_active: bool,
    pub total_charged: u64,
}

impl Subscription {
    /// Well-formedness: every committed record keeps these field domains.
    /// Timestamps are unconstrained signed epoch seconds; the interval
    /// arithmetic is exact for any of them.
    pub open spec fn wf(self) -> bool {
        &&& self.amount_per_period > 0
        &&& self.interval_seconds >= 0
    }

    /// The record's expiry has been reached at time `now`.
    pub open spec fn expired(self, now: i64) -> bool {
        self.expires_at matches Some(e) && now >= e
    }

    /// At least `interval_seconds` have passed since the last charge.
    pub open spec fn interval_elapsed(self, now: i64) -> bool {
        now - self.last_charge_timestamp >= self.interval_seconds
    }

    /// The supplied funds accounts are the recorded ones, and both are
    /// held by the fund-custody program.
    pub open spec fn accounts_match(
        self,
        user: TokenAccountRef,
        recipient: TokenAccountRef,
    ) -> bool {
        &&& user.owned_by_token_program
        &&& recipient.owned_by_token_program
        &&& user.key == self.user_token_account
        &&& recipient.key == self.recipient_token_account
    }

    /// Every precondition of a charge at time `now` holds.
    pub open spec fn charge_permitted(
        self,
        user: TokenAccountRef,
        recipient: TokenAccountRef,
        now: i64,
    ) -> bool {
        &&& self.is_active
        &&& !self.expired(now)
        &&& self.interval_elapsed(now)
        &&& self.accounts_match(user, recipient)
    }

    /// The first violated charge precondition, in the order they are
    /// checked.
    pub open spec fn charge_error(
        self,
        user: TokenAccountRef,
        recipient: TokenAccountRef,
        now: i64,
    ) -> ErrorCode {
        if !self.is_active {
            ErrorCode::NotActive
        } else if self.expired(now) {
            ErrorCode::Expired
        } else if !self.interval_elapsed(now) {
            ErrorCode::IntervalNotElapsed
        } else if !self.accounts_match(user, recipient) {
            ErrorCode::AccountMismatch
        } else {
            ErrorCode::TransferFailed
        }
    }

    /// The record after a committed charge at time `now`: the schedule
    /// advances and the running total grows by exactly one period's amount.
    pub open spec fn after_charge(self, now: i64) -> Subscription {
        Subscription {
            last_charge_timestamp: now,
            total_charged: (self.total_charged + self.amount_per_period) as u64,
            ..self
        }
    }

    /// The complete charge transition: what a charge invocation at time
    /// `now` commits, or why it refuses, given the substrate's report
    /// `transfer_ok` on the funds movement.
    pub open spec fn charge_outcome(
        self,
        user: TokenAccountRef,
        recipient: TokenAccountRef,
        now: i64,
        transfer_ok: bool,
    ) -> Result<Subscription, ErrorCode> {
        if self.charge_permitted(user, recipient, now) && transfer_ok {
            Ok(self.after_charge(now))
        } else {
            Err(self.charge_error(user, recipient, now))
        }
    }
    /// Every precondition of a cancel by `caller` holds.
    pub open spec fn cancel_permitted(self, caller: Pubkey) -> bool {
        caller == self.authority && self.is_active
    }

    /// The first violated cancel precondition, in the order they are
    /// checked.
    pub open spec fn cancel_error(self, caller: Pubkey) -> ErrorCode {
        if caller != self.authority {
            ErrorCode::Unauthorized
        } else {
            ErrorCode::AlreadyCancelled
        }
    }

    /// The record after a committed cancel: inactive, all else kept.
    pub open spec fn after_cancel(self) -> Subscription {
        Subscription { is_active: false, ..self }
    }

    /// The complete cancel transition.
    pub open spec fn cancel_outcome(self, caller: Pubkey) -> Result<Subscription, ErrorCode> {
        if self.cancel_permitted(caller) {
            Ok(self.after_cancel())
        } else {
            Err(self.cancel_error(caller))
        }
    }

    /// Every precondition of an update by `caller` holds.
    pub open spec fn update_permitted(self, caller: Pubkey) -> bool {
        caller == self.authority && self.is_active
    }

    /// The first violated update precondition, in the order they are
    /// checked.
    pub open spec fn update_error(self, caller: Pubkey) -> ErrorCode {
        if caller != self.authority {
            ErrorCode::Unauthorized
        } else {
            ErrorCode::NotActive
        }
    }

    /// The record after a committed update: each provided field overwrites
    /// its counterpart, unset ones are left untouched, and neither the
    /// running total nor the schedule position moves.
    pub open spec fn after_update(
        self,
        new_amount: Option<u64>,
        new_interval: Option<i64>,
        new_expires_at: Option<i64>,
    ) -> Subscription {
        Subscription {
            amount_per_period: match new_amount {
                Some(a) => a,
                None => self.amount_per_period,
            },
            interval_seconds: match new_interval {
                Some(i) => i,
                None => self.interval_seconds,
            },
            expires_at: match new_expires_at {
                Some(e) => Some(e),
                None => self.expires_at,
            },
            ..self
        }
    }

    /// The complete update transition.
    pub open spec fn update_outcome(
        self,
        caller: Pubkey,
        new_amount: Option<u64>,
        new_interval: Option<i64>,
        new_expires_at: Option<i64>,
    ) -> Result<Subscription, ErrorCode> {
        if self.update_permitted(caller) {
            Ok(self.after_update(new_amount, new_interval, new_expires_at))
        } else {
            Err(self.update_error(caller))
        }
    }
}

/// Create a subscription record, owner-signed and one-time.
///
/// The record lives at a deterministic address the substrate derives from
/// (owner, recipient), so at most one record per pairing can exist and it
/// can be found without an index.
/// The substrate grants the record its delegated allowance in the same
/// atomic unit (see [`delegation_instruction`]). Two first-charge policies
/// are supported: deferred (`prepaid == false`), where no funds move and
/// the first charge waits one full interval from creation; and prepaid,
/// where the first period is pulled inside initialization itself, so
/// `total_charged` starts at one period's amount. Under either policy
/// `last_charge_timestamp` starts at the creation time. `transfer_ok` is
/// the substrate's report on the prepaid pull; when it failed, no record
/// comes into being.
pub fn initialize_subscription(
    authority: Pubkey,
    recipient: Pubkey,
    user_token_account: Pubkey,
    recipient_token_account: Pubkey,
    token_mint: Pubkey,
    amount_per_period: u64,
    interval_seconds: i64,
    expires_at: Option<i64>,
    now: i64,
    prepaid: bool,
    transfer_ok: bool,
) -> (result: Result<Subscription, ErrorCode>)
    requires
        amount_per_period > 0,
        interval_seconds >= 0,
    ensures
        result is Ok <==> (!prepaid || transfer_ok),
        result matches Err(e) ==> e == ErrorCode::TransferFailed,
        result matches Ok(s) ==> {
            &&& s.authority == authority
            &&& s.recipient == recipient
            &&& s.user_token_account == user_token_account
            &&& s.recipient_token_account == recipient_token_account
            &&& s.token_mint == token_mint
            &&& s.amount_per_period == amount_per_period
            &&& s.interval_seconds == interval_seconds
            &&& s.last_charge_timestamp == now
            &&& s.created_at == now
            &&& s.expires_at == expires_at
            &&& s.is_active
            &&& s.total_charged == if prepaid {
                amount_per_period
            } else {
                0u64
            }
            &&& s.wf()
        },
{
    if prepaid && !transfer_ok {
        return Err(ErrorCode::TransferFailed);
    }
    let total_charged: u64 = if prepaid {
        amount_per_period
    } else {
        0
    };
    Ok(
        Subscription {
            authority,
            recipient,
            user_token_account,
            recipient_token_account,
            token_mint,
            amount_per_period,
            interval_seconds,
            last_charge_timestamp: now,
            created_at: now,
            expires_at,
            is_active: true,
            total_charged,
        },
    )
}

/// Charge the subscription: one authorized pull of `amount_per_period`,
/// invocable by any party holding the record.
///
/// `now` is the substrate's trusted current time and `transfer_ok` its
/// report on the delegated funds movement. The call commits exactly
/// [`Subscription::charge_outcome`]: on any refusal — including a failed
/// transfer — the record is left word-for-word unchanged, so the schedule
/// never advances without funds actually moving.
pub fn charge_subscription(
    sub: &mut Subscription,
    user: &TokenAccountRef,
    recipient: &TokenAccountRef,
    now: i64,
    transfer_ok: bool,
) -> (result: Result<(), ErrorCode>)
    requires
        old(sub).wf(),
        old(sub).charge_permitted(*user, *recipient, now) && transfer_ok ==> old(
            sub,
        ).total_charged + old(sub).amount_per_period <= u64::MAX,
    ensures
        final(sub).wf(),
        result is Ok <==> old(sub).charge_permitted(*user, *recipient, now) && transfer_ok,
        match old(sub).charge_outcome(*user, *recipient, now, transfer_ok) {
            Ok(s) => result is Ok && *final(sub) == s,
            Err(e) => result == Err::<(), ErrorCode>(e) && *final(sub) == *old(sub),
        },
{
    if !sub.is_active {
        return Err(ErrorCode::NotActive);
    }
    match sub.expires_at {
        Some(e) => {
            if now >= e {
                return Err(ErrorCode::Expired);
            }
        },
        None => {},
    }
    if (now as i128) - (sub.last_charge_timestamp as i128) < (sub.interval_seconds as i128) {
        return Err(ErrorCode::IntervalNotElapsed);
    }
    let accounts_ok: bool = user.owned_by_token_program && recipient.owned_by_token_program
        && pubkey_eq(&user.key, &sub.user_token_account)
        && pubkey_eq(&recipient.key, &sub.recipient_token_account);
    if !accounts_ok {
        return Err(ErrorCode::AccountMismatch);
    }
    if !transfer_ok {
        return Err(ErrorCode::TransferFailed);
    }
    sub.last_charge_timestamp = now;
    sub.total_charged = sub.total_charged + sub.amount_per_period;
    Ok(())
}

/// Cancel the subscription: owner-only, and rejected — not a no-op — when
/// the record is already inactive, so misuse is signalled to the caller.
///
/// Commits exactly [`Subscription::cancel_outcome`]. The substrate revokes
/// the record's standing allowance in the same atomic unit (see
/// [`revocation_instruction`]), so once the record is inactive it can no
/// longer pull funds even through a later bug.
pub fn cancel_subscription(sub: &mut Subscription, caller: &Pubkey) -> (result: Result<
    (),
    ErrorCode,
>)
    ensures
        result is Ok <==> old(sub).cancel_permitted(*caller),
        match old(sub).cancel_outcome(*caller) {
            Ok(s) => result is Ok && *final(sub) == s,
            Err(e) => result == Err::<(), ErrorCode>(e) && *final(sub) == *old(sub),
        },
{
    if !pubkey_eq(caller, &sub.authority) {
        return Err(ErrorCode::Unauthorized);
    }
    if !sub.is_active {
        return Err(ErrorCode::AlreadyCancelled);
    }
    sub.is_active = false;
    Ok(())
}

/// Update the schedule parameters: owner-only, while active.
///
/// Commits exactly [`Subscription::update_outcome`]: provided fields
/// overwrite their counterparts for future charges only — `total_charged`,
/// `last_charge_timestamp` and the five addresses never move, so an update
/// cannot rewrite the record's charging history. No funds move.
pub fn update_subscription(
    sub: &mut Subscription,
    caller: &Pubkey,
    new_amount: Option<u64>,
    new_interval: Option<i64>,
    new_expires_at: Option<i64>,
) -> (result: Result<(), ErrorCode>)
    requires
        old(sub).wf(),
        new_amount matches Some(a) ==> a > 0,
        new_interval matches Some(i) ==> i >= 0,
    ensures
        final(sub).wf(),
        result is Ok <==> old(sub).update_permitted(*caller),
        match old(sub).update_outcome(*caller, new_amount, new_interval, new_expires_at) {
            Ok(s) => result is Ok && *final(sub) == s,
            Err(e) => result == Err::<(), ErrorCode>(e) && *final(sub) == *old(sub),
        },
{
    if !pubkey_eq(caller, &sub.authority) {
        return Err(ErrorCode::Unauthorized);
    }
    if !sub.is_active {
        return Err(ErrorCode::NotActive);
    }
    match new_amount {
        Some(a) => {
            sub.amount_per_period = a;
        },
        None => {},
    }
    match new_interval {
        Some(i) => {
            sub.interval_seconds = i;
        },
        None => {},
    }
    match new_expires_at {
        Some(e) => {
            sub.expires_at = Some(e);
        },
        None => {},
    }
    Ok(())
}

/// Decide whether an already-cancelled record may be physically removed
/// and its storage deposit returned to the owner. Permissionless; the
/// removal itself is the substrate's job.
pub fn cleanup_cancelled_subscription(sub: &Subscription) -> (result: Result<(), ErrorCode>)
    ensures
        result is Ok <==> !sub.is_active,
        result matches Err(e) ==> e == ErrorCode::StillActive,
{
    if sub.is_active {
        Err(ErrorCode::StillActive)
    } else {
        Ok(())
    }
}

/// The delegation grant that initialization hands to the substrate: it
/// makes the record (living at `record_address`) the delegate over the
/// owner's funds account. The allowance is effectively unbounded — the
/// substrate's allowance primitive has no incremental top-up that the
/// record could refill without the owner's signature — so the engine's own
/// interval and amount checks are the enforced bound on actual movement;
/// a deliberate trade-off, not an oversight.
pub fn delegation_instruction(sub: &Subscription, record_address: &Pubkey) -> (r: Instruction)
    ensures
        r == approve_ix_of(sub.user_token_account, *record_address, sub.authority, u64::MAX),
{
    build_approve_instruction(&sub.user_token_account, record_address, &sub.authority, u64::MAX)
}

/// The funds movement of one charge: exactly `amount_per_period` from the
/// owner's funds account to the recipient's, authorized by the record
/// itself (at `record_address`) as delegate, so no owner signature is
/// needed at charge time.
pub fn charge_transfer_instruction(sub: &Subscription, record_address: &Pubkey) -> (r: Instruction)
    ensures
        r == transfer_ix_of(
            sub.user_token_account,
            sub.recipient_token_account,
            *record_address,
            sub.amount_per_period,
        ),
{
    build_transfer_instruction(
        &sub.user_token_account,
        &sub.recipient_token_account,
        record_address,
        sub.amount_per_period,
    )
}

/// The revocation that cancellation hands to the substrate: it withdraws
/// the record's standing allowance over the owner's funds account, in the
/// same atomic unit that deactivates the record.
pub fn revocation_instruction(sub: &Subscription) -> (r: Instruction)
    ensures
        r == revoke_ix_of(sub.user_token_account, sub.authority),
{
    build_revoke_instruction(&sub.user_token_account, &sub.authority)
}

} // verus!
