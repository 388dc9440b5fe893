//! The engine's stated guarantees, proved once and for all over the
//! transition functions that the operations' own contracts commit to.

use anchor_lang::prelude::Pubkey;
use vstd::prelude::*;

use crate::subscription::{ErrorCode, Subscription, TokenAccountRef};

verus! {

/// The record after a run of committed charges, one at each time in
/// `times`, in order.
pub open spec fn after_charges(s: Subscription, times: Seq<i64>) -> Subscription
    decreases times.len(),
{
    if times.len() == 0 {
        s
    } else {
        after_charges(s.after_charge(times[0]), times.subrange(1, times.len() as int))
    }
}

/// Monotonic total: over any run of committed charges, `total_charged`
/// grows by exactly the count of charges times `amount_per_period`, which
/// itself never moves — so a record that starts at zero always shows
/// count times amount.
pub proof fn lemma_monotonic_total(s: Subscription, times: Seq<i64>)
    requires
        s.total_charged + times.len() * s.amount_per_period <= u64::MAX,
    ensures
        after_charges(s, times).amount_per_period == s.amount_per_period,
        after_charges(s, times).total_charged == s.total_charged + times.len()
            * s.amount_per_period,
    decreases times.len(),
{
    if times.len() > 0 {
        let rest = times.subrange(1, times.len() as int);
        assert(times.len() * s.amount_per_period == s.amount_per_period + rest.len()
            * s.amount_per_period) by (nonlinear_arith)
            requires
                times.len() >= 1,
                rest.len() == times.len() - 1,
        ;
        assert(rest.len() * s.amount_per_period >= 0) by (nonlinear_arith);
        lemma_monotonic_total(s.after_charge(times[0]), rest);
    }
}

/// Interval gate: a charge at time `t` succeeds only if at least
/// `interval_seconds` have passed since the last charge, and one attempted
/// earlier — on a live, unexpired record — refuses with exactly
/// `IntervalNotElapsed`.
pub proof fn lemma_interval_gate(
    s: Subscription,
    user: TokenAccountRef,
    recipient: TokenAccountRef,
    t: i64,
    transfer_ok: bool,
)
    ensures
        s.charge_outcome(user, recipient, t, transfer_ok) is Ok ==> t - s.last_charge_timestamp
            >= s.interval_seconds,
        s.is_active && !s.expired(t) && t - s.last_charge_timestamp < s.interval_seconds
            ==> s.charge_outcome(user, recipient, t, transfer_ok) == Err::<
            Subscription,
            ErrorCode,
        >(ErrorCode::IntervalNotElapsed),
{
}

/// Atomicity: when the substrate reports the funds transfer as failed, no
/// charge commits — and when everything else was in order, the refusal is
/// exactly `TransferFailed`. That a refused charge leaves the record
/// word-for-word unchanged is part of `charge_subscription`'s contract,
/// so a failed transfer never shows a phantom schedule advance.
pub proof fn lemma_charge_atomicity(
    s: Subscription,
    user: TokenAccountRef,
    recipient: TokenAccountRef,
    t: i64,
)
    ensures
        s.charge_outcome(user, recipient, t, false) is Err,
        s.charge_permitted(user, recipient, t) ==> s.charge_outcome(user, recipient, t, false)
            == Err::<Subscription, ErrorCode>(ErrorCode::TransferFailed),
{
}

/// Terminal lock: once a record is inactive, every charge refuses with
/// `NotActive`, whatever the other fields, the time, the accounts or the
/// transfer outcome — and so does every update from the owner (a
/// non-owner's update is refused as `Unauthorized` even earlier).
pub proof fn lemma_terminal_lock(
    s: Subscription,
    user: TokenAccountRef,
    recipient: TokenAccountRef,
    t: i64,
    transfer_ok: bool,
    caller: Pubkey,
    new_amount: Option<u64>,
    new_interval: Option<i64>,
    new_expires_at: Option<i64>,
)
    requires
        !s.is_active,
    ensures
        s.charge_outcome(user, recipient, t, transfer_ok) == Err::<Subscription, ErrorCode>(
            ErrorCode::NotActive,
        ),
        caller == s.authority ==> s.update_outcome(caller, new_amount, new_interval, new_expires_at)
            == Err::<Subscription, ErrorCode>(ErrorCode::NotActive),
{
}

/// Owner-only mutation: cancel and update refuse any caller other than
/// the record's owner, with `Unauthorized`, whatever else holds.
pub proof fn lemma_owner_only(
    s: Subscription,
    caller: Pubkey,
    new_amount: Option<u64>,
    new_interval: Option<i64>,
    new_expires_at: Option<i64>,
)
    requires
        caller != s.authority,
    ensures
        s.cancel_outcome(caller) == Err::<Subscription, ErrorCode>(ErrorCode::Unauthorized),
        s.update_outcome(caller, new_amount, new_interval, new_expires_at) == Err::<
            Subscription,
            ErrorCode,
        >(ErrorCode::Unauthorized),
{
}

/// Cancellation guard: a committed cancel makes the very next cancel by
/// the same owner refuse with `AlreadyCancelled` — cancelling twice is an
/// error, never a silent success.
pub proof fn lemma_cancel_guard(s: Subscription, caller: Pubkey)
    requires
        s.cancel_permitted(caller),
    ensures
        s.after_cancel().cancel_outcome(caller) == Err::<Subscription, ErrorCode>(
            ErrorCode::AlreadyCancelled,
        ),
{
}

/// Serialized exclusion: of two charge attempts at the same time `t`, on a
/// record whose interval is positive, at most one can commit — the record
/// the first leaves behind refuses the second with `IntervalNotElapsed`.
pub proof fn lemma_no_double_charge(
    s: Subscription,
    user: TokenAccountRef,
    recipient: TokenAccountRef,
    t: i64,
    transfer_ok: bool,
)
    requires
        s.interval_seconds > 0,
        s.charge_permitted(user, recipient, t),
    ensures
        s.after_charge(t).charge_outcome(user, recipient, t, transfer_ok) == Err::<
            Subscription,
            ErrorCode,
        >(ErrorCode::IntervalNotElapsed),
{
}

} // verus!
