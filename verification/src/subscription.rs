//! Subscription management: tier selection, trial-period gating, fee payment,
//! and the read-only expiry check.

use vstd::prelude::*;

use crate::config::BASIC_FEE;
use crate::config::ENTERPRISE_FEE;
use crate::config::MONTHLY_PERIOD;
use crate::config::PREMIUM_FEE;
use crate::config::TRIAL_PERIOD;
use crate::errors::ErrorCode;
use crate::ledger::AccountId;
use crate::ledger::transfer;
use crate::ledger::transfer_ok;

verus! {

/// A user's subscription record: the tier held, and the time of the last
/// successful payment or trial activation.  A `last_payment` of zero is the
/// sentinel for a user who has never paid.
#[derive(Clone, Copy, Debug, PartialEq, Eq, Structural)]
pub struct UserData {
    pub subscription_tier: u8,
    pub last_payment: i64,
}

/// Everything a subscription-management call reads and writes: the user's
/// subscription record, the caller's identity and balance, and the
/// fee-receiver's identity and balance.
#[derive(Clone, Copy, Debug, PartialEq, Eq, Structural)]
pub struct ManageSubscription {
    pub user_data: UserData,
    pub user: AccountId,
    pub user_balance: u64,
    pub fee_receiver: AccountId,
    pub fee_receiver_balance: u64,
}

/// Everything the read-only subscription check reads.
#[derive(Clone, Copy, Debug, PartialEq, Eq, Structural)]
pub struct CheckSubscription {
    pub user_data: UserData,
}

/// Whether `subscription_tier` names one of the three tiers: 0 Basic,
/// 1 Premium, 2 Enterprise.
pub open spec fn tier_valid(subscription_tier: u8) -> bool {
    subscription_tier == 0 || subscription_tier == 1 || subscription_tier == 2
}

/// The recurring fee of a valid tier.
pub open spec fn spec_tier_fee(subscription_tier: u8) -> u64 {
    if subscription_tier == 0 {
        BASIC_FEE
    } else if subscription_tier == 1 {
        PREMIUM_FEE
    } else {
        ENTERPRISE_FEE
    }
}

/// Whether a call at `current_time` by a user who last paid at `last_payment`
/// is fee-exempt: the user has never paid (zero sentinel), or the last
/// payment lies less than the trial period in the past.  Every successful
/// payment therefore opens a fresh fourteen-day window of free tier changes.
pub open spec fn trial_exempt(current_time: int, last_payment: int) -> bool {
    last_payment == 0 || current_time - last_payment < TRIAL_PERIOD
}

/// Whether a subscription last paid at `last_payment` counts as expired at
/// `current_time`: the monthly period has fully elapsed (at the boundary
/// itself the subscription is already expired).
pub open spec fn subscription_expired(current_time: int, last_payment: int) -> bool {
    current_time - last_payment >= MONTHLY_PERIOD
}

/// The outcome of a subscription-management call: the updated state on
/// success, or the error that aborts the call with no state change.
pub open spec fn manage_outcome(
    s: ManageSubscription,
    subscription_tier: u8,
    current_time: i64,
) -> Result<ManageSubscription, ErrorCode> {
    if !tier_valid(subscription_tier) {
        Err(ErrorCode::InvalidSubscriptionTier)
    } else if trial_exempt(current_time as int, s.user_data.last_payment as int) {
        Ok(
            ManageSubscription {
                user_data: UserData { subscription_tier, last_payment: current_time },
                user: s.user,
                user_balance: s.user_balance,
                fee_receiver: s.fee_receiver,
                fee_receiver_balance: s.fee_receiver_balance,
            },
        )
    } else if transfer_ok(
        s.user_balance as int,
        s.fee_receiver_balance as int,
        spec_tier_fee(subscription_tier) as int,
    ) {
        Ok(
            ManageSubscription {
                user_data: UserData { subscription_tier, last_payment: current_time },
                user: s.user,
                user_balance: (s.user_balance - spec_tier_fee(subscription_tier)) as u64,
                fee_receiver: s.fee_receiver,
                fee_receiver_balance: (s.fee_receiver_balance + spec_tier_fee(
                    subscription_tier,
                )) as u64,
            },
        )
    } else {
        Err(ErrorCode::TransferFailed)
    }
}

/// The fee of the requested tier, or `InvalidSubscriptionTier` for any other
/// value.
pub fn tier_fee(subscription_tier: u8) -> (r: Result<u64, ErrorCode>)
    ensures
        r is Ok <==> tier_valid(subscription_tier),
        r is Ok ==> r->Ok_0 == spec_tier_fee(subscription_tier),
        r is Err ==> r->Err_0 == ErrorCode::InvalidSubscriptionTier,
{
    match subscription_tier {
        0 => Ok(BASIC_FEE),
        1 => Ok(PREMIUM_FEE),
        2 => Ok(ENTERPRISE_FEE),
        _ => Err(ErrorCode::InvalidSubscriptionTier),
    }
}

/// Whether a call now is fee-exempt; the runtime counterpart of
/// [`trial_exempt`].
pub fn within_trial(current_time: i64, last_payment: i64) -> (b: bool)
    ensures
        b == trial_exempt(current_time as int, last_payment as int),
{
    last_payment == 0 || (current_time as i128) - (last_payment as i128) < (TRIAL_PERIOD as i128)
}

/// Selects the requested tier for the caller, collecting the tier's fee
/// unless the call falls inside a trial window.
///
/// On success the record holds the requested tier and the current time; a
/// non-exempt call moves exactly the tier's fee from the caller to the
/// fee-receiver, and an exempt call moves nothing.  On any error the whole
/// state is left untouched.
pub fn manage_subscription(
    ctx: &mut ManageSubscription,
    subscription_tier: u8,
    current_time: i64,
) -> (r: Result<(), ErrorCode>)
    ensures
        r is Ok <==> manage_outcome(*old(ctx), subscription_tier, current_time) is Ok,
        r is Ok ==> *final(ctx) == manage_outcome(*old(ctx), subscription_tier, current_time)->Ok_0,
        r is Err ==> *final(ctx) == *old(ctx),
        r is Err ==> r->Err_0 == manage_outcome(*old(ctx), subscription_tier, current_time)->Err_0,
{
    let fee = match tier_fee(subscription_tier) {
        Ok(f) => f,
        Err(e) => {
            return Err(e);
        },
    };
    if within_trial(current_time, ctx.user_data.last_payment) {
        ctx.user_data.subscription_tier = subscription_tier;
        ctx.user_data.last_payment = current_time;
        return Ok(());
    }
    match transfer(ctx.user_balance, ctx.fee_receiver_balance, fee) {
        Ok((new_user_balance, new_receiver_balance)) => {
            ctx.user_balance = new_user_balance;
            ctx.fee_receiver_balance = new_receiver_balance;
            ctx.user_data.subscription_tier = subscription_tier;
            ctx.user_data.last_payment = current_time;
            Ok(())
        },
        Err(e) => Err(e),
    }
}

/// Reports whether the caller's subscription is still active: it returns
/// `SubscriptionExpired` exactly when the monthly period has elapsed since
/// the last payment, and reads no other field.
pub fn check_subscription(ctx: &CheckSubscription, current_time: i64) -> (r: Result<
    (),
    ErrorCode,
>)
    ensures
        r is Err <==> subscription_expired(
            current_time as int,
            ctx.user_data.last_payment as int,
        ),
        r is Err ==> r->Err_0 == ErrorCode::SubscriptionExpired,
{
    if (current_time as i128) - (ctx.user_data.last_payment as i128) >= (MONTHLY_PERIOD as i128) {
        Err(ErrorCode::SubscriptionExpired)
    } else {
        Ok(())
    }
}

/// An invalid tier is always rejected, whatever the user's state; together
/// with `manage_subscription`'s contract, the call then leaves the record and
/// both balances unchanged.
pub proof fn lemma_invalid_tier_rejected(s: ManageSubscription, subscription_tier: u8, current_time: i64)
    requires
        !tier_valid(subscription_tier),
    ensures
        manage_outcome(s, subscription_tier, current_time) == Err::<
            ManageSubscription,
            ErrorCode,
        >(ErrorCode::InvalidSubscriptionTier),
{
}

/// A brand-new user (zero sentinel in `last_payment`) gets any valid tier for
/// free: the call succeeds, moves no balance, and stamps the current time.
pub proof fn lemma_new_user_pays_nothing(s: ManageSubscription, subscription_tier: u8, current_time: i64)
    requires
        tier_valid(subscription_tier),
        s.user_data.last_payment == 0,
    ensures
        manage_outcome(s, subscription_tier, current_time) is Ok,
        manage_outcome(s, subscription_tier, current_time)->Ok_0.user_balance == s.user_balance,
        manage_outcome(s, subscription_tier, current_time)->Ok_0.fee_receiver_balance
            == s.fee_receiver_balance,
        manage_outcome(s, subscription_tier, current_time)->Ok_0.user_data.subscription_tier
            == subscription_tier,
        manage_outcome(s, subscription_tier, current_time)->Ok_0.user_data.last_payment
            == current_time,
{
}

/// A user whose last payment lies less than the trial period in the past
/// changes tier for free, exactly as a brand-new user does.
pub proof fn lemma_trial_window_reuse(s: ManageSubscription, subscription_tier: u8, current_time: i64)
    requires
        tier_valid(subscription_tier),
        current_time - s.user_data.last_payment < TRIAL_PERIOD,
    ensures
        manage_outcome(s, subscription_tier, current_time) is Ok,
        manage_outcome(s, subscription_tier, current_time)->Ok_0.user_balance == s.user_balance,
        manage_outcome(s, subscription_tier, current_time)->Ok_0.fee_receiver_balance
            == s.fee_receiver_balance,
        manage_outcome(s, subscription_tier, current_time)->Ok_0.user_data.subscription_tier
            == subscription_tier,
        manage_outcome(s, subscription_tier, current_time)->Ok_0.user_data.last_payment
            == current_time,
{
}

/// Outside every trial window, a tier change moves exactly the tier's fee
/// from the caller to the fee-receiver when the transfer can go through, and
/// fails with `TransferFailed` when it cannot.
pub proof fn lemma_paid_tier_change(s: ManageSubscription, subscription_tier: u8, current_time: i64)
    requires
        tier_valid(subscription_tier),
        !trial_exempt(current_time as int, s.user_data.last_payment as int),
    ensures
        transfer_ok(
            s.user_balance as int,
            s.fee_receiver_balance as int,
            spec_tier_fee(subscription_tier) as int,
        ) ==> {
            let out = manage_outcome(s, subscription_tier, current_time);
            &&& out is Ok
            &&& out->Ok_0.user_balance == s.user_balance - spec_tier_fee(subscription_tier)
            &&& out->Ok_0.fee_receiver_balance == s.fee_receiver_balance + spec_tier_fee(
                subscription_tier,
            )
            &&& out->Ok_0.user_data.subscription_tier == subscription_tier
            &&& out->Ok_0.user_data.last_payment == current_time
        },
        !transfer_ok(
            s.user_balance as int,
            s.fee_receiver_balance as int,
            spec_tier_fee(subscription_tier) as int,
        ) ==> manage_outcome(s, subscription_tier, current_time) == Err::<
            ManageSubscription,
            ErrorCode,
        >(ErrorCode::TransferFailed),
{
}

/// Two sequential calls outside any trial window each pay their own tier's
/// fee, and the record keeps only the most recent payment time: a paid call
/// grants a fresh trial window, but once that window has also elapsed the
/// next call pays again in full.
pub proof fn lemma_sequential_paid_calls(
    s: ManageSubscription,
    first_tier: u8,
    first_time: i64,
    second_tier: u8,
    second_time: i64,
)
    requires
        tier_valid(first_tier),
        tier_valid(second_tier),
        0 <= s.user_data.last_payment,
        !trial_exempt(first_time as int, s.user_data.last_payment as int),
        second_time - first_time >= TRIAL_PERIOD,
        s.user_balance >= spec_tier_fee(first_tier) + spec_tier_fee(second_tier),
        s.fee_receiver_balance + spec_tier_fee(first_tier) + spec_tier_fee(second_tier)
            <= u64::MAX,
    ensures
        manage_outcome(s, first_tier, first_time) is Ok,
        ({
            let s1 = manage_outcome(s, first_tier, first_time)->Ok_0;
            &&& !trial_exempt(second_time as int, s1.user_data.last_payment as int)
            &&& manage_outcome(s1, second_tier, second_time) is Ok
            &&& manage_outcome(s1, second_tier, second_time)->Ok_0.user_balance == s.user_balance
                - spec_tier_fee(first_tier) - spec_tier_fee(second_tier)
            &&& manage_outcome(s1, second_tier, second_time)->Ok_0.fee_receiver_balance
                == s.fee_receiver_balance + spec_tier_fee(first_tier) + spec_tier_fee(second_tier)
            &&& manage_outcome(s1, second_tier, second_time)->Ok_0.user_data.last_payment
                == second_time
        }),
{
}

/// Across successful calls under a non-decreasing clock, `last_payment`
/// never moves backwards.
pub proof fn lemma_last_payment_monotonic(s: ManageSubscription, subscription_tier: u8, current_time: i64)
    requires
        manage_outcome(s, subscription_tier, current_time) is Ok,
        s.user_data.last_payment <= current_time,
    ensures
        manage_outcome(s, subscription_tier, current_time)->Ok_0.user_data.last_payment
            >= s.user_data.last_payment,
{
}

} // verus!

