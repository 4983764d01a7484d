//! Subscriptions on the three fixed plans, and the treasury they pay into.
use vstd::prelude::*;

use crate::error::DvpnError;
use crate::key::Key;
use crate::math::{elapsed_seconds, elapsed_spec, pro_rata_refund, refund_spec, split_revenue, split_spec, Split};
use crate::records::{
    plan_duration, plan_price, Node, Provider, Subscription, SubscriptionPlan, SubscriptionState,
    Treasury,
};

verus! {

/// The treasury, owned by `authority`, before it has collected anything.
pub fn initialize_treasury(authority: &Key) -> (t: Treasury)
    ensures
        t == (Treasury { authority: *authority, total_collected: 0 }),
{
    Treasury { authority: *authority, total_collected: 0 }
}

/// `s` is a fresh term of `plan` for `user`, bought at `now`.
pub open spec fn is_new_term(s: Subscription, user: Key, plan: SubscriptionPlan, now: i64) -> bool {
    &&& s.user == user
    &&& s.plan == plan
    &&& s.escrow_lamports == plan_price(plan)
    &&& s.start_ts == now
    &&& s.end_ts == now + plan_duration(plan)
    &&& s.state == SubscriptionState::Active
    &&& s.wf()
}

/// The end of a term of `plan` starting at `now`, where it fits in an `i64`.
fn term_end(plan: SubscriptionPlan, now: i64) -> (r: Option<i64>)
    ensures
        match r {
            Some(end) => end == now + plan_duration(plan),
            None => now + plan_duration(plan) > i64::MAX,
        },
{
    now.checked_add(plan.duration_seconds())
}

/// `user` subscribes to `plan` at `now`; the runtime moves the plan's price
/// from the user into the subscription's escrow. Fails only where the end of
/// the term overflows.
pub fn create_subscription(user: &Key, plan: SubscriptionPlan, now: i64) -> (r: Result<
    Subscription,
    DvpnError,
>)
    ensures
        match r {
            Ok(s) => is_new_term(s, *user, plan, now),
            Err(e) => e == DvpnError::MathOverflow && now + plan_duration(plan) > i64::MAX,
        },
{
    match term_end(plan, now) {
        Some(end_ts) => Ok(
            Subscription {
                user: *user,
                plan,
                escrow_lamports: plan.price(),
                start_ts: now,
                end_ts,
                state: SubscriptionState::Active,
            },
        ),
        None => Err(DvpnError::MathOverflow),
    }
}

/// Why `user` may not renew `sub` at `now` onto `plan`.
pub open spec fn renew_refusal(sub: Subscription, user: Key, plan: SubscriptionPlan, now: i64) -> Option<
    DvpnError,
> {
    if sub.user@ != user@ {
        Some(DvpnError::Unauthorized)
    } else if now < sub.end_ts && sub.state != SubscriptionState::Cancelled {
        Some(DvpnError::SubscriptionStillActive)
    } else if now + plan_duration(plan) > i64::MAX {
        Some(DvpnError::MathOverflow)
    } else {
        None
    }
}

/// Starts a new term once the previous one has expired or was cancelled:
/// plan, escrow and dates are replaced, and the runtime moves the new price
/// from the user into the escrow.
pub fn renew_subscription(sub: &mut Subscription, user: &Key, plan: SubscriptionPlan, now: i64) -> (r:
    Result<(), DvpnError>)
    ensures
        match r {
            Ok(()) => {
                &&& renew_refusal(*old(sub), *user, plan, now) is None
                &&& is_new_term(*final(sub), old(sub).user, plan, now)
            },
            Err(e) => {
                &&& renew_refusal(*old(sub), *user, plan, now) == Some(e)
                &&& *final(sub) == *old(sub)
            },
        },
{
    if !sub.user.same(user) {
        return Err(DvpnError::Unauthorized);
    }
    if now < sub.end_ts && sub.state != SubscriptionState::Cancelled {
        return Err(DvpnError::SubscriptionStillActive);
    }
    let end_ts = match term_end(plan, now) {
        Some(t) => t,
        None => {
            return Err(DvpnError::MathOverflow);
        },
    };
    sub.plan = plan;
    sub.escrow_lamports = plan.price();
    sub.start_ts = now;
    sub.end_ts = end_ts;
    sub.state = SubscriptionState::Active;
    Ok(())
}

/// Where a cancelled subscription's escrow goes: the used part to the
/// treasury, the unused part back to the user.
#[derive(Clone, Copy, Debug, PartialEq, Eq, Structural)]
pub struct Settlement {
    pub to_treasury: u64,
    pub to_user: u64,
}

/// Why `user` may not cancel `sub`.
pub open spec fn cancel_refusal(sub: Subscription, user: Key) -> Option<DvpnError> {
    if sub.user@ != user@ {
        Some(DvpnError::Unauthorized)
    } else if sub.state != SubscriptionState::Active {
        Some(DvpnError::SubscriptionNotActive)
    } else {
        None
    }
}

/// The user's refund for cancelling `sub` at `now`: pro rata to the unused
/// time.
pub open spec fn cancel_refund(sub: Subscription, now: i64) -> int {
    refund_spec(
        sub.escrow_lamports as int,
        elapsed_spec(sub.start_ts as int, now as int),
        sub.end_ts - sub.start_ts,
    )
}

/// The user cancels an active subscription. The unused part of the escrow
/// is refunded pro rata and the used part is swept to the treasury (the
/// runtime moves both); the escrow is then empty and the subscription
/// `Cancelled`.
pub fn cancel_subscription(sub: &mut Subscription, treasury: &mut Treasury, user: &Key, now: i64) -> (r:
    Result<Settlement, DvpnError>)
    requires
        old(sub).wf(),
    ensures
        final(sub).wf(),
        match r {
            Ok(settlement) => {
                &&& cancel_refusal(*old(sub), *user) is None
                &&& settlement.to_user == cancel_refund(*old(sub), now)
                &&& settlement.to_treasury + settlement.to_user == old(sub).escrow_lamports
                &&& *final(sub) == (Subscription {
                    escrow_lamports: 0,
                    state: SubscriptionState::Cancelled,
                    ..*old(sub)
                })
                &&& *final(treasury) == (Treasury {
                    total_collected: old(treasury).total_collected.saturating_add(
                        settlement.to_treasury,
                    ),
                    ..*old(treasury)
                })
            },
            Err(e) => {
                &&& cancel_refusal(*old(sub), *user) == Some(e)
                &&& *final(sub) == *old(sub)
                &&& *final(treasury) == *old(treasury)
            },
        },
{
    if !sub.user.same(user) {
        return Err(DvpnError::Unauthorized);
    }
    if sub.state != SubscriptionState::Active {
        return Err(DvpnError::SubscriptionNotActive);
    }
    let elapsed = elapsed_seconds(sub.start_ts, now);
    let total = ((sub.end_ts as i128) - (sub.start_ts as i128)) as u64;
    let refund = pro_rata_refund(sub.escrow_lamports, elapsed, total);
    let used = sub.escrow_lamports - refund;
    treasury.total_collected = treasury.total_collected.saturating_add(used);
    sub.escrow_lamports = 0;
    sub.state = SubscriptionState::Cancelled;
    Ok(Settlement { to_treasury: used, to_user: refund })
}

/// Why the provider whose key signed as `signer` may not claim `sub` at
/// `now`.
pub open spec fn subscription_claim_refusal(
    provider: Provider,
    provider_key: Key,
    node: Node,
    sub: Subscription,
    signer: Key,
    now: i64,
) -> Option<DvpnError> {
    if provider.authority@ != signer@ || node.provider@ != provider_key@ {
        Some(DvpnError::Unauthorized)
    } else if sub.state == SubscriptionState::Claimed {
        Some(DvpnError::SubscriptionAlreadyClaimed)
    } else if sub.state != SubscriptionState::Active {
        Some(DvpnError::SubscriptionNotActive)
    } else if now < sub.end_ts {
        Some(DvpnError::SubscriptionNotExpired)
    } else {
        None
    }
}

/// A provider claims an expired subscription's escrow, split 80/20 between
/// provider and treasury (the runtime moves both shares). The escrow is then
/// empty and the subscription `Claimed`.
pub fn claim_subscription(
    provider: &mut Provider,
    provider_key: &Key,
    node: &mut Node,
    sub: &mut Subscription,
    treasury: &mut Treasury,
    signer: &Key,
    now: i64,
) -> (r: Result<Split, DvpnError>)
    ensures
        match r {
            Ok(split) => {
                &&& subscription_claim_refusal(
                    *old(provider),
                    *provider_key,
                    *old(node),
                    *old(sub),
                    *signer,
                    now,
                ) is None
                &&& split == split_spec(old(sub).escrow_lamports)
                &&& *final(sub) == (Subscription {
                    escrow_lamports: 0,
                    state: SubscriptionState::Claimed,
                    ..*old(sub)
                })
                &&& *final(provider) == (Provider {
                    total_earnings: old(provider).total_earnings.saturating_add(
                        split.provider_share,
                    ),
                    ..*old(provider)
                })
                &&& *final(node) == (Node {
                    total_earnings: old(node).total_earnings.saturating_add(split.provider_share),
                    ..*old(node)
                })
                &&& *final(treasury) == (Treasury {
                    total_collected: old(treasury).total_collected.saturating_add(
                        split.treasury_share,
                    ),
                    ..*old(treasury)
                })
            },
            Err(e) => {
                &&& subscription_claim_refusal(
                    *old(provider),
                    *provider_key,
                    *old(node),
                    *old(sub),
                    *signer,
                    now,
                ) == Some(e)
                &&& *final(provider) == *old(provider)
                &&& *final(node) == *old(node)
                &&& *final(sub) == *old(sub)
                &&& *final(treasury) == *old(treasury)
            },
        },
{
    if !provider.authority.same(signer) || !node.provider.same(provider_key) {
        return Err(DvpnError::Unauthorized);
    }
    if sub.state == SubscriptionState::Claimed {
        return Err(DvpnError::SubscriptionAlreadyClaimed);
    }
    if sub.state != SubscriptionState::Active {
        return Err(DvpnError::SubscriptionNotActive);
    }
    if now < sub.end_ts {
        return Err(DvpnError::SubscriptionNotExpired);
    }
    let split = split_revenue(sub.escrow_lamports);
    treasury.total_collected = treasury.total_collected.saturating_add(split.treasury_share);
    provider.total_earnings = provider.total_earnings.saturating_add(split.provider_share);
    node.total_earnings = node.total_earnings.saturating_add(split.provider_share);
    sub.escrow_lamports = 0;
    sub.state = SubscriptionState::Claimed;
    Ok(split)
}

/// Whether `sub` gives access at `now`: active and not yet expired.
pub fn check_subscription(sub: &Subscription, now: i64) -> (r: bool)
    ensures
        r == (sub.state == SubscriptionState::Active && now < sub.end_ts),
{
    sub.state == SubscriptionState::Active && now < sub.end_ts
}

/// Why `signer` may not withdraw `amount` from a treasury that can spare
/// `available`.
pub open spec fn withdraw_refusal(treasury: Treasury, signer: Key, amount: u64, available: u64) -> Option<
    DvpnError,
> {
    if treasury.authority@ != signer@ {
        Some(DvpnError::Unauthorized)
    } else if amount == 0 {
        Some(DvpnError::InvalidAmount)
    } else if amount > available {
        Some(DvpnError::InsufficientBalance)
    } else {
        None
    }
}

/// The treasury's authority withdraws `amount`; `available` is what the
/// treasury account can spare, and the runtime moves the amount.
pub fn withdraw_treasury(treasury: &Treasury, signer: &Key, amount: u64, available: u64) -> (r:
    Result<(), DvpnError>)
    ensures
        match r {
            Ok(()) => withdraw_refusal(*treasury, *signer, amount, available) is None,
            Err(e) => withdraw_refusal(*treasury, *signer, amount, available) == Some(e),
        },
{
    if !treasury.authority.same(signer) {
        return Err(DvpnError::Unauthorized);
    }
    if amount == 0 {
        return Err(DvpnError::InvalidAmount);
    }
    if amount > available {
        return Err(DvpnError::InsufficientBalance);
    }
    Ok(())
}

} // verus!
