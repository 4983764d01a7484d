//! Properties of the ledger that relate several operations or hold of all
//! inputs, proved from the operations' contracts.
use vstd::prelude::*;

use crate::error::DvpnError;
use crate::escrow::{
    chunk_refusal, close_refusal, conserves, dispute_refusal, payout_refusal, resolve_refusal,
};
use crate::key::Key;
use crate::math::{refund_spec, reputation_spec, split_spec, treasury_share_of, MAX_REPUTATION};
use crate::pool::earnings_refusal;
use crate::records::{
    EarningsPool, Node, Provider, Session, SessionState, Subscription, SubscriptionState, Treasury,
    UsageRecord,
};
use crate::subscription::subscription_claim_refusal;

verus! {

/// The sum of a sequence of amounts.
pub open spec fn total(amounts: Seq<int>) -> int
    decreases amounts.len(),
{
    if amounts.len() == 0 {
        0
    } else {
        total(amounts.drop_last()) + amounts.last()
    }
}

/// Conservation of escrow: along any run of operations on a session, each
/// paying `paid_out[i]` out of it, what the session still holds plus
/// everything paid out equals what was paid in when it opened.
pub proof fn lemma_escrow_conserved(history: Seq<Session>, paid_out: Seq<int>)
    requires
        history.len() == paid_out.len() + 1,
        history[0].remaining_balance == history[0].escrow_lamports,
        forall|i: int|
            0 <= i < paid_out.len() ==> #[trigger] conserves(history[i], history[i + 1], paid_out[i]),
    ensures
        history.last().remaining_balance + total(paid_out) == history[0].escrow_lamports,
        history.last().escrow_lamports == history[0].escrow_lamports,
    decreases paid_out.len(),
{
    if paid_out.len() > 0 {
        let earlier = history.drop_last();
        let paid_earlier = paid_out.drop_last();
        assert forall|i: int| 0 <= i < paid_earlier.len() implies #[trigger] conserves(
            earlier[i],
            earlier[i + 1],
            paid_earlier[i],
        ) by {
            assert(conserves(history[i], history[i + 1], paid_out[i]));
        }
        lemma_escrow_conserved(earlier, paid_earlier);
        let n = paid_out.len() - 1;
        assert(conserves(history[n], history[n + 1], paid_out[n]));
    }
}

/// The pro-rata refund never grows as time passes.
pub proof fn lemma_refund_non_increasing(escrow: u64, earlier: u64, later: u64, total: u64)
    requires
        earlier <= later,
    ensures
        refund_spec(escrow as int, later as int, total as int) <= refund_spec(
            escrow as int,
            earlier as int,
            total as int,
        ),
        0 <= refund_spec(escrow as int, later as int, total as int),
{
    let x = escrow as int;
    let t = total as int;
    if earlier < total {
        let e = earlier as int;
        assert(e * x <= t * x) by (nonlinear_arith)
            requires
                e < t,
                x >= 0,
        ;
        vstd::arithmetic::div_mod::lemma_div_is_ordered(e * x, t * x, t);
        vstd::arithmetic::div_mod::lemma_div_multiples_vanish(x, t);
        assert(t * x == x * t) by (nonlinear_arith);
        if later < total {
            let l = later as int;
            assert(e * x <= l * x) by (nonlinear_arith)
                requires
                    e <= l,
                    x >= 0,
            ;
            assert(l * x <= t * x) by (nonlinear_arith)
                requires
                    l < t,
                    x >= 0,
            ;
            vstd::arithmetic::div_mod::lemma_div_is_ordered(e * x, l * x, t);
            vstd::arithmetic::div_mod::lemma_div_is_ordered(l * x, t * x, t);
        }
    }
}

/// At the start of a paid interval the whole escrow is refundable, and once
/// the interval is over nothing is.
pub proof fn lemma_refund_at_ends(escrow: u64, elapsed: u64, total: u64)
    ensures
        total > 0 ==> refund_spec(escrow as int, 0, total as int) == escrow,
        elapsed >= total ==> refund_spec(escrow as int, elapsed as int, total as int) == 0,
{
    if total > 0 {
        assert(0 * (escrow as int) == 0);
        vstd::arithmetic::div_mod::lemma_div_of0(total as int);
    }
}

/// Every split gives out exactly the amount split, whatever its remainder
/// by five, and the treasury takes its percentage rounded down.
pub proof fn lemma_split_exact(amount: u64)
    ensures
        split_spec(amount).provider_share + split_spec(amount).treasury_share == amount,
        split_spec(amount).treasury_share == treasury_share_of(amount as int),
        split_spec(amount).treasury_share <= amount,
{
    assert(0 <= amount * 20 / 100 <= amount) by (nonlinear_arith);
}

/// Once claimed, a session cannot be claimed again: the same provider
/// claiming through the same node, at any later time and whatever its
/// counters hold then, is told it was already claimed.
pub proof fn lemma_payout_claimed_once(
    provider: Provider,
    provider_key: Key,
    node: Node,
    node_key: Key,
    session: Session,
    signer: Key,
    now: i64,
    later_provider: Provider,
    later_node: Node,
    later: i64,
)
    requires
        payout_refusal(provider, provider_key, node, node_key, session, signer, now) is None,
        later_provider.authority == provider.authority,
        later_node.provider == node.provider,
    ensures
        payout_refusal(
            later_provider,
            provider_key,
            later_node,
            node_key,
            (Session { remaining_balance: 0, state: SessionState::Claimed, ..session }),
            signer,
            later,
        ) == Some(DvpnError::AlreadyClaimed),
{
}

/// `Claimed` and `Resolved` are final: every operation on the session
/// refuses it, whoever asks and with whatever arguments.
pub proof fn lemma_settled_session_is_final(
    session: Session,
    provider: Provider,
    provider_key: Key,
    node: Node,
    node_key: Key,
    treasury: Treasury,
    signer: Key,
    reason: Seq<char>,
    amount: u64,
    slash_amount: u64,
    now: i64,
)
    requires
        session.state == SessionState::Claimed || session.state == SessionState::Resolved,
    ensures
        close_refusal(session, node_key, signer) is Some,
        payout_refusal(provider, provider_key, node, node_key, session, signer, now) is Some,
        chunk_refusal(provider, provider_key, node, node_key, session, signer, amount) is Some,
        dispute_refusal(provider, provider_key, node, node_key, session, signer, reason) is Some,
        resolve_refusal(
            treasury,
            signer,
            provider,
            provider_key,
            node,
            node_key,
            session,
            amount,
            slash_amount,
        ) is Some,
{
}

/// Once claimed, a subscription term cannot be claimed again: the same
/// provider is told it was already claimed.
pub proof fn lemma_subscription_claimed_once(
    provider: Provider,
    provider_key: Key,
    node: Node,
    sub: Subscription,
    signer: Key,
    now: i64,
    later_provider: Provider,
    later_node: Node,
    later: i64,
)
    requires
        subscription_claim_refusal(provider, provider_key, node, sub, signer, now) is None,
        later_provider.authority == provider.authority,
        later_node.provider == node.provider,
    ensures
        subscription_claim_refusal(
            later_provider,
            provider_key,
            later_node,
            (Subscription { escrow_lamports: 0, state: SubscriptionState::Claimed, ..sub }),
            signer,
            later,
        ) == Some(DvpnError::SubscriptionAlreadyClaimed),
{
}

/// A node is paid from an epoch's pool at most once: after a claim, the
/// same claim is refused as already claimed, whatever the pool and the
/// records' counters hold by then.
pub proof fn lemma_earnings_claimed_once(
    provider: Provider,
    provider_key: Key,
    node: Node,
    node_key: Key,
    pool: EarningsPool,
    usage: UsageRecord,
    signer: Key,
    epoch: u64,
    later_provider: Provider,
    later_node: Node,
    later_pool: EarningsPool,
)
    requires
        earnings_refusal(provider, provider_key, node, node_key, pool, usage, signer, epoch)
            is None,
        later_provider.authority == provider.authority,
        later_node.provider == node.provider,
        later_pool.epoch == pool.epoch,
        later_pool.is_finalized,
    ensures
        earnings_refusal(
            later_provider,
            provider_key,
            later_node,
            node_key,
            later_pool,
            (UsageRecord { claimed: true, ..usage }),
            signer,
            epoch,
        ) == Some(DvpnError::AlreadyClaimed),
{
}

/// Reputation after a run of ratings, oldest first.
pub open spec fn reputation_after(start: int, ratings: Seq<u16>) -> int
    decreases ratings.len(),
{
    if ratings.len() == 0 {
        start
    } else {
        reputation_spec(reputation_after(start, ratings.drop_last()), ratings.last() as int)
    }
}

/// One rating moves the reputation toward the rating and never past it:
/// the new value lies between the old one and the rating. From above it
/// always comes strictly closer; from below it does while at least ten
/// points away (rounding down stops it short of the rating by less than ten).
pub proof fn lemma_reputation_moves_toward(old: u16, rating: u16)
    requires
        old <= MAX_REPUTATION,
        rating <= MAX_REPUTATION,
    ensures
        old <= rating ==> old <= reputation_spec(old as int, rating as int) <= rating,
        rating <= old ==> rating <= reputation_spec(old as int, rating as int) <= old,
        rating < old ==> reputation_spec(old as int, rating as int) < old,
        old + 10 <= rating ==> old < reputation_spec(old as int, rating as int),
{
    let o = old as int;
    let r = rating as int;
    assert(o <= r ==> o <= (9 * o + r) / 10 <= r) by (nonlinear_arith);
    assert(r <= o ==> r <= (9 * o + r) / 10 <= o) by (nonlinear_arith);
    assert(r < o ==> (9 * o + r) / 10 < o) by (nonlinear_arith);
    assert(o + 10 <= r ==> o < (9 * o + r) / 10) by (nonlinear_arith);
}

/// However many ratings arrive, the reputation stays on its scale.
pub proof fn lemma_reputation_in_range(start: u16, ratings: Seq<u16>)
    requires
        start <= MAX_REPUTATION,
        forall|i: int| 0 <= i < ratings.len() ==> ratings[i] <= MAX_REPUTATION,
    ensures
        0 <= reputation_after(start as int, ratings) <= MAX_REPUTATION,
    decreases ratings.len(),
{
    if ratings.len() > 0 {
        let earlier = ratings.drop_last();
        assert forall|i: int| 0 <= i < earlier.len() implies earlier[i] <= MAX_REPUTATION by {
            assert(earlier[i] == ratings[i]);
        }
        lemma_reputation_in_range(start, earlier);
        let prev = reputation_after(start as int, earlier);
        let r = ratings.last() as int;
        assert(0 <= r <= 1000);
        assert(0 <= (9 * prev + r) / 10 <= 1000) by (nonlinear_arith)
            requires
                0 <= prev <= 1000,
                0 <= r <= 1000,
        ;
    }
}

} // verus!
