//! The epoch earnings pool: usage metering, node ratings, and the payout of
//! pooled revenue in proportion to each node's weighted contribution.
use vstd::prelude::*;

use crate::error::DvpnError;
use crate::key::Key;
use crate::math::{
    proportional_share, quality_score, quality_spec, share_spec, split_revenue, split_spec,
    weighted_score, weighted_score_spec, Split,
};
use crate::records::{EarningsPool, Node, Provider, Treasury, UsageRecord, EPOCH_SECONDS};

verus! {

/// Lowest star rating of a node.
pub const MIN_STARS: u8 = 1;

/// Highest star rating of a node.
pub const MAX_STARS: u8 = 5;

/// A pool for `epoch`, opened at `now` for one week; fails only where the
/// end of the week overflows.
pub fn initialize_earnings_pool(epoch: u64, now: i64) -> (r: Result<EarningsPool, DvpnError>)
    ensures
        match r {
            Ok(pool) => {
                &&& now + EPOCH_SECONDS <= i64::MAX
                &&& pool == (EarningsPool {
                    epoch,
                    total_subscription_revenue: 0,
                    total_distributed: 0,
                    total_weighted_score: 0,
                    start_ts: now,
                    end_ts: (now + EPOCH_SECONDS) as i64,
                    is_finalized: false,
                })
            },
            Err(e) => e == DvpnError::MathOverflow && now + EPOCH_SECONDS > i64::MAX,
        },
{
    match now.checked_add(EPOCH_SECONDS) {
        Some(end_ts) => Ok(
            EarningsPool {
                epoch,
                total_subscription_revenue: 0,
                total_distributed: 0,
                total_weighted_score: 0,
                start_ts: now,
                end_ts,
                is_finalized: false,
            },
        ),
        None => Err(DvpnError::MathOverflow),
    }
}

/// The usage record of the node at `node` for `epoch` before anything is
/// reported.
pub fn new_usage_record(node: &Key, epoch: u64) -> (r: UsageRecord)
    ensures
        r == (UsageRecord {
            node: *node,
            epoch,
            usage_seconds: 0,
            bytes_served: 0,
            session_count: 0,
            claimed: false,
        }),
{
    UsageRecord {
        node: *node,
        epoch,
        usage_seconds: 0,
        bytes_served: 0,
        session_count: 0,
        claimed: false,
    }
}

/// The node after one more rating of `stars`, with its quality score
/// recomputed.
pub open spec fn node_after_rating(node: Node, stars: u8) -> Node {
    let sum = node.rating_sum.saturating_add(stars as u64);
    let count = node.rating_count.saturating_add(1);
    Node {
        rating_sum: sum,
        rating_count: count,
        quality_score: quality_spec(sum as int, count as int) as u16,
        ..node
    }
}

fn add_rating(node: &mut Node, stars: u8)
    requires
        old(node).wf(),
    ensures
        *final(node) == node_after_rating(*old(node), stars),
        final(node).wf(),
{
    node.rating_sum = node.rating_sum.saturating_add(stars as u64);
    node.rating_count = node.rating_count.saturating_add(1);
    node.quality_score = quality_score(node.rating_sum, node.rating_count);
}

/// Reports a finished session on a node for the pool of `epoch`: its
/// duration, bytes and star rating go into the node's totals and into the
/// node's usage record for the epoch. Refused for a rating outside 1 to 5
/// stars and once the pool is finalized.
pub fn record_node_usage(
    node: &mut Node,
    node_key: &Key,
    pool: &EarningsPool,
    usage: &mut UsageRecord,
    epoch: u64,
    duration_seconds: u64,
    bytes_transferred: u64,
    user_rating: u8,
) -> (r: Result<(), DvpnError>)
    requires
        old(node).wf(),
    ensures
        final(node).wf(),
        match r {
            Ok(()) => {
                &&& MIN_STARS <= user_rating <= MAX_STARS
                &&& !pool.is_finalized
                &&& *final(node) == node_after_rating(
                    Node {
                        total_uptime_seconds: old(node).total_uptime_seconds.saturating_add(
                            duration_seconds,
                        ),
                        total_bytes_served: old(node).total_bytes_served.saturating_add(
                            bytes_transferred,
                        ),
                        ..*old(node)
                    },
                    user_rating,
                )
                &&& *final(usage) == (UsageRecord {
                    node: *node_key,
                    epoch,
                    usage_seconds: old(usage).usage_seconds.saturating_add(duration_seconds),
                    bytes_served: old(usage).bytes_served.saturating_add(bytes_transferred),
                    session_count: old(usage).session_count.saturating_add(1),
                    ..*old(usage)
                })
            },
            Err(e) => {
                &&& if user_rating < MIN_STARS || user_rating > MAX_STARS {
                    e == DvpnError::InvalidAmount
                } else {
                    pool.is_finalized && e == DvpnError::PoolAlreadyFinalized
                }
                &&& *final(node) == *old(node)
                &&& *final(usage) == *old(usage)
            },
        },
{
    if user_rating < MIN_STARS || user_rating > MAX_STARS {
        return Err(DvpnError::InvalidAmount);
    }
    if pool.is_finalized {
        return Err(DvpnError::PoolAlreadyFinalized);
    }
    node.total_uptime_seconds = node.total_uptime_seconds.saturating_add(duration_seconds);
    node.total_bytes_served = node.total_bytes_served.saturating_add(bytes_transferred);
    add_rating(node, user_rating);
    usage.node = *node_key;
    usage.epoch = epoch;
    usage.usage_seconds = usage.usage_seconds.saturating_add(duration_seconds);
    usage.bytes_served = usage.bytes_served.saturating_add(bytes_transferred);
    usage.session_count = usage.session_count.saturating_add(1);
    Ok(())
}

/// Rates a node with 1 to 5 stars outside a usage report; only its ratings
/// and quality score change.
pub fn rate_node(node: &mut Node, rating: u8) -> (r: Result<(), DvpnError>)
    requires
        old(node).wf(),
    ensures
        final(node).wf(),
        match r {
            Ok(()) => {
                &&& MIN_STARS <= rating <= MAX_STARS
                &&& *final(node) == node_after_rating(*old(node), rating)
            },
            Err(e) => {
                &&& e == DvpnError::InvalidAmount
                &&& !(MIN_STARS <= rating <= MAX_STARS)
                &&& *final(node) == *old(node)
            },
        },
{
    if rating < MIN_STARS || rating > MAX_STARS {
        return Err(DvpnError::InvalidAmount);
    }
    add_rating(node, rating);
    Ok(())
}

/// Why the provider whose key signed as `signer` may not claim the node's
/// earnings of `epoch`.
pub open spec fn earnings_refusal(
    provider: Provider,
    provider_key: Key,
    node: Node,
    node_key: Key,
    pool: EarningsPool,
    usage: UsageRecord,
    signer: Key,
    epoch: u64,
) -> Option<DvpnError> {
    if provider.authority@ != signer@ || node.provider@ != provider_key@ || usage.node@
        != node_key@ || usage.epoch != epoch || pool.epoch != epoch {
        Some(DvpnError::Unauthorized)
    } else if !pool.is_finalized {
        Some(DvpnError::PoolNotFinalized)
    } else if usage.claimed {
        Some(DvpnError::AlreadyClaimed)
    } else if pool.total_weighted_score == 0 {
        Some(DvpnError::InvalidAmount)
    } else {
        None
    }
}

/// The node's payable share of the pool: what the pool has not yet paid
/// out, in proportion to the node's weighted score against the total.
pub open spec fn earnings_share(node: Node, pool: EarningsPool, usage: UsageRecord) -> int {
    share_spec(
        pool.total_subscription_revenue - pool.total_distributed,
        weighted_score_spec(
            usage.usage_seconds as int,
            node.bandwidth_mbps as int,
            node.quality_score as int,
        ),
        pool.total_weighted_score as int,
    )
}

/// A provider claims its node's share of a finalized pool, once per node and
/// epoch. The share is split 80/20 (the runtime moves both parts out of the
/// pool), counted as distributed, and the usage record is marked claimed.
pub fn claim_proportional_earnings(
    provider: &mut Provider,
    provider_key: &Key,
    node: &mut Node,
    node_key: &Key,
    pool: &mut EarningsPool,
    usage: &mut UsageRecord,
    treasury: &mut Treasury,
    signer: &Key,
    epoch: u64,
) -> (r: Result<Split, DvpnError>)
    requires
        old(pool).wf(),
    ensures
        final(pool).wf(),
        match r {
            Ok(split) => {
                let share = earnings_share(*old(node), *old(pool), *old(usage));
                &&& earnings_refusal(
                    *old(provider),
                    *provider_key,
                    *old(node),
                    *node_key,
                    *old(pool),
                    *old(usage),
                    *signer,
                    epoch,
                ) is None
                &&& split == split_spec(share as u64)
                &&& *final(pool) == (EarningsPool {
                    total_distributed: (old(pool).total_distributed + share) as u64,
                    ..*old(pool)
                })
                &&& *final(usage) == (UsageRecord { claimed: true, ..*old(usage) })
                &&& *final(provider) == (Provider {
                    total_earnings: old(provider).total_earnings.saturating_add(
                        split.provider_share,
                    ),
                    ..*old(provider)
                })
                &&& *final(node) == (Node {
                    total_earnings: old(node).total_earnings.saturating_add(split.provider_share),
                    ..*old(node)
                })
                &&& *final(treasury) == (Treasury {
                    total_collected: old(treasury).total_collected.saturating_add(
                        split.treasury_share,
                    ),
                    ..*old(treasury)
                })
            },
            Err(e) => {
                &&& earnings_refusal(
                    *old(provider),
                    *provider_key,
                    *old(node),
                    *node_key,
                    *old(pool),
                    *old(usage),
                    *signer,
                    epoch,
                ) == Some(e)
                &&& *final(provider) == *old(provider)
                &&& *final(node) == *old(node)
                &&& *final(pool) == *old(pool)
                &&& *final(usage) == *old(usage)
                &&& *final(treasury) == *old(treasury)
            },
        },
{
    if !provider.authority.same(signer) || !node.provider.same(provider_key) || !usage.node.same(
        node_key,
    ) || usage.epoch != epoch || pool.epoch != epoch {
        return Err(DvpnError::Unauthorized);
    }
    if !pool.is_finalized {
        return Err(DvpnError::PoolNotFinalized);
    }
    if usage.claimed {
        return Err(DvpnError::AlreadyClaimed);
    }
    if pool.total_weighted_score == 0 {
        return Err(DvpnError::InvalidAmount);
    }
    let score = weighted_score(usage.usage_seconds, node.bandwidth_mbps, node.quality_score);
    let available = pool.total_subscription_revenue - pool.total_distributed;
    let share = proportional_share(available, score, pool.total_weighted_score);
    let split = split_revenue(share);
    pool.total_distributed = pool.total_distributed + share;
    usage.claimed = true;
    provider.total_earnings = provider.total_earnings.saturating_add(split.provider_share);
    node.total_earnings = node.total_earnings.saturating_add(split.provider_share);
    treasury.total_collected = treasury.total_collected.saturating_add(split.treasury_share);
    Ok(split)
}

/// Why `signer` may not finalize `pool` at `now`.
pub open spec fn finalize_refusal(pool: EarningsPool, treasury: Treasury, signer: Key, now: i64) -> Option<
    DvpnError,
> {
    if treasury.authority@ != signer@ {
        Some(DvpnError::Unauthorized)
    } else if pool.is_finalized {
        Some(DvpnError::PoolAlreadyFinalized)
    } else if now < pool.end_ts {
        Some(DvpnError::PoolNotEnded)
    } else {
        None
    }
}

/// The treasury's authority closes the pool once its epoch has ended,
/// recording the total weighted score of all nodes. This happens once: a
/// finalized pool stays finalized.
pub fn finalize_earnings_pool(
    pool: &mut EarningsPool,
    treasury: &Treasury,
    signer: &Key,
    total_weighted_score: u128,
    now: i64,
) -> (r: Result<(), DvpnError>)
    ensures
        match r {
            Ok(()) => {
                &&& finalize_refusal(*old(pool), *treasury, *signer, now) is None
                &&& *final(pool) == (EarningsPool {
                    total_weighted_score,
                    is_finalized: true,
                    ..*old(pool)
                })
            },
            Err(e) => {
                &&& finalize_refusal(*old(pool), *treasury, *signer, now) == Some(e)
                &&& *final(pool) == *old(pool)
            },
        },
{
    if !treasury.authority.same(signer) {
        return Err(DvpnError::Unauthorized);
    }
    if pool.is_finalized {
        return Err(DvpnError::PoolAlreadyFinalized);
    }
    if now < pool.end_ts {
        return Err(DvpnError::PoolNotEnded);
    }
    pool.total_weighted_score = total_weighted_score;
    pool.is_finalized = true;
    Ok(())
}

/// Adds subscription revenue to a pool that is still open. Refused once the
/// pool is finalized, and where the total would overflow.
pub fn add_to_earnings_pool(pool: &mut EarningsPool, amount: u64) -> (r: Result<(), DvpnError>)
    ensures
        match r {
            Ok(()) => {
                &&& !old(pool).is_finalized
                &&& *final(pool) == (EarningsPool {
                    total_subscription_revenue: (old(pool).total_subscription_revenue
                        + amount) as u64,
                    ..*old(pool)
                })
                &&& old(pool).total_subscription_revenue + amount <= u64::MAX
            },
            Err(e) => {
                &&& if old(pool).is_finalized {
                    e == DvpnError::PoolAlreadyFinalized
                } else {
                    e == DvpnError::MathOverflow && old(pool).total_subscription_revenue + amount
                        > u64::MAX
                }
                &&& *final(pool) == *old(pool)
            },
        },
{
    if pool.is_finalized {
        return Err(DvpnError::PoolAlreadyFinalized);
    }
    match pool.total_subscription_revenue.checked_add(amount) {
        Some(total) => {
            pool.total_subscription_revenue = total;
            Ok(())
        },
        None => Err(DvpnError::MathOverflow),
    }
}

} // verus!
