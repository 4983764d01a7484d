use vstd::prelude::*;

verus! {

/// A product of two bounded non-negative numbers is bounded by the product
/// of the bounds.
proof fn lemma_product_fits(a: int, b: int, max_a: int, max_b: int)
    requires
        0 <= a <= max_a,
        0 <= b <= max_b,
    ensures
        0 <= a * b <= max_a * max_b,
{
    vstd::arithmetic::mul::lemma_mul_upper_bound(a, max_a, b, max_b);
    vstd::arithmetic::mul::lemma_mul_nonnegative(a, b);
}

/// Share of every claimed amount that goes to the node's provider, in percent.
pub const PROVIDER_SHARE_PERCENT: u64 = 80;

/// Share of every claimed amount that goes to the treasury, in percent.
pub const TREASURY_SHARE_PERCENT: u64 = 20;

/// Highest reputation a provider can hold; ratings range over `0..=MAX_REPUTATION`.
pub const MAX_REPUTATION: u16 = 1000;

/// Reputation of a newly registered provider: the middle of the scale.
pub const INITIAL_REPUTATION: u16 = 500;

/// Reputation lost when a dispute slashes a provider's stake.
pub const SLASH_REPUTATION_PENALTY: u16 = 100;

/// Highest quality score of a node (100.00%).
pub const MAX_QUALITY: u16 = 10000;

/// Quality points per star of an average rating (five stars give `MAX_QUALITY`).
pub const QUALITY_PER_STAR: u64 = 2000;

/// How a claimed amount is divided between provider and treasury.
#[derive(Clone, Copy, Debug, PartialEq, Eq, Structural)]
pub struct Split {
    pub provider_share: u64,
    pub treasury_share: u64,
}

/// The treasury's part of `amount`: the percentage, rounded down.
pub open spec fn treasury_share_of(amount: int) -> int {
    amount * (TREASURY_SHARE_PERCENT as int) / 100
}

/// The provider's part of `amount`: everything the treasury does not take.
pub open spec fn provider_share_of(amount: int) -> int {
    amount - treasury_share_of(amount)
}

/// The split of `amount`.
pub open spec fn split_spec(amount: u64) -> Split {
    Split {
        provider_share: provider_share_of(amount as int) as u64,
        treasury_share: treasury_share_of(amount as int) as u64,
    }
}

/// Splits `amount` 80/20 between provider and treasury. The treasury share
/// is rounded down and the provider gets the remainder, so nothing is lost
/// to rounding.
pub fn split_revenue(amount: u64) -> (r: Split)
    ensures
        r == split_spec(amount),
        r.treasury_share == treasury_share_of(amount as int),
        r.provider_share == provider_share_of(amount as int),
        r.provider_share + r.treasury_share == amount,
{
    proof { lemma_product_fits(amount as int, 20, 0xffff_ffff_ffff_ffff, 20); }
    let wide: u128 = (amount as u128) * (TREASURY_SHARE_PERCENT as u128);
    let treasury: u128 = wide / 100;
    assert(treasury <= amount) by (nonlinear_arith)
        requires
            wide == amount * 20,
            treasury == wide / 100,
    ;
    let treasury_share = treasury as u64;
    Split { provider_share: amount - treasury_share, treasury_share }
}

/// Refund owed for the unused part of a paid interval of `total` seconds,
/// `elapsed` seconds into it: the escrow less the used fraction (rounded
/// down), or nothing once the interval is over.
pub open spec fn refund_spec(escrow: int, elapsed: int, total: int) -> int {
    if elapsed < total {
        escrow - elapsed * escrow / total
    } else {
        0
    }
}

/// Computes `refund_spec` in a widened domain, where it cannot overflow.
pub fn pro_rata_refund(escrow: u64, elapsed: u64, total: u64) -> (r: u64)
    ensures
        r == refund_spec(escrow as int, elapsed as int, total as int),
        r <= escrow,
{
    if elapsed < total {
        proof { lemma_product_fits(elapsed as int, escrow as int, 0xffff_ffff_ffff_ffff, 0xffff_ffff_ffff_ffff); }
        let used_fraction: u128 = (elapsed as u128) * (escrow as u128);
        let used: u128 = used_fraction / (total as u128);
        proof {
            let e = elapsed as int;
            let x = escrow as int;
            let t = total as int;
            assert(e * x <= t * x) by (nonlinear_arith)
                requires
                    e < t,
                    x >= 0,
            ;
            vstd::arithmetic::div_mod::lemma_div_is_ordered(e * x, t * x, t);
            vstd::arithmetic::div_mod::lemma_div_multiples_vanish(x, t);
            assert(t * x == x * t) by (nonlinear_arith);
        }
        escrow - used as u64
    } else {
        0
    }
}

/// Seconds from `start` to `now`; a clock that reads earlier than `start`
/// counts as no time elapsed.
pub open spec fn elapsed_spec(start: int, now: int) -> int {
    if now <= start {
        0
    } else {
        now - start
    }
}

/// Computes `elapsed_spec` without overflow.
pub fn elapsed_seconds(start: i64, now: i64) -> (r: u64)
    ensures
        r == elapsed_spec(start as int, now as int),
{
    if now <= start {
        0
    } else {
        ((now as i128) - (start as i128)) as u64
    }
}

/// Reputation after one more rating: a moving average that weighs history
/// nine to one against the new sample, rounded down.
pub open spec fn reputation_spec(old: int, rating: int) -> int {
    (9 * old + rating) / 10
}

/// Computes `reputation_spec`; it stays on the reputation scale.
pub fn next_reputation(old: u16, rating: u16) -> (r: u16)
    requires
        old <= MAX_REPUTATION,
        rating <= MAX_REPUTATION,
    ensures
        r == reputation_spec(old as int, rating as int),
        r <= MAX_REPUTATION,
{
    let wide: u64 = (old as u64) * 9 + (rating as u64);
    (wide / 10) as u16
}

/// Quality score from a node's ratings: the average star rating mapped onto
/// `0..=MAX_QUALITY`, capped there, and `MAX_QUALITY` while unrated.
pub open spec fn quality_spec(rating_sum: int, rating_count: int) -> int {
    if rating_count == 0 {
        MAX_QUALITY as int
    } else if rating_sum * (QUALITY_PER_STAR as int) / rating_count > MAX_QUALITY as int {
        MAX_QUALITY as int
    } else {
        rating_sum * (QUALITY_PER_STAR as int) / rating_count
    }
}

/// Computes `quality_spec` in a widened domain.
pub fn quality_score(rating_sum: u64, rating_count: u32) -> (r: u16)
    ensures
        r == quality_spec(rating_sum as int, rating_count as int),
        r <= MAX_QUALITY,
{
    if rating_count == 0 {
        MAX_QUALITY
    } else {
        proof { lemma_product_fits(rating_sum as int, 2000, 0xffff_ffff_ffff_ffff, 2000); }
        let scaled: u128 = (rating_sum as u128) * (QUALITY_PER_STAR as u128);
        let avg: u128 = scaled / (rating_count as u128);
        if avg > MAX_QUALITY as u128 {
            MAX_QUALITY
        } else {
            avg as u16
        }
    }
}

/// A node's weighted contribution to an epoch: usage time counts 40%,
/// bandwidth-weighted time 30% and quality-weighted time 30%.
pub open spec fn weighted_score_spec(usage_seconds: int, bandwidth_mbps: int, quality: int) -> int {
    let usage_weight = usage_seconds;
    let bandwidth_weight = bandwidth_mbps * usage_seconds / 100;
    let quality_weight = quality * usage_seconds / 10000;
    (40 * usage_weight + 30 * bandwidth_weight + 30 * quality_weight) / 100
}

/// Computes `weighted_score_spec`; in 128 bits no term can overflow.
pub fn weighted_score(usage_seconds: u64, bandwidth_mbps: u32, quality: u16) -> (r: u128)
    ensures
        r == weighted_score_spec(usage_seconds as int, bandwidth_mbps as int, quality as int),
{
    let u: u128 = usage_seconds as u128;
    proof { lemma_product_fits(bandwidth_mbps as int, u as int, 0xffff_ffff, 0xffff_ffff_ffff_ffff); }
    proof { lemma_product_fits(quality as int, u as int, 0xffff, 0xffff_ffff_ffff_ffff); }
    let bandwidth_product: u128 = (bandwidth_mbps as u128) * u;
    let quality_product: u128 = (quality as u128) * u;
    let bandwidth_weight: u128 = bandwidth_product / 100;
    let quality_weight: u128 = quality_product / 10000;
    assert(bandwidth_weight <= 0x1_0000_0000_0000_0000_0000_0000u128) by (nonlinear_arith)
        requires
            bandwidth_product == bandwidth_mbps * u,
            bandwidth_weight == bandwidth_product / 100,
            u < 0x1_0000_0000_0000_0000u128,
            bandwidth_mbps < 0x1_0000_0000u128,
    ;
    assert(quality_weight <= 0x1_0000_0000_0000_0000_0000u128) by (nonlinear_arith)
        requires
            quality_product == quality * u,
            quality_weight == quality_product / 10000,
            u < 0x1_0000_0000_0000_0000u128,
            quality < 0x1_0000u128,
    ;
    (40 * u + 30 * bandwidth_weight + 30 * quality_weight) / 100
}

/// `a * b`, or `u128::MAX` where the product does not fit.
pub open spec fn saturating_product(a: int, b: int) -> int {
    if a * b > u128::MAX as int {
        u128::MAX as int
    } else {
        a * b
    }
}

/// Multiplies, saturating at `u128::MAX`.
pub fn saturating_mul_u128(a: u128, b: u128) -> (r: u128)
    ensures
        r == saturating_product(a as int, b as int),
{
    if b == 0 {
        assert(a * b == 0) by (nonlinear_arith)
            requires
                b == 0,
        ;
        0
    } else if a > u128::MAX / b {
        assert(a * b > u128::MAX) by (nonlinear_arith)
            requires
                b > 0,
                a > u128::MAX / b,
        ;
        u128::MAX
    } else {
        assert(a * b <= u128::MAX) by (nonlinear_arith)
            requires
                b > 0,
                a <= u128::MAX / b,
        ;
        a * b
    }
}

/// A node's cut of what is left in a pool: `available * score / total`,
/// rounded down, with the product saturating in 128 bits, and never more
/// than `available`.
pub open spec fn share_spec(available: int, score: int, total: int) -> int {
    let s = saturating_product(available, score) / total;
    if s > available {
        available
    } else {
        s
    }
}

/// Computes `share_spec`.
pub fn proportional_share(available: u64, score: u128, total: u128) -> (r: u64)
    requires
        total > 0,
    ensures
        r == share_spec(available as int, score as int, total as int),
        r <= available,
{
    let product = saturating_mul_u128(available as u128, score);
    let s: u128 = product / total;
    if s > available as u128 {
        available
    } else {
        s as u64
    }
}

} // verus!
