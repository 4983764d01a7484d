use vstd::prelude::*;

use crate::key::Key;
use crate::math::{MAX_QUALITY, MAX_REPUTATION};

verus! {

/// Longest node endpoint, in bytes.
pub const MAX_ENDPOINT_LEN: usize = 80;

/// Longest node region, in bytes.
pub const MAX_REGION_LEN: usize = 12;

/// Longest dispute reason, in bytes.
pub const MAX_REASON_LEN: usize = 200;

/// Seconds in a minute, the unit sessions are bought in.
pub const SECONDS_PER_MINUTE: i64 = 60;

/// Seconds in a day.
pub const SECONDS_PER_DAY: i64 = 86400;

/// Length of a pool epoch: one week.
pub const EPOCH_SECONDS: i64 = 604800;

pub const WEEKLY_PRICE: u64 = 30_000_000;

pub const MONTHLY_PRICE: u64 = 100_000_000;

pub const YEARLY_PRICE: u64 = 600_000_000;

/// Length of a string in UTF-8 bytes, as `str::len` reports it.
pub open spec fn byte_len(s: Seq<char>) -> usize {
    vstd::utf8::encode_utf8(s).len() as usize
}

/// Counts the UTF-8 bytes of a string.
pub fn string_byte_len(s: &String) -> (r: usize)
    ensures
        r == byte_len(s@),
{
    s.as_str().len()
}

/// A service provider: the owner of nodes, with a stake that disputes can
/// slash and a reputation on the scale `0..=MAX_REPUTATION`.
#[derive(Clone, Copy, Debug)]
pub struct Provider {
    pub authority: Key,
    pub node_count: u64,
    pub stake_lamports: u64,
    pub reputation_score: u16,
    pub total_uptime_seconds: u64,
    pub total_sessions: u64,
    pub total_earnings: u64,
}

impl Provider {
    pub open spec fn wf(&self) -> bool {
        self.reputation_score <= MAX_REPUTATION
    }
}

/// A node of a provider, selling time at a fixed price per minute to at most
/// `max_capacity` sessions at once.
#[derive(Clone, Debug)]
pub struct Node {
    /// Address of the provider record that owns the node; never changes.
    pub provider: Key,
    pub node_id: u64,
    pub endpoint: String,
    pub region: String,
    pub price_per_minute_lamports: u64,
    pub wg_server_pubkey: [u8; 32],
    pub max_capacity: u32,
    pub active_sessions: u32,
    pub total_uptime_seconds: u64,
    pub total_earnings: u64,
    pub is_active: bool,
    pub bandwidth_mbps: u32,
    /// Average rating on `0..=MAX_QUALITY`.
    pub quality_score: u16,
    pub total_bytes_served: u64,
    pub rating_sum: u64,
    pub rating_count: u32,
}

impl Node {
    pub open spec fn wf(&self) -> bool {
        &&& self.active_sessions <= self.max_capacity
        &&& self.quality_score <= MAX_QUALITY
        &&& byte_len(self.endpoint@) <= MAX_ENDPOINT_LEN
        &&& byte_len(self.region@) <= MAX_REGION_LEN
    }
}

/// Where a session stands. `Claimed` and `Resolved` are final.
#[derive(Clone, Copy, Debug, PartialEq, Eq, Structural)]
pub enum SessionState {
    Active,
    Closed,
    Claimed,
    Disputed,
    Resolved,
}

/// A buyer's session on a node, with the escrow that pays for it.
#[derive(Clone, Copy, Debug)]
pub struct Session {
    pub user: Key,
    /// Address of the node record the session runs on.
    pub node: Key,
    pub session_id: u64,
    pub start_ts: i64,
    pub end_ts: i64,
    /// What the buyer paid in when the session opened.
    pub escrow_lamports: u64,
    /// What the escrow still holds.
    pub remaining_balance: u64,
    pub bytes_used: u64,
    pub last_proof_hash: [u8; 32],
    /// The token mint paid in, or the zero key for the native currency.
    pub payment_token: Key,
    pub state: SessionState,
}

impl Session {
    pub open spec fn wf(&self) -> bool {
        &&& self.remaining_balance <= self.escrow_lamports
        &&& self.start_ts <= self.end_ts
    }
}

/// The three subscription plans, each with a fixed price and length.
#[derive(Clone, Copy, Debug, PartialEq, Eq, Structural)]
pub enum SubscriptionPlan {
    Weekly,
    Monthly,
    Yearly,
}

pub open spec fn plan_price(plan: SubscriptionPlan) -> u64 {
    match plan {
        SubscriptionPlan::Weekly => WEEKLY_PRICE,
        SubscriptionPlan::Monthly => MONTHLY_PRICE,
        SubscriptionPlan::Yearly => YEARLY_PRICE,
    }
}

pub open spec fn plan_duration(plan: SubscriptionPlan) -> int {
    match plan {
        SubscriptionPlan::Weekly => 7 * SECONDS_PER_DAY,
        SubscriptionPlan::Monthly => 30 * SECONDS_PER_DAY,
        SubscriptionPlan::Yearly => 365 * SECONDS_PER_DAY,
    }
}

impl SubscriptionPlan {
    /// Price of the plan.
    pub fn price(&self) -> (r: u64)
        ensures
            r == plan_price(*self),
    {
        match self {
            SubscriptionPlan::Weekly => WEEKLY_PRICE,
            SubscriptionPlan::Monthly => MONTHLY_PRICE,
            SubscriptionPlan::Yearly => YEARLY_PRICE,
        }
    }

    /// Length of the plan's term, in seconds.
    pub fn duration_seconds(&self) -> (r: i64)
        ensures
            r == plan_duration(*self),
            r > 0,
    {
        match self {
            SubscriptionPlan::Weekly => 7 * SECONDS_PER_DAY,
            SubscriptionPlan::Monthly => 30 * SECONDS_PER_DAY,
            SubscriptionPlan::Yearly => 365 * SECONDS_PER_DAY,
        }
    }
}

/// Where a subscription stands.
#[derive(Clone, Copy, Debug, PartialEq, Eq, Structural)]
pub enum SubscriptionState {
    Active,
    Cancelled,
    Expired,
    Claimed,
}

/// A buyer's subscription, with the escrow that pays for the current term.
#[derive(Clone, Copy, Debug)]
pub struct Subscription {
    pub user: Key,
    pub plan: SubscriptionPlan,
    pub escrow_lamports: u64,
    pub start_ts: i64,
    pub end_ts: i64,
    pub state: SubscriptionState,
}

impl Subscription {
    pub open spec fn wf(&self) -> bool {
        self.start_ts <= self.end_ts
    }
}

/// The protocol treasury, which takes its share of every claim.
#[derive(Clone, Copy, Debug)]
pub struct Treasury {
    pub authority: Key,
    pub total_collected: u64,
}

/// Subscription revenue of one epoch, paid out to nodes once finalized.
#[derive(Clone, Copy, Debug)]
pub struct EarningsPool {
    pub epoch: u64,
    pub total_subscription_revenue: u64,
    pub total_distributed: u64,
    /// Sum of all nodes' weighted scores, recorded when the pool is finalized.
    pub total_weighted_score: u128,
    pub start_ts: i64,
    pub end_ts: i64,
    pub is_finalized: bool,
}

impl EarningsPool {
    pub open spec fn wf(&self) -> bool {
        self.total_distributed <= self.total_subscription_revenue
    }
}

/// What a node did during one epoch, and whether it has been paid for it.
#[derive(Clone, Copy, Debug)]
pub struct UsageRecord {
    /// Address of the node record.
    pub node: Key,
    pub epoch: u64,
    pub usage_seconds: u64,
    pub bytes_served: u64,
    pub session_count: u32,
    pub claimed: bool,
}

} // verus!
