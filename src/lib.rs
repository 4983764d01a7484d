//! Escrow ledger for a pay-per-use VPN marketplace: sessions and
//! subscriptions held in escrow, an 80/20 revenue split, pro-rata refunds,
//! disputes, reputation, and an epoch pool paid out in proportion to each
//! node's weighted contribution.
//!
//! Every operation is a function over the records it touches. It returns
//! either an error, with the records unchanged, or the amounts that the
//! runtime around the library must move between accounts.
pub mod error;
pub mod escrow;
pub mod key;
pub mod laws;
pub mod math;
pub mod pool;
pub mod records;
pub mod registry;
pub mod subscription;

pub use error::DvpnError;
pub use escrow::{
    claim_chunk, claim_payout, close_session, open_session, open_session_spl, raise_dispute,
    resolve_dispute, update_reputation,
};
pub use key::Key;
pub use math::{Split, PROVIDER_SHARE_PERCENT, TREASURY_SHARE_PERCENT};
pub use pool::{
    add_to_earnings_pool, claim_proportional_earnings, finalize_earnings_pool,
    initialize_earnings_pool, new_usage_record, rate_node, record_node_usage,
};
pub use records::{
    EarningsPool, Node, Provider, Session, SessionState, Subscription, SubscriptionPlan,
    SubscriptionState, Treasury, UsageRecord,
};
pub use registry::{register_node, register_provider, stake_provider, unstake_provider};
pub use subscription::{
    cancel_subscription, check_subscription, claim_subscription, create_subscription,
    initialize_treasury, renew_subscription, withdraw_treasury, Settlement,
};
