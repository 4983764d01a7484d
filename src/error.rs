use vstd::prelude::*;

verus! {

/// Why an operation was refused. A refused operation changes no record.
#[derive(Clone, Copy, Debug, PartialEq, Eq, Structural)]
pub enum DvpnError {
    Unauthorized,
    StringTooLong,
    InvalidMinutes,
    MathOverflow,
    SessionNotEnded,
    AlreadyClaimed,
    InvalidAmount,
    InsufficientStake,
    NodeInactive,
    NodeAtCapacity,
    SessionNotActive,
    InsufficientBalance,
    SessionNotDisputed,
    InvalidSessionState,
    InvalidRating,
    InvalidPlan,
    SubscriptionNotActive,
    SubscriptionExists,
    SubscriptionNotExpired,
    SubscriptionStillActive,
    SubscriptionAlreadyClaimed,
    PoolAlreadyFinalized,
    PoolNotFinalized,
    PoolNotEnded,
}

impl DvpnError {
    /// The human-readable message of the error.
    pub fn message(&self) -> (r: &'static str) {
        match self {
            DvpnError::Unauthorized => "Unauthorized",
            DvpnError::StringTooLong => "String too long",
            DvpnError::InvalidMinutes => "Invalid minutes",
            DvpnError::MathOverflow => "Math overflow",
            DvpnError::SessionNotEnded => "Session not ended yet",
            DvpnError::AlreadyClaimed => "Already claimed",
            DvpnError::InvalidAmount => "Invalid amount",
            DvpnError::InsufficientStake => "Insufficient stake",
            DvpnError::NodeInactive => "Node inactive",
            DvpnError::NodeAtCapacity => "Node at capacity",
            DvpnError::SessionNotActive => "Session not active",
            DvpnError::InsufficientBalance => "Insufficient balance",
            DvpnError::SessionNotDisputed => "Session not disputed",
            DvpnError::InvalidSessionState => "Invalid session state",
            DvpnError::InvalidRating => "Invalid rating",
            DvpnError::InvalidPlan => "Invalid subscription plan",
            DvpnError::SubscriptionNotActive => "Subscription not active",
            DvpnError::SubscriptionExists => "Subscription already exists",
            DvpnError::SubscriptionNotExpired => "Subscription not expired",
            DvpnError::SubscriptionStillActive => "Subscription still active - cannot renew yet",
            DvpnError::SubscriptionAlreadyClaimed => "Subscription already claimed",
            DvpnError::PoolAlreadyFinalized => "Pool already finalized",
            DvpnError::PoolNotFinalized => "Pool not finalized yet",
            DvpnError::PoolNotEnded => "Pool epoch not ended",
        }
    }
}

} // verus!
