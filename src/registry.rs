//! Provider and node records: registration and the provider's stake.
use vstd::prelude::*;

use crate::error::DvpnError;
use crate::key::Key;
use crate::math::{INITIAL_REPUTATION, MAX_QUALITY};
use crate::records::{byte_len, string_byte_len, Node, Provider, MAX_ENDPOINT_LEN, MAX_REGION_LEN};

verus! {

/// A new provider owned by `authority`: no stake, no nodes, no history, and
/// a reputation in the middle of the scale.
pub fn register_provider(authority: &Key) -> (p: Provider)
    ensures
        p == (Provider {
            authority: *authority,
            node_count: 0,
            stake_lamports: 0,
            reputation_score: INITIAL_REPUTATION,
            total_uptime_seconds: 0,
            total_sessions: 0,
            total_earnings: 0,
        }),
        p.wf(),
{
    Provider {
        authority: *authority,
        node_count: 0,
        stake_lamports: 0,
        reputation_score: INITIAL_REPUTATION,
        total_uptime_seconds: 0,
        total_sessions: 0,
        total_earnings: 0,
    }
}

/// Why `signer` may not add or remove `amount` of stake; `unstake` tells
/// which of the two.
pub open spec fn stake_refusal(provider: Provider, signer: Key, amount: u64, unstake: bool) -> Option<
    DvpnError,
> {
    if amount == 0 {
        Some(DvpnError::InvalidAmount)
    } else if provider.authority@ != signer@ {
        Some(DvpnError::Unauthorized)
    } else if !unstake && provider.stake_lamports + amount > u64::MAX {
        Some(DvpnError::MathOverflow)
    } else if unstake && provider.stake_lamports < amount {
        Some(DvpnError::InsufficientStake)
    } else {
        None
    }
}

/// The provider's owner adds `amount_lamports` to the stake; the runtime
/// moves it from the owner to the provider record.
pub fn stake_provider(provider: &mut Provider, signer: &Key, amount_lamports: u64) -> (r: Result<
    (),
    DvpnError,
>)
    ensures
        match r {
            Ok(()) => {
                &&& stake_refusal(*old(provider), *signer, amount_lamports, false) is None
                &&& *final(provider) == (Provider {
                    stake_lamports: (old(provider).stake_lamports + amount_lamports) as u64,
                    ..*old(provider)
                })
            },
            Err(e) => {
                &&& stake_refusal(*old(provider), *signer, amount_lamports, false) == Some(e)
                &&& *final(provider) == *old(provider)
            },
        },
{
    if amount_lamports == 0 {
        return Err(DvpnError::InvalidAmount);
    }
    if !provider.authority.same(signer) {
        return Err(DvpnError::Unauthorized);
    }
    match provider.stake_lamports.checked_add(amount_lamports) {
        Some(total) => {
            provider.stake_lamports = total;
            Ok(())
        },
        None => Err(DvpnError::MathOverflow),
    }
}

/// The provider's owner takes `amount_lamports` of stake back; the runtime
/// moves it from the provider record to the owner.
pub fn unstake_provider(provider: &mut Provider, signer: &Key, amount_lamports: u64) -> (r: Result<
    (),
    DvpnError,
>)
    ensures
        match r {
            Ok(()) => {
                &&& stake_refusal(*old(provider), *signer, amount_lamports, true) is None
                &&& *final(provider) == (Provider {
                    stake_lamports: (old(provider).stake_lamports - amount_lamports) as u64,
                    ..*old(provider)
                })
            },
            Err(e) => {
                &&& stake_refusal(*old(provider), *signer, amount_lamports, true) == Some(e)
                &&& *final(provider) == *old(provider)
            },
        },
{
    if amount_lamports == 0 {
        return Err(DvpnError::InvalidAmount);
    }
    if !provider.authority.same(signer) {
        return Err(DvpnError::Unauthorized);
    }
    if provider.stake_lamports < amount_lamports {
        return Err(DvpnError::InsufficientStake);
    }
    provider.stake_lamports = provider.stake_lamports - amount_lamports;
    Ok(())
}

/// Why `signer` may not register a node with these strings and bandwidth.
pub open spec fn node_refusal(
    provider: Provider,
    signer: Key,
    endpoint: Seq<char>,
    region: Seq<char>,
    bandwidth_mbps: u32,
) -> Option<DvpnError> {
    if byte_len(endpoint) > MAX_ENDPOINT_LEN || byte_len(region) > MAX_REGION_LEN {
        Some(DvpnError::StringTooLong)
    } else if bandwidth_mbps == 0 {
        Some(DvpnError::InvalidAmount)
    } else if provider.authority@ != signer@ {
        Some(DvpnError::Unauthorized)
    } else {
        None
    }
}

/// The provider's owner registers a node. It starts active, with no
/// sessions, no ratings and full quality; the provider counts one more node.
pub fn register_node(
    provider: &mut Provider,
    provider_key: &Key,
    signer: &Key,
    node_id: u64,
    endpoint: String,
    region: String,
    price_per_minute_lamports: u64,
    wg_server_pubkey: [u8; 32],
    max_capacity: u32,
    bandwidth_mbps: u32,
) -> (r: Result<Node, DvpnError>)
    ensures
        match r {
            Ok(node) => {
                &&& node_refusal(*old(provider), *signer, endpoint@, region@, bandwidth_mbps)
                    is None
                &&& node == (Node {
                    provider: *provider_key,
                    node_id,
                    endpoint,
                    region,
                    price_per_minute_lamports,
                    wg_server_pubkey,
                    max_capacity,
                    active_sessions: 0,
                    total_uptime_seconds: 0,
                    total_earnings: 0,
                    is_active: true,
                    bandwidth_mbps,
                    quality_score: MAX_QUALITY,
                    total_bytes_served: 0,
                    rating_sum: 0,
                    rating_count: 0,
                })
                &&& node.wf()
                &&& *final(provider) == (Provider {
                    node_count: old(provider).node_count.saturating_add(1),
                    ..*old(provider)
                })
            },
            Err(e) => {
                &&& node_refusal(*old(provider), *signer, endpoint@, region@, bandwidth_mbps)
                    == Some(e)
                &&& *final(provider) == *old(provider)
            },
        },
{
    if string_byte_len(&endpoint) > MAX_ENDPOINT_LEN || string_byte_len(&region)
        > MAX_REGION_LEN {
        return Err(DvpnError::StringTooLong);
    }
    if bandwidth_mbps == 0 {
        return Err(DvpnError::InvalidAmount);
    }
    if !provider.authority.same(signer) {
        return Err(DvpnError::Unauthorized);
    }
    provider.node_count = provider.node_count.saturating_add(1);
    Ok(
        Node {
            provider: *provider_key,
            node_id,
            endpoint,
            region,
            price_per_minute_lamports,
            wg_server_pubkey,
            max_capacity,
            active_sessions: 0,
            total_uptime_seconds: 0,
            total_earnings: 0,
            is_active: true,
            bandwidth_mbps,
            quality_score: MAX_QUALITY,
            total_bytes_served: 0,
            rating_sum: 0,
            rating_count: 0,
        },
    )
}

} // verus!
