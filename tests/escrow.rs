use dvpn::{
    claim_chunk, claim_payout, close_session, open_session, open_session_spl, raise_dispute,
    register_node, register_provider, resolve_dispute, stake_provider, unstake_provider,
    update_reputation, initialize_treasury, DvpnError, Key, Node, Provider, SessionState, Treasury,
};

fn key(b: u8) -> Key {
    Key::new([b; 32])
}

struct World {
    provider: Provider,
    provider_key: Key,
    node: Node,
    node_key: Key,
    treasury: Treasury,
    owner: Key,
    admin: Key,
}

fn world(price: u64, capacity: u32) -> World {
    let owner = key(1);
    let provider_key = key(2);
    let node_key = key(3);
    let admin = key(9);
    let mut provider = register_provider(&owner);
    let node = register_node(
        &mut provider,
        &provider_key,
        &owner,
        7,
        "vpn.example.org:51820".to_string(),
        "eu-west".to_string(),
        price,
        [5u8; 32],
        capacity,
        100,
    )
    .unwrap();
    World {
        provider,
        provider_key,
        node,
        node_key,
        treasury: initialize_treasury(&admin),
        owner,
        admin,
    }
}

#[test]
fn open_close_claim_scenario() {
    let mut w = world(100, 4);
    let buyer = key(4);
    let mut s = open_session(
        &mut w.provider, &w.provider_key, &mut w.node, &w.node_key, &buyer, 1, 10, 1_000,
    )
    .unwrap();
    assert_eq!(s.escrow_lamports, 1000);
    assert_eq!(s.remaining_balance, 1000);
    assert_eq!(s.end_ts, 1_600);
    assert_eq!(w.node.active_sessions, 1);
    assert_eq!(w.provider.total_sessions, 1);

    let refund = close_session(&mut s, &mut w.node, &w.node_key, &buyer, 1_240).unwrap();
    assert_eq!(refund, 600);
    assert_eq!(s.remaining_balance, 400);
    assert_eq!(s.state, SessionState::Closed);
    assert_eq!(w.node.active_sessions, 0);

    let split = claim_payout(
        &mut w.provider, &w.provider_key, &mut w.node, &w.node_key, &mut s, &mut w.treasury,
        &w.owner, 1_240,
    )
    .unwrap();
    assert_eq!(split.provider_share, 320);
    assert_eq!(split.treasury_share, 80);
    assert_eq!(s.state, SessionState::Claimed);
    assert_eq!(s.remaining_balance, 0);
    assert_eq!(w.treasury.total_collected, 80);
    assert_eq!(w.provider.total_earnings, 320);
    assert_eq!(w.node.total_earnings, 320);
    assert_eq!(w.provider.total_uptime_seconds, 600);
    assert_eq!(w.node.active_sessions, 0);
    // escrow is conserved: what is left plus everything paid out
    assert_eq!(s.remaining_balance + refund + split.provider_share + split.treasury_share, 1000);
}

#[test]
fn second_claim_is_already_claimed() {
    let mut w = world(100, 4);
    let buyer = key(4);
    let mut s = open_session(
        &mut w.provider, &w.provider_key, &mut w.node, &w.node_key, &buyer, 1, 1, 0,
    )
    .unwrap();
    claim_payout(
        &mut w.provider, &w.provider_key, &mut w.node, &w.node_key, &mut s, &mut w.treasury,
        &w.owner, 60,
    )
    .unwrap();
    assert_eq!(w.node.active_sessions, 0);
    let again = claim_payout(
        &mut w.provider, &w.provider_key, &mut w.node, &w.node_key, &mut s, &mut w.treasury,
        &w.owner, 10_000,
    );
    assert_eq!(again, Err(DvpnError::AlreadyClaimed));
    assert_eq!(w.treasury.total_collected, 20);
}

#[test]
fn claim_before_end_is_refused() {
    let mut w = world(100, 4);
    let buyer = key(4);
    let mut s = open_session(
        &mut w.provider, &w.provider_key, &mut w.node, &w.node_key, &buyer, 1, 1, 0,
    )
    .unwrap();
    let r = claim_payout(
        &mut w.provider, &w.provider_key, &mut w.node, &w.node_key, &mut s, &mut w.treasury,
        &w.owner, 59,
    );
    assert_eq!(r, Err(DvpnError::SessionNotEnded));
    assert_eq!(s.state, SessionState::Active);
    let stranger = claim_payout(
        &mut w.provider, &w.provider_key, &mut w.node, &w.node_key, &mut s, &mut w.treasury,
        &key(8), 60,
    );
    assert_eq!(stranger, Err(DvpnError::Unauthorized));
}

#[test]
fn capacity_one_refuses_second_session() {
    let mut w = world(100, 1);
    let buyer = key(4);
    open_session(&mut w.provider, &w.provider_key, &mut w.node, &w.node_key, &buyer, 1, 5, 0)
        .unwrap();
    let second =
        open_session(&mut w.provider, &w.provider_key, &mut w.node, &w.node_key, &buyer, 2, 5, 0);
    assert_eq!(second.unwrap_err(), DvpnError::NodeAtCapacity);
    assert_eq!(w.node.active_sessions, 1);
    assert_eq!(w.provider.total_sessions, 1);
}

#[test]
fn open_session_refusals() {
    let mut w = world(u64::MAX, 3);
    let buyer = key(4);
    let zero =
        open_session(&mut w.provider, &w.provider_key, &mut w.node, &w.node_key, &buyer, 1, 0, 0);
    assert_eq!(zero.unwrap_err(), DvpnError::InvalidMinutes);
    let overflow =
        open_session(&mut w.provider, &w.provider_key, &mut w.node, &w.node_key, &buyer, 1, 2, 0);
    assert_eq!(overflow.unwrap_err(), DvpnError::MathOverflow);
    w.node.price_per_minute_lamports = 1;
    let late = open_session(
        &mut w.provider, &w.provider_key, &mut w.node, &w.node_key, &buyer, 1, 2, i64::MAX - 60,
    );
    assert_eq!(late.unwrap_err(), DvpnError::MathOverflow);
    let other_provider =
        open_session(&mut w.provider, &key(99), &mut w.node, &w.node_key, &buyer, 1, 2, 0);
    assert_eq!(other_provider.unwrap_err(), DvpnError::Unauthorized);
    w.node.is_active = false;
    let inactive =
        open_session(&mut w.provider, &w.provider_key, &mut w.node, &w.node_key, &buyer, 1, 2, 0);
    assert_eq!(inactive.unwrap_err(), DvpnError::NodeInactive);
    assert_eq!(w.node.active_sessions, 0);
}

#[test]
fn token_session_holds_the_token_amount() {
    let mut w = world(100, 3);
    let buyer = key(4);
    let mint = key(6);
    let s = open_session_spl(
        &mut w.provider, &w.provider_key, &mut w.node, &w.node_key, &buyer, &mint, 1, 3, 777, 5,
    )
    .unwrap();
    assert_eq!(s.escrow_lamports, 777);
    assert_eq!(s.remaining_balance, 777);
    assert_eq!(s.payment_token, mint);
    assert_eq!(s.end_ts, 185);
    let none = open_session_spl(
        &mut w.provider, &w.provider_key, &mut w.node, &w.node_key, &buyer, &mint, 2, 3, 0, 5,
    );
    assert_eq!(none.unwrap_err(), DvpnError::InvalidAmount);
}

#[test]
fn native_session_pays_with_zero_key() {
    let mut w = world(3, 3);
    let s = open_session(
        &mut w.provider, &w.provider_key, &mut w.node, &w.node_key, &key(4), 1, 7, 0,
    )
    .unwrap();
    assert_eq!(s.payment_token, Key::zero());
    assert_eq!(s.escrow_lamports, 21);
    assert_eq!(s.last_proof_hash, [0u8; 32]);
}

#[test]
fn close_refunds_pro_rata_and_only_for_buyer() {
    let mut w = world(7, 3);
    let buyer = key(4);
    let mut s = open_session(
        &mut w.provider, &w.provider_key, &mut w.node, &w.node_key, &buyer, 1, 3, 100,
    )
    .unwrap();
    // escrow 21 over 180 s; after 100 s used = floor(100 * 21 / 180) = 11
    assert_eq!(
        close_session(&mut s, &mut w.node, &w.node_key, &key(8), 200),
        Err(DvpnError::Unauthorized)
    );
    let refund = close_session(&mut s, &mut w.node, &w.node_key, &buyer, 200).unwrap();
    assert_eq!(refund, 10);
    assert_eq!(s.remaining_balance, 11);
    assert_eq!(
        close_session(&mut s, &mut w.node, &w.node_key, &buyer, 200),
        Err(DvpnError::SessionNotActive)
    );
}

#[test]
fn close_at_start_and_after_end() {
    let mut w = world(10, 3);
    let buyer = key(4);
    let mut a = open_session(
        &mut w.provider, &w.provider_key, &mut w.node, &w.node_key, &buyer, 1, 2, 50,
    )
    .unwrap();
    assert_eq!(close_session(&mut a, &mut w.node, &w.node_key, &buyer, 50), Ok(20));
    let mut b = open_session(
        &mut w.provider, &w.provider_key, &mut w.node, &w.node_key, &buyer, 2, 2, 50,
    )
    .unwrap();
    assert_eq!(close_session(&mut b, &mut w.node, &w.node_key, &buyer, 500), Ok(0));
    assert_eq!(b.remaining_balance, 20);
    // a clock that reads before the start counts as no time elapsed
    let mut c = open_session(
        &mut w.provider, &w.provider_key, &mut w.node, &w.node_key, &buyer, 3, 2, 50,
    )
    .unwrap();
    assert_eq!(close_session(&mut c, &mut w.node, &w.node_key, &buyer, 10), Ok(20));
}

#[test]
fn chunks_then_close_never_refund_more_than_is_left() {
    let mut w = world(100, 3);
    let buyer = key(4);
    let mut s = open_session(
        &mut w.provider, &w.provider_key, &mut w.node, &w.node_key, &buyer, 1, 10, 0,
    )
    .unwrap();
    let split = claim_chunk(
        &mut w.provider, &w.provider_key, &w.node, &w.node_key, &mut s, &mut w.treasury, &w.owner,
        4096, [7u8; 32], 900,
    )
    .unwrap();
    assert_eq!(split.provider_share, 720);
    assert_eq!(split.treasury_share, 180);
    assert_eq!(s.remaining_balance, 100);
    assert_eq!(s.bytes_used, 4096);
    assert_eq!(s.last_proof_hash, [7u8; 32]);
    assert_eq!(w.provider.total_earnings, 720);
    assert_eq!(w.treasury.total_collected, 180);
    let refund = close_session(&mut s, &mut w.node, &w.node_key, &buyer, 0).unwrap();
    assert_eq!(refund, 100);
    assert_eq!(s.remaining_balance, 0);
}

#[test]
fn chunk_refusals() {
    let mut w = world(100, 3);
    let buyer = key(4);
    let mut s = open_session(
        &mut w.provider, &w.provider_key, &mut w.node, &w.node_key, &buyer, 1, 1, 0,
    )
    .unwrap();
    let zero = claim_chunk(
        &mut w.provider, &w.provider_key, &w.node, &w.node_key, &mut s, &mut w.treasury, &w.owner,
        1, [1u8; 32], 0,
    );
    assert_eq!(zero, Err(DvpnError::InvalidAmount));
    let too_much = claim_chunk(
        &mut w.provider, &w.provider_key, &w.node, &w.node_key, &mut s, &mut w.treasury, &w.owner,
        1, [1u8; 32], 101,
    );
    assert_eq!(too_much, Err(DvpnError::InsufficientBalance));
    assert_eq!(s.remaining_balance, 100);
    assert_eq!(s.bytes_used, 0);
    close_session(&mut s, &mut w.node, &w.node_key, &buyer, 30).unwrap();
    let closed = claim_chunk(
        &mut w.provider, &w.provider_key, &w.node, &w.node_key, &mut s, &mut w.treasury, &w.owner,
        1, [1u8; 32], 1,
    );
    assert_eq!(closed, Err(DvpnError::SessionNotActive));
}

#[test]
fn dispute_resolve_scenario() {
    let mut w = world(100, 3);
    let buyer = key(4);
    stake_provider(&mut w.provider, &w.owner, 500).unwrap();
    let rep_before = w.provider.reputation_score;
    let mut s = open_session(
        &mut w.provider, &w.provider_key, &mut w.node, &w.node_key, &buyer, 1, 4, 0,
    )
    .unwrap();
    assert_eq!(s.remaining_balance, 400);
    raise_dispute(
        &w.provider, &w.provider_key, &w.node, &w.node_key, &mut s, &buyer,
        &"no traffic".to_string(),
    )
    .unwrap();
    assert_eq!(s.state, SessionState::Disputed);
    resolve_dispute(
        &w.treasury, &w.admin, &mut w.provider, &w.provider_key, &w.node, &w.node_key, &mut s,
        200, 50,
    )
    .unwrap();
    assert_eq!(s.remaining_balance, 200);
    assert_eq!(s.state, SessionState::Resolved);
    assert_eq!(w.provider.stake_lamports, 450);
    assert_eq!(w.provider.reputation_score, rep_before - 100);
    let again = raise_dispute(
        &w.provider, &w.provider_key, &w.node, &w.node_key, &mut s, &buyer,
        &"again".to_string(),
    );
    assert_eq!(again, Err(DvpnError::InvalidSessionState));
    let claim = claim_payout(
        &mut w.provider, &w.provider_key, &mut w.node, &w.node_key, &mut s, &mut w.treasury,
        &w.owner, 1_000_000,
    );
    assert_eq!(claim, Err(DvpnError::InvalidSessionState));
}

#[test]
fn resolve_with_nothing_still_resolves() {
    let mut w = world(100, 3);
    let buyer = key(4);
    let mut s = open_session(
        &mut w.provider, &w.provider_key, &mut w.node, &w.node_key, &buyer, 1, 1, 0,
    )
    .unwrap();
    let rep = w.provider.reputation_score;
    raise_dispute(
        &w.provider, &w.provider_key, &w.node, &w.node_key, &mut s, &w.owner, &String::new(),
    )
    .unwrap();
    resolve_dispute(
        &w.treasury, &w.admin, &mut w.provider, &w.provider_key, &w.node, &w.node_key, &mut s, 0,
        0,
    )
    .unwrap();
    assert_eq!(s.state, SessionState::Resolved);
    assert_eq!(s.remaining_balance, 100);
    assert_eq!(w.provider.reputation_score, rep);
}

#[test]
fn dispute_and_resolve_refusals() {
    let mut w = world(100, 3);
    let buyer = key(4);
    let mut s = open_session(
        &mut w.provider, &w.provider_key, &mut w.node, &w.node_key, &buyer, 1, 1, 0,
    )
    .unwrap();
    let long = "x".repeat(201);
    assert_eq!(
        raise_dispute(&w.provider, &w.provider_key, &w.node, &w.node_key, &mut s, &buyer, &long),
        Err(DvpnError::StringTooLong)
    );
    assert_eq!(
        raise_dispute(
            &w.provider, &w.provider_key, &w.node, &w.node_key, &mut s, &key(8),
            &"x".to_string()
        ),
        Err(DvpnError::Unauthorized)
    );
    assert_eq!(
        resolve_dispute(
            &w.treasury, &w.admin, &mut w.provider, &w.provider_key, &w.node, &w.node_key, &mut s,
            0, 0
        ),
        Err(DvpnError::SessionNotDisputed)
    );
    raise_dispute(
        &w.provider, &w.provider_key, &w.node, &w.node_key, &mut s, &buyer, &"x".repeat(200),
    )
    .unwrap();
    assert_eq!(
        resolve_dispute(
            &w.treasury, &buyer, &mut w.provider, &w.provider_key, &w.node, &w.node_key, &mut s,
            0, 0
        ),
        Err(DvpnError::Unauthorized)
    );
    assert_eq!(
        resolve_dispute(
            &w.treasury, &w.admin, &mut w.provider, &w.provider_key, &w.node, &w.node_key, &mut s,
            101, 0
        ),
        Err(DvpnError::InsufficientBalance)
    );
    assert_eq!(
        resolve_dispute(
            &w.treasury, &w.admin, &mut w.provider, &w.provider_key, &w.node, &w.node_key, &mut s,
            0, 1
        ),
        Err(DvpnError::InsufficientStake)
    );
    assert_eq!(s.state, SessionState::Disputed);
}

#[test]
fn reputation_after_claimed_session() {
    let mut w = world(100, 3);
    let buyer = key(4);
    let mut s = open_session(
        &mut w.provider, &w.provider_key, &mut w.node, &w.node_key, &buyer, 1, 1, 0,
    )
    .unwrap();
    assert_eq!(
        update_reputation(&mut w.provider, &w.provider_key, &w.node, &w.node_key, &s, &buyer, 900),
        Err(DvpnError::InvalidSessionState)
    );
    claim_payout(
        &mut w.provider, &w.provider_key, &mut w.node, &w.node_key, &mut s, &mut w.treasury,
        &w.owner, 60,
    )
    .unwrap();
    assert_eq!(
        update_reputation(&mut w.provider, &w.provider_key, &w.node, &w.node_key, &s, &buyer, 1001),
        Err(DvpnError::InvalidRating)
    );
    assert_eq!(
        update_reputation(&mut w.provider, &w.provider_key, &w.node, &w.node_key, &s, &key(8), 900),
        Err(DvpnError::Unauthorized)
    );
    assert_eq!(w.provider.reputation_score, 500);
    update_reputation(&mut w.provider, &w.provider_key, &w.node, &w.node_key, &s, &buyer, 1000)
        .unwrap();
    assert_eq!(w.provider.reputation_score, 550);
    // repeated top ratings approach 1000 and never pass it
    let mut last = w.provider.reputation_score;
    for _ in 0..200 {
        update_reputation(&mut w.provider, &w.provider_key, &w.node, &w.node_key, &s, &buyer, 1000)
            .unwrap();
        assert!(w.provider.reputation_score >= last);
        assert!(w.provider.reputation_score <= 1000);
        last = w.provider.reputation_score;
    }
    assert!(last >= 991);
    for _ in 0..200 {
        update_reputation(&mut w.provider, &w.provider_key, &w.node, &w.node_key, &s, &buyer, 0)
            .unwrap();
        assert!(w.provider.reputation_score <= last);
        last = w.provider.reputation_score;
    }
    assert_eq!(last, 0);
}

#[test]
fn stake_and_unstake() {
    let owner = key(1);
    let mut p = register_provider(&owner);
    assert_eq!(p.reputation_score, 500);
    assert_eq!(p.stake_lamports, 0);
    assert_eq!(stake_provider(&mut p, &owner, 0), Err(DvpnError::InvalidAmount));
    assert_eq!(stake_provider(&mut p, &key(2), 5), Err(DvpnError::Unauthorized));
    stake_provider(&mut p, &owner, 300).unwrap();
    assert_eq!(p.stake_lamports, 300);
    assert_eq!(stake_provider(&mut p, &owner, u64::MAX), Err(DvpnError::MathOverflow));
    assert_eq!(unstake_provider(&mut p, &owner, 301), Err(DvpnError::InsufficientStake));
    assert_eq!(unstake_provider(&mut p, &owner, 0), Err(DvpnError::InvalidAmount));
    assert_eq!(unstake_provider(&mut p, &key(2), 1), Err(DvpnError::Unauthorized));
    unstake_provider(&mut p, &owner, 120).unwrap();
    assert_eq!(p.stake_lamports, 180);
}

#[test]
fn register_node_checks_and_defaults() {
    let owner = key(1);
    let pk = key(2);
    let mut p = register_provider(&owner);
    let long_endpoint = "e".repeat(81);
    let r = register_node(
        &mut p, &pk, &owner, 1, long_endpoint, "eu".to_string(), 1, [0u8; 32], 1, 10,
    );
    assert_eq!(r.unwrap_err(), DvpnError::StringTooLong);
    let r = register_node(
        &mut p, &pk, &owner, 1, "e".to_string(), "r".repeat(13), 1, [0u8; 32], 1, 10,
    );
    assert_eq!(r.unwrap_err(), DvpnError::StringTooLong);
    let r = register_node(
        &mut p, &pk, &owner, 1, "e".to_string(), "eu".to_string(), 1, [0u8; 32], 1, 0,
    );
    assert_eq!(r.unwrap_err(), DvpnError::InvalidAmount);
    let r = register_node(
        &mut p, &pk, &key(3), 1, "e".to_string(), "eu".to_string(), 1, [0u8; 32], 1, 10,
    );
    assert_eq!(r.unwrap_err(), DvpnError::Unauthorized);
    assert_eq!(p.node_count, 0);
    let n = register_node(
        &mut p, &pk, &owner, 42, "e".repeat(80), "r".repeat(12), 9, [4u8; 32], 3, 250,
    )
    .unwrap();
    assert_eq!(p.node_count, 1);
    assert_eq!(n.provider, pk);
    assert_eq!(n.node_id, 42);
    assert_eq!(n.quality_score, 10000);
    assert_eq!(n.active_sessions, 0);
    assert!(n.is_active);
    assert_eq!(n.bandwidth_mbps, 250);
    assert_eq!(n.max_capacity, 3);
    // a multi-byte region counts its bytes, not its characters
    let r = register_node(
        &mut p, &pk, &owner, 43, "e".to_string(), "\u{e9}\u{e9}\u{e9}\u{e9}\u{e9}\u{e9}\u{e9}".to_string(), 9, [4u8; 32], 3, 250,
    );
    assert_eq!(r.unwrap_err(), DvpnError::StringTooLong);
}

#[test]
fn keys_compare_by_bytes() {
    let mut bytes = [3u8; 32];
    let a = Key::new(bytes);
    bytes[31] = 4;
    let b = Key::new(bytes);
    assert!(a == Key::new([3u8; 32]));
    assert!(a != b);
    assert!(!a.same(&b));
    assert!(Key::zero().same(&Key::new([0u8; 32])));
}

#[test]
fn error_messages() {
    assert_eq!(DvpnError::AlreadyClaimed.message(), "Already claimed");
    assert_eq!(DvpnError::NodeAtCapacity.message(), "Node at capacity");
    assert_eq!(
        DvpnError::SubscriptionStillActive.message(),
        "Subscription still active - cannot renew yet"
    );
}
