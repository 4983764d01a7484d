//! The session escrow: open, close, claim, dispute, resolve, and the buyer's
//! rating of the provider afterwards.
use vstd::prelude::*;

use crate::error::DvpnError;
use crate::key::Key;
use crate::math::{
    elapsed_seconds, elapsed_spec, next_reputation, pro_rata_refund, refund_spec,
    reputation_spec, split_revenue, split_spec, MAX_REPUTATION, SLASH_REPUTATION_PENALTY, Split,
};
use crate::records::{
    byte_len, string_byte_len, Node, Provider, Session, SessionState, Treasury, MAX_REASON_LEN,
    SECONDS_PER_MINUTE,
};

verus! {

/// The cost of `minutes` at `price` per minute, where it fits in a `u64`.
pub open spec fn cost_spec(minutes: int, price: int) -> Option<u64> {
    if minutes * price > u64::MAX {
        None
    } else {
        Some((minutes * price) as u64)
    }
}

/// Multiplies minutes by the price per minute, failing on overflow.
pub fn session_cost(minutes: u32, price_per_minute: u64) -> (r: Option<u64>)
    ensures
        r == cost_spec(minutes as int, price_per_minute as int),
{
    (minutes as u64).checked_mul(price_per_minute)
}

/// Why opening a session of `minutes` on `node` at time `now` is refused, if
/// it is; `escrow` is what the buyer pays in, or `None` where the price
/// overflows.
pub open spec fn open_refusal(
    provider_key: Key,
    node: Node,
    minutes: u32,
    escrow: Option<u64>,
    now: i64,
) -> Option<DvpnError> {
    if minutes == 0 {
        Some(DvpnError::InvalidMinutes)
    } else if node.provider@ != provider_key@ {
        Some(DvpnError::Unauthorized)
    } else if !node.is_active {
        Some(DvpnError::NodeInactive)
    } else if node.active_sessions >= node.max_capacity {
        Some(DvpnError::NodeAtCapacity)
    } else if escrow is None {
        Some(DvpnError::MathOverflow)
    } else if now + minutes * SECONDS_PER_MINUTE > i64::MAX {
        Some(DvpnError::MathOverflow)
    } else {
        None
    }
}

/// `s` is a session just opened by `user` on the node at `node_key` at time
/// `now`, for `minutes`, holding `escrow` paid in `token`.
pub open spec fn is_opened_session(
    s: Session,
    user: Key,
    node_key: Key,
    session_id: u64,
    minutes: u32,
    now: i64,
    escrow: u64,
    token: Seq<u8>,
) -> bool {
    &&& s.user == user
    &&& s.node == node_key
    &&& s.session_id == session_id
    &&& s.start_ts == now
    &&& s.end_ts == now + minutes * SECONDS_PER_MINUTE
    &&& s.escrow_lamports == escrow
    &&& s.remaining_balance == escrow
    &&& s.bytes_used == 0
    &&& s.last_proof_hash@ == Seq::new(32, |_i: int| 0u8)
    &&& s.payment_token@ == token
    &&& s.state == SessionState::Active
    &&& s.wf()
}

/// What opening a session does to the node: one more active session.
pub open spec fn node_after_open(node: Node) -> Node {
    Node { active_sessions: (node.active_sessions + 1) as u32, ..node }
}

/// What opening a session does to the provider: one more session counted.
pub open spec fn provider_after_open(provider: Provider) -> Provider {
    Provider { total_sessions: provider.total_sessions.saturating_add(1), ..provider }
}

/// Checks the node, then records the new session on node and provider.
fn start_session(
    provider: &mut Provider,
    provider_key: &Key,
    node: &mut Node,
    node_key: &Key,
    user: &Key,
    session_id: u64,
    minutes: u32,
    escrow: Option<u64>,
    token: Key,
    now: i64,
) -> (r: Result<Session, DvpnError>)
    requires
        old(node).wf(),
    ensures
        match r {
            Ok(s) => {
                &&& open_refusal(*provider_key, *old(node), minutes, escrow, now) is None
                &&& is_opened_session(
                    s,
                    *user,
                    *node_key,
                    session_id,
                    minutes,
                    now,
                    escrow->0,
                    token@,
                )
                &&& *final(node) == node_after_open(*old(node))
                &&& *final(provider) == provider_after_open(*old(provider))
            },
            Err(e) => {
                &&& open_refusal(*provider_key, *old(node), minutes, escrow, now) == Some(e)
                &&& *final(node) == *old(node)
                &&& *final(provider) == *old(provider)
            },
        },
        final(node).wf(),
{
    if minutes == 0 {
        return Err(DvpnError::InvalidMinutes);
    }
    if !node.provider.same(provider_key) {
        return Err(DvpnError::Unauthorized);
    }
    if !node.is_active {
        return Err(DvpnError::NodeInactive);
    }
    if node.active_sessions >= node.max_capacity {
        return Err(DvpnError::NodeAtCapacity);
    }
    let amount = match escrow {
        Some(a) => a,
        None => {
            return Err(DvpnError::MathOverflow);
        },
    };
    let span: i64 = (minutes as i64) * SECONDS_PER_MINUTE;
    let end_ts = match now.checked_add(span) {
        Some(t) => t,
        None => {
            return Err(DvpnError::MathOverflow);
        },
    };
    let hash = [0u8; 32];
    assert(hash@ =~= Seq::new(32, |_i: int| 0u8));
    let session = Session {
        user: *user,
        node: *node_key,
        session_id,
        start_ts: now,
        end_ts,
        escrow_lamports: amount,
        remaining_balance: amount,
        bytes_used: 0,
        last_proof_hash: hash,
        payment_token: token,
        state: SessionState::Active,
    };
    node.active_sessions = node.active_sessions + 1;
    provider.total_sessions = provider.total_sessions.saturating_add(1);
    Ok(session)
}

/// Opens a session paid in the native currency. The buyer pays
/// `minutes * price_per_minute` into the new session's escrow; the runtime
/// moves that amount (`escrow_lamports` of the result) from the buyer to the
/// session. Fails on a zero length, a node that is inactive, full or not the
/// provider's, and a price or end time that overflows.
pub fn open_session(
    provider: &mut Provider,
    provider_key: &Key,
    node: &mut Node,
    node_key: &Key,
    user: &Key,
    session_id: u64,
    minutes: u32,
    now: i64,
) -> (r: Result<Session, DvpnError>)
    requires
        old(node).wf(),
    ensures
        ({
            let escrow = cost_spec(minutes as int, old(node).price_per_minute_lamports as int);
            match r {
                Ok(s) => {
                    &&& open_refusal(*provider_key, *old(node), minutes, escrow, now) is None
                    &&& is_opened_session(
                        s,
                        *user,
                        *node_key,
                        session_id,
                        minutes,
                        now,
                        escrow->0,
                        Key::zero_bytes(),
                    )
                    &&& *final(node) == node_after_open(*old(node))
                    &&& *final(provider) == provider_after_open(*old(provider))
                },
                Err(e) => {
                    &&& open_refusal(*provider_key, *old(node), minutes, escrow, now) == Some(e)
                    &&& *final(node) == *old(node)
                    &&& *final(provider) == *old(provider)
                },
            }
        }),
        final(node).wf(),
{
    let escrow = session_cost(minutes, node.price_per_minute_lamports);
    start_session(
        provider,
        provider_key,
        node,
        node_key,
        user,
        session_id,
        minutes,
        escrow,
        Key::zero(),
        now,
    )
}

/// Opens a session paid in the token `mint`: the buyer pays `amount_tokens`
/// into the escrow, which the runtime moves from the buyer's token account
/// to the session's. Fails on a zero amount, and as `open_session` does.
pub fn open_session_spl(
    provider: &mut Provider,
    provider_key: &Key,
    node: &mut Node,
    node_key: &Key,
    user: &Key,
    mint: &Key,
    session_id: u64,
    minutes: u32,
    amount_tokens: u64,
    now: i64,
) -> (r: Result<Session, DvpnError>)
    requires
        old(node).wf(),
    ensures
        ({
            let refusal = if minutes != 0 && amount_tokens == 0 {
                Some(DvpnError::InvalidAmount)
            } else {
                open_refusal(*provider_key, *old(node), minutes, Some(amount_tokens), now)
            };
            match r {
                Ok(s) => {
                    &&& refusal is None
                    &&& is_opened_session(
                        s,
                        *user,
                        *node_key,
                        session_id,
                        minutes,
                        now,
                        amount_tokens,
                        mint@,
                    )
                    &&& *final(node) == node_after_open(*old(node))
                    &&& *final(provider) == provider_after_open(*old(provider))
                },
                Err(e) => {
                    &&& refusal == Some(e)
                    &&& *final(node) == *old(node)
                    &&& *final(provider) == *old(provider)
                },
            }
        }),
        final(node).wf(),
{
    if minutes == 0 {
        return Err(DvpnError::InvalidMinutes);
    }
    if amount_tokens == 0 {
        return Err(DvpnError::InvalidAmount);
    }
    start_session(
        provider,
        provider_key,
        node,
        node_key,
        user,
        session_id,
        minutes,
        Some(amount_tokens),
        *mint,
        now,
    )
}

/// The node at `node_key` belongs to the provider at `provider_key`, and
/// `session` runs on it.
pub open spec fn serves(provider_key: Key, node: Node, node_key: Key, session: Session) -> bool {
    &&& node.provider@ == provider_key@
    &&& session.node@ == node_key@
}

fn check_serves(provider_key: &Key, node: &Node, node_key: &Key, session: &Session) -> (r: bool)
    ensures
        r == serves(*provider_key, *node, *node_key, *session),
{
    node.provider.same(provider_key) && session.node.same(node_key)
}

/// `after` is `before` with `paid_out` taken out of its escrow: what was paid
/// in stays recorded, and the balance falls by exactly what left.
pub open spec fn conserves(before: Session, after: Session, paid_out: int) -> bool {
    &&& after.escrow_lamports == before.escrow_lamports
    &&& after.remaining_balance + paid_out == before.remaining_balance
}

/// Length of a session's paid interval, in seconds.
pub open spec fn duration_spec(session: Session) -> int {
    session.end_ts - session.start_ts
}

fn session_duration(session: &Session) -> (r: u64)
    requires
        session.wf(),
    ensures
        r == duration_spec(*session),
{
    ((session.end_ts as i128) - (session.start_ts as i128)) as u64
}

/// Why the buyer `user` may not close `session` on the node at `node_key`.
pub open spec fn close_refusal(session: Session, node_key: Key, user: Key) -> Option<DvpnError> {
    if session.user@ != user@ || session.node@ != node_key@ {
        Some(DvpnError::Unauthorized)
    } else if session.state != SessionState::Active {
        Some(DvpnError::SessionNotActive)
    } else {
        None
    }
}

/// The refund for closing `session` at `now`: the pro-rata refund of the
/// unused time, but never more than the escrow still holds.
pub open spec fn close_refund(session: Session, now: i64) -> int {
    let r = refund_spec(
        session.escrow_lamports as int,
        elapsed_spec(session.start_ts as int, now as int),
        duration_spec(session),
    );
    if r > session.remaining_balance {
        session.remaining_balance as int
    } else {
        r
    }
}

/// The buyer closes an active session early. The unused time is refunded
/// pro rata (the runtime moves the returned amount from the session to the
/// buyer), the session becomes `Closed`, and the node frees its slot.
pub fn close_session(
    session: &mut Session,
    node: &mut Node,
    node_key: &Key,
    user: &Key,
    now: i64,
) -> (r: Result<u64, DvpnError>)
    requires
        old(session).wf(),
        old(node).wf(),
    ensures
        final(session).wf(),
        final(node).wf(),
        match r {
            Ok(refund) => {
                &&& close_refusal(*old(session), *node_key, *user) is None
                &&& refund == close_refund(*old(session), now)
                &&& *final(session) == (Session {
                    remaining_balance: (old(session).remaining_balance - refund) as u64,
                    state: SessionState::Closed,
                    ..*old(session)
                })
                &&& conserves(*old(session), *final(session), refund as int)
                &&& *final(node) == (Node {
                    active_sessions: old(node).active_sessions.saturating_sub(1),
                    ..*old(node)
                })
            },
            Err(e) => {
                &&& close_refusal(*old(session), *node_key, *user) == Some(e)
                &&& *final(session) == *old(session)
                &&& *final(node) == *old(node)
            },
        },
{
    if !session.user.same(user) || !session.node.same(node_key) {
        return Err(DvpnError::Unauthorized);
    }
    if session.state != SessionState::Active {
        return Err(DvpnError::SessionNotActive);
    }
    let elapsed = elapsed_seconds(session.start_ts, now);
    let total = session_duration(session);
    let pro_rata = pro_rata_refund(session.escrow_lamports, elapsed, total);
    let refund = if pro_rata > session.remaining_balance {
        session.remaining_balance
    } else {
        pro_rata
    };
    session.remaining_balance = session.remaining_balance - refund;
    session.state = SessionState::Closed;
    node.active_sessions = node.active_sessions.saturating_sub(1);
    Ok(refund)
}

/// Why the provider whose key signed as `signer` may not claim `session`.
pub open spec fn payout_refusal(
    provider: Provider,
    provider_key: Key,
    node: Node,
    node_key: Key,
    session: Session,
    signer: Key,
    now: i64,
) -> Option<DvpnError> {
    if provider.authority@ != signer@ || !serves(provider_key, node, node_key, session) {
        Some(DvpnError::Unauthorized)
    } else if session.state == SessionState::Claimed {
        Some(DvpnError::AlreadyClaimed)
    } else if session.state == SessionState::Disputed || session.state == SessionState::Resolved {
        Some(DvpnError::InvalidSessionState)
    } else if session.state == SessionState::Active && now < session.end_ts {
        Some(DvpnError::SessionNotEnded)
    } else {
        None
    }
}

/// The provider claims what is left in a session that has ended or that the
/// buyer closed. It is split 80/20: the runtime moves `provider_share` to
/// the provider and `treasury_share` to the treasury. The session becomes
/// `Claimed` with nothing left in it; earnings, uptime and the treasury's
/// total are credited, and a session that was still active frees its slot.
pub fn claim_payout(
    provider: &mut Provider,
    provider_key: &Key,
    node: &mut Node,
    node_key: &Key,
    session: &mut Session,
    treasury: &mut Treasury,
    signer: &Key,
    now: i64,
) -> (r: Result<Split, DvpnError>)
    requires
        old(session).wf(),
        old(node).wf(),
    ensures
        final(session).wf(),
        final(node).wf(),
        match r {
            Ok(split) => {
                let duration = duration_spec(*old(session)) as u64;
                &&& payout_refusal(
                    *old(provider),
                    *provider_key,
                    *old(node),
                    *node_key,
                    *old(session),
                    *signer,
                    now,
                ) is None
                &&& split == split_spec(old(session).remaining_balance)
                &&& *final(session) == (Session {
                    remaining_balance: 0,
                    state: SessionState::Claimed,
                    ..*old(session)
                })
                &&& conserves(
                    *old(session),
                    *final(session),
                    split.provider_share + split.treasury_share,
                )
                &&& *final(provider) == (Provider {
                    total_earnings: old(provider).total_earnings.saturating_add(
                        split.provider_share,
                    ),
                    total_uptime_seconds: old(provider).total_uptime_seconds.saturating_add(
                        duration,
                    ),
                    ..*old(provider)
                })
                &&& *final(node) == (Node {
                    total_earnings: old(node).total_earnings.saturating_add(split.provider_share),
                    total_uptime_seconds: old(node).total_uptime_seconds.saturating_add(duration),
                    active_sessions: if old(session).state == SessionState::Active {
                        old(node).active_sessions.saturating_sub(1)
                    } else {
                        old(node).active_sessions
                    },
                    ..*old(node)
                })
                &&& *final(treasury) == (Treasury {
                    total_collected: old(treasury).total_collected.saturating_add(
                        split.treasury_share,
                    ),
                    ..*old(treasury)
                })
            },
            Err(e) => {
                &&& payout_refusal(
                    *old(provider),
                    *provider_key,
                    *old(node),
                    *node_key,
                    *old(session),
                    *signer,
                    now,
                ) == Some(e)
                &&& *final(provider) == *old(provider)
                &&& *final(node) == *old(node)
                &&& *final(session) == *old(session)
                &&& *final(treasury) == *old(treasury)
            },
        },
{
    if !provider.authority.same(signer) || !check_serves(provider_key, node, node_key, session) {
        return Err(DvpnError::Unauthorized);
    }
    if session.state == SessionState::Claimed {
        return Err(DvpnError::AlreadyClaimed);
    }
    if session.state == SessionState::Disputed || session.state == SessionState::Resolved {
        return Err(DvpnError::InvalidSessionState);
    }
    if session.state == SessionState::Active && now < session.end_ts {
        return Err(DvpnError::SessionNotEnded);
    }
    let split = split_revenue(session.remaining_balance);
    let duration = session_duration(session);
    if session.state == SessionState::Active {
        node.active_sessions = node.active_sessions.saturating_sub(1);
    }
    session.remaining_balance = 0;
    session.state = SessionState::Claimed;
    treasury.total_collected = treasury.total_collected.saturating_add(split.treasury_share);
    provider.total_earnings = provider.total_earnings.saturating_add(split.provider_share);
    provider.total_uptime_seconds = provider.total_uptime_seconds.saturating_add(duration);
    node.total_earnings = node.total_earnings.saturating_add(split.provider_share);
    node.total_uptime_seconds = node.total_uptime_seconds.saturating_add(duration);
    Ok(split)
}

/// Why the provider whose key signed as `signer` may not claim `amount`
/// out of an active session.
pub open spec fn chunk_refusal(
    provider: Provider,
    provider_key: Key,
    node: Node,
    node_key: Key,
    session: Session,
    signer: Key,
    amount: u64,
) -> Option<DvpnError> {
    if provider.authority@ != signer@ || !serves(provider_key, node, node_key, session) {
        Some(DvpnError::Unauthorized)
    } else if session.state != SessionState::Active {
        Some(DvpnError::SessionNotActive)
    } else if amount == 0 {
        Some(DvpnError::InvalidAmount)
    } else if session.remaining_balance < amount {
        Some(DvpnError::InsufficientBalance)
    } else {
        None
    }
}

/// The provider claims part of an active session against a usage receipt.
/// The proof digest and the bytes used are recorded as reported; `amount`
/// leaves the escrow and is split 80/20 as in `claim_payout`.
pub fn claim_chunk(
    provider: &mut Provider,
    provider_key: &Key,
    node: &Node,
    node_key: &Key,
    session: &mut Session,
    treasury: &mut Treasury,
    signer: &Key,
    bytes_used: u64,
    proof_hash: [u8; 32],
    amount_lamports: u64,
) -> (r: Result<Split, DvpnError>)
    requires
        old(session).wf(),
    ensures
        final(session).wf(),
        match r {
            Ok(split) => {
                &&& chunk_refusal(
                    *old(provider),
                    *provider_key,
                    *node,
                    *node_key,
                    *old(session),
                    *signer,
                    amount_lamports,
                ) is None
                &&& split == split_spec(amount_lamports)
                &&& *final(session) == (Session {
                    last_proof_hash: proof_hash,
                    bytes_used: old(session).bytes_used.saturating_add(bytes_used),
                    remaining_balance: (old(session).remaining_balance - amount_lamports) as u64,
                    ..*old(session)
                })
                &&& conserves(
                    *old(session),
                    *final(session),
                    split.provider_share + split.treasury_share,
                )
                &&& *final(provider) == (Provider {
                    total_earnings: old(provider).total_earnings.saturating_add(
                        split.provider_share,
                    ),
                    ..*old(provider)
                })
                &&& *final(treasury) == (Treasury {
                    total_collected: old(treasury).total_collected.saturating_add(
                        split.treasury_share,
                    ),
                    ..*old(treasury)
                })
            },
            Err(e) => {
                &&& chunk_refusal(
                    *old(provider),
                    *provider_key,
                    *node,
                    *node_key,
                    *old(session),
                    *signer,
                    amount_lamports,
                ) == Some(e)
                &&& *final(provider) == *old(provider)
                &&& *final(session) == *old(session)
                &&& *final(treasury) == *old(treasury)
            },
        },
{
    if !provider.authority.same(signer) || !check_serves(provider_key, node, node_key, session) {
        return Err(DvpnError::Unauthorized);
    }
    if session.state != SessionState::Active {
        return Err(DvpnError::SessionNotActive);
    }
    if amount_lamports == 0 {
        return Err(DvpnError::InvalidAmount);
    }
    if session.remaining_balance < amount_lamports {
        return Err(DvpnError::InsufficientBalance);
    }
    let split = split_revenue(amount_lamports);
    session.last_proof_hash = proof_hash;
    session.bytes_used = session.bytes_used.saturating_add(bytes_used);
    session.remaining_balance = session.remaining_balance - amount_lamports;
    treasury.total_collected = treasury.total_collected.saturating_add(split.treasury_share);
    provider.total_earnings = provider.total_earnings.saturating_add(split.provider_share);
    Ok(split)
}

/// Why `signer` may not dispute `session`, giving `reason`.
pub open spec fn dispute_refusal(
    provider: Provider,
    provider_key: Key,
    node: Node,
    node_key: Key,
    session: Session,
    signer: Key,
    reason: Seq<char>,
) -> Option<DvpnError> {
    if byte_len(reason) > MAX_REASON_LEN {
        Some(DvpnError::StringTooLong)
    } else if !serves(provider_key, node, node_key, session) || (session.user@ != signer@
        && provider.authority@ != signer@) {
        Some(DvpnError::Unauthorized)
    } else if session.state != SessionState::Active && session.state != SessionState::Closed {
        Some(DvpnError::InvalidSessionState)
    } else {
        None
    }
}

/// The buyer or the provider disputes an active or closed session, which
/// becomes `Disputed` until resolved.
pub fn raise_dispute(
    provider: &Provider,
    provider_key: &Key,
    node: &Node,
    node_key: &Key,
    session: &mut Session,
    signer: &Key,
    reason: &String,
) -> (r: Result<(), DvpnError>)
    requires
        old(session).wf(),
    ensures
        final(session).wf(),
        match r {
            Ok(()) => {
                &&& dispute_refusal(
                    *provider,
                    *provider_key,
                    *node,
                    *node_key,
                    *old(session),
                    *signer,
                    reason@,
                ) is None
                &&& *final(session) == (Session { state: SessionState::Disputed, ..*old(session) })
            },
            Err(e) => {
                &&& dispute_refusal(
                    *provider,
                    *provider_key,
                    *node,
                    *node_key,
                    *old(session),
                    *signer,
                    reason@,
                ) == Some(e)
                &&& *final(session) == *old(session)
            },
        },
{
    if string_byte_len(reason) > MAX_REASON_LEN {
        return Err(DvpnError::StringTooLong);
    }
    if !check_serves(provider_key, node, node_key, session) || (!session.user.same(signer)
        && !provider.authority.same(signer)) {
        return Err(DvpnError::Unauthorized);
    }
    if session.state != SessionState::Active && session.state != SessionState::Closed {
        return Err(DvpnError::InvalidSessionState);
    }
    session.state = SessionState::Disputed;
    Ok(())
}

/// Why `resolver` may not settle `session` with these amounts. Disputes are
/// settled by the treasury's authority.
pub open spec fn resolve_refusal(
    treasury: Treasury,
    resolver: Key,
    provider: Provider,
    provider_key: Key,
    node: Node,
    node_key: Key,
    session: Session,
    refund_to_user: u64,
    slash_amount: u64,
) -> Option<DvpnError> {
    if treasury.authority@ != resolver@ || !serves(provider_key, node, node_key, session) {
        Some(DvpnError::Unauthorized)
    } else if session.state != SessionState::Disputed {
        Some(DvpnError::SessionNotDisputed)
    } else if session.remaining_balance < refund_to_user {
        Some(DvpnError::InsufficientBalance)
    } else if provider.stake_lamports < slash_amount {
        Some(DvpnError::InsufficientStake)
    } else {
        None
    }
}

/// The provider after a slash of `slash_amount`: a slash takes the stake and
/// costs reputation; no slash leaves the provider as it was.
pub open spec fn provider_after_slash(provider: Provider, slash_amount: u64) -> Provider {
    if slash_amount > 0 {
        Provider {
            stake_lamports: (provider.stake_lamports - slash_amount) as u64,
            reputation_score: provider.reputation_score.saturating_sub(SLASH_REPUTATION_PENALTY),
            ..provider
        }
    } else {
        provider
    }
}

/// Settles a disputed session: `refund_to_user` goes back to the buyer (the
/// runtime moves it), the provider's stake is slashed by `slash_amount`, and
/// the session becomes `Resolved` whatever the amounts, zero included.
pub fn resolve_dispute(
    treasury: &Treasury,
    resolver: &Key,
    provider: &mut Provider,
    provider_key: &Key,
    node: &Node,
    node_key: &Key,
    session: &mut Session,
    refund_to_user: u64,
    slash_amount: u64,
) -> (r: Result<(), DvpnError>)
    requires
        old(session).wf(),
        old(provider).wf(),
    ensures
        final(session).wf(),
        final(provider).wf(),
        match r {
            Ok(()) => {
                &&& resolve_refusal(
                    *treasury,
                    *resolver,
                    *old(provider),
                    *provider_key,
                    *node,
                    *node_key,
                    *old(session),
                    refund_to_user,
                    slash_amount,
                ) is None
                &&& *final(session) == (Session {
                    remaining_balance: (old(session).remaining_balance - refund_to_user) as u64,
                    state: SessionState::Resolved,
                    ..*old(session)
                })
                &&& conserves(*old(session), *final(session), refund_to_user as int)
                &&& *final(provider) == provider_after_slash(*old(provider), slash_amount)
            },
            Err(e) => {
                &&& resolve_refusal(
                    *treasury,
                    *resolver,
                    *old(provider),
                    *provider_key,
                    *node,
                    *node_key,
                    *old(session),
                    refund_to_user,
                    slash_amount,
                ) == Some(e)
                &&& *final(provider) == *old(provider)
                &&& *final(session) == *old(session)
            },
        },
{
    if !treasury.authority.same(resolver) || !check_serves(provider_key, node, node_key, session) {
        return Err(DvpnError::Unauthorized);
    }
    if session.state != SessionState::Disputed {
        return Err(DvpnError::SessionNotDisputed);
    }
    if session.remaining_balance < refund_to_user {
        return Err(DvpnError::InsufficientBalance);
    }
    if provider.stake_lamports < slash_amount {
        return Err(DvpnError::InsufficientStake);
    }
    session.remaining_balance = session.remaining_balance - refund_to_user;
    if slash_amount > 0 {
        provider.stake_lamports = provider.stake_lamports - slash_amount;
        provider.reputation_score = provider.reputation_score.saturating_sub(
            SLASH_REPUTATION_PENALTY,
        );
    }
    session.state = SessionState::Resolved;
    Ok(())
}

/// Why the buyer `user` may not rate the provider with `rating` after
/// `session`.
pub open spec fn rating_refusal(
    provider_key: Key,
    node: Node,
    node_key: Key,
    session: Session,
    user: Key,
    rating: u16,
) -> Option<DvpnError> {
    if rating > MAX_REPUTATION {
        Some(DvpnError::InvalidRating)
    } else if session.user@ != user@ || !serves(provider_key, node, node_key, session) {
        Some(DvpnError::Unauthorized)
    } else if session.state != SessionState::Claimed && session.state != SessionState::Resolved {
        Some(DvpnError::InvalidSessionState)
    } else {
        None
    }
}

/// The buyer of a claimed or resolved session rates its provider on
/// `0..=MAX_REPUTATION`; the provider's reputation moves one tenth of the
/// way toward the rating.
pub fn update_reputation(
    provider: &mut Provider,
    provider_key: &Key,
    node: &Node,
    node_key: &Key,
    session: &Session,
    user: &Key,
    rating: u16,
) -> (r: Result<(), DvpnError>)
    requires
        old(provider).wf(),
    ensures
        final(provider).wf(),
        match r {
            Ok(()) => {
                &&& rating_refusal(*provider_key, *node, *node_key, *session, *user, rating) is None
                &&& *final(provider) == (Provider {
                    reputation_score: reputation_spec(
                        old(provider).reputation_score as int,
                        rating as int,
                    ) as u16,
                    ..*old(provider)
                })
            },
            Err(e) => {
                &&& rating_refusal(*provider_key, *node, *node_key, *session, *user, rating)
                    == Some(e)
                &&& *final(provider) == *old(provider)
            },
        },
{
    if rating > MAX_REPUTATION {
        return Err(DvpnError::InvalidRating);
    }
    if !session.user.same(user) || !check_serves(provider_key, node, node_key, session) {
        return Err(DvpnError::Unauthorized);
    }
    if session.state != SessionState::Claimed && session.state != SessionState::Resolved {
        return Err(DvpnError::InvalidSessionState);
    }
    provider.reputation_score = next_reputation(provider.reputation_score, rating);
    Ok(())
}

} // verus!
