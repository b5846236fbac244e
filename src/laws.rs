use vstd::prelude::*;
use crate::config::{BotConfig, TokenSafetyStatus};
use crate::admission::{after_buy, day_of, rolled, AdmissionRejected, AdmissionState};
use crate::ledger::{is_live, settled};
use crate::token_analyzer::{checks_of, metrics_of, safety_score, status_of_score, status_rank};
use crate::trader::buy_rejection;
use crate::admission::eligibility_rejection;
use crate::types::{BondingCurveInfo, Position, PositionStatus, TokenAnalysis, TokenInfo};

verus! {

/// A score's tier is fixed by the thresholds: 70 and above is Safe, 40 to 69
/// Suspicious, below 40 Dangerous.
pub proof fn status_thresholds(score: int)
    requires
        0 <= score <= 100,
    ensures
        score >= 70 ==> status_of_score(score) == TokenSafetyStatus::Safe,
        40 <= score < 70 ==> status_of_score(score) == TokenSafetyStatus::Suspicious,
        score < 40 ==> status_of_score(score) == TokenSafetyStatus::Dangerous,
{
}

/// A higher score never gives a less safe tier.
pub proof fn status_is_monotonic(a: int, b: int)
    requires
        0 <= a <= b <= 100,
    ensures
        status_rank(status_of_score(a)) <= status_rank(status_of_score(b)),
{
}

/// While a buy is in flight no buy is admitted; when every other rule
/// passes, the refusal is `OperationInFlight`.
pub proof fn in_flight_buy_blocks_admission(
    s: AdmissionState,
    positions: Map<Seq<char>, Position>,
    c: BotConfig,
    a: TokenAnalysis,
    now_ms: int,
)
    requires
        s.buy_in_flight,
    ensures
        buy_rejection(rolled(s, now_ms), positions, c, a, now_ms) is Some,
        buy_rejection(rolled(AdmissionState { buy_in_flight: false, ..s }, now_ms), positions, c, a, now_ms) is None
            ==> buy_rejection(rolled(s, now_ms), positions, c, a, now_ms) == Some(AdmissionRejected::OperationInFlight),
{
}

/// Once the engine is stopped, every buy is refused with `ShuttingDown`.
pub proof fn stopped_admits_no_buy(
    s: AdmissionState,
    positions: Map<Seq<char>, Position>,
    c: BotConfig,
    a: TokenAnalysis,
    now_ms: int,
)
    requires
        s.stopped,
    ensures
        buy_rejection(rolled(s, now_ms), positions, c, a, now_ms) == Some(AdmissionRejected::ShuttingDown),
{
}

/// A second buy within the cooldown of the last one, on the same UTC day,
/// is refused with `CooldownActive` and leaves the admission state as it was.
pub proof fn buy_within_cooldown_refused(
    s: AdmissionState,
    positions: Map<Seq<char>, Position>,
    c: BotConfig,
    a: TokenAnalysis,
    now_ms: int,
)
    requires
        !s.stopped,
        eligibility_rejection(a, c) is None,
        !(positions.contains_key(a.token.address@) && is_live(positions[a.token.address@])),
        day_of(now_ms) == s.reset_day,
        now_ms < s.last_buy_ms + c.trading_cooldown_ms,
    ensures
        rolled(s, now_ms) == s,
        buy_rejection(rolled(s, now_ms), positions, c, a, now_ms) == Some(AdmissionRejected::CooldownActive),
{
}

/// Rank of a lifecycle stage: Open, then Partial, then Closed.
pub open spec fn stage(status: PositionStatus) -> int {
    match status {
        PositionStatus::Open => 0,
        PositionStatus::Partial => 1,
        PositionStatus::Closed => 2,
    }
}

/// A settlement only moves a position forward in its lifecycle: a Closed
/// position stays Closed, and it is Closed exactly when nothing is left.
pub proof fn settlement_never_reopens(p: Position, sold: int, now_ms: int)
    requires
        p.wf(),
        0 <= sold <= p.amount,
    ensures
        stage(settled(p, sold, now_ms).status) >= stage(p.status),
        p.status == PositionStatus::Closed ==> settled(p, sold, now_ms).status == PositionStatus::Closed,
        (settled(p, sold, now_ms).status == PositionStatus::Closed) == (settled(p, sold, now_ms).amount == 0),
{
}

/// A repeated launch event for an asset that is still held is never
/// admitted, so duplicates in the feed cannot open a second position.
pub proof fn duplicate_event_not_admitted(
    s: AdmissionState,
    positions: Map<Seq<char>, Position>,
    c: BotConfig,
    a: TokenAnalysis,
    now_ms: int,
)
    requires
        positions.contains_key(a.token.address@),
        is_live(positions[a.token.address@]),
    ensures
        buy_rejection(rolled(s, now_ms), positions, c, a, now_ms) is Some,
{
}

/// Opening a position and then settling a sale of its whole amount leaves
/// it Closed with nothing held.
pub proof fn full_sale_closes(held: Map<Seq<char>, Position>, p: Position, now_ms: int)
    ensures
        ({
            let opened = held.insert(p.token_address@, p);
            let after = opened.insert(p.token_address@, settled(opened[p.token_address@], p.amount as int, now_ms));
            &&& after[p.token_address@].status == PositionStatus::Closed
            &&& after[p.token_address@].amount == 0
        }),
{
}

/// Metrics and safety depend on the snapshot and the token's metadata
/// alone: equal inputs give equal results.
pub proof fn evaluation_is_deterministic(c1: BondingCurveInfo, c2: BondingCurveInfo, t1: TokenInfo, t2: TokenInfo)
    requires
        c1 == c2,
        t1 == t2,
    ensures
        metrics_of(c1) == metrics_of(c2),
        checks_of(c1, t1) == checks_of(c2, t2),
        safety_score(checks_of(c1, t1)) == safety_score(checks_of(c2, t2)),
        status_of_score(safety_score(checks_of(c1, t1))) == status_of_score(safety_score(checks_of(c2, t2))),
{
}

/// Buys made in two different UTC days count in different daily buckets:
/// the second buy starts a fresh count.
pub proof fn day_change_starts_new_bucket(s: AdmissionState, t1: int, t2: int)
    requires
        0 <= t1 <= u64::MAX,
        0 <= t2 <= u64::MAX,
        day_of(t1) != day_of(t2),
    ensures
        ({
            let first = after_buy(rolled(s, t1), true, t1);
            let second = after_buy(rolled(first, t2), true, t2);
            &&& first.reset_day == day_of(t1)
            &&& second.reset_day == day_of(t2)
            &&& second.daily_trades == 1
        }),
{
    assert(0 <= day_of(t1) <= u64::MAX) by {
        vstd::arithmetic::div_mod::lemma_div_pos_is_pos(t1, 86_400_000);
        vstd::arithmetic::div_mod::lemma_div_is_ordered_by_denominator(t1, 1, 86_400_000);
    }
    assert(0 <= day_of(t2) <= u64::MAX) by {
        vstd::arithmetic::div_mod::lemma_div_pos_is_pos(t2, 86_400_000);
        vstd::arithmetic::div_mod::lemma_div_is_ordered_by_denominator(t2, 1, 86_400_000);
    }
}

} // verus!
