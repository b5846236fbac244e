use vstd::prelude::*;
use vstd::string::*;
use crate::config::{ONE_HOUR_MS, TokenSafetyStatus};
use crate::fixed_point::{mul_div_floor, mul_div_sat, PRICE_SCALE};
use crate::types::{
    BondingCurveInfo, SafetyChecks, TokenAnalysis, TokenInfo, TokenMetrics, TokenOpportunities,
    TokenSafety,
};

verus! {

/// Quote reserves of a curve, virtual and real, in lamports.
pub open spec fn quote_total(c: BondingCurveInfo) -> int {
    c.virtual_sol_reserves + c.real_sol_reserves
}

/// `max(1, virtual_base - real_base)`: the base depth that prices divide by.
pub open spec fn base_depth(c: BondingCurveInfo) -> int {
    if c.virtual_token_reserves > c.real_token_reserves {
        c.virtual_token_reserves - c.real_token_reserves
    } else {
        1
    }
}

/// Metrics of a curve: price is quote over base depth, market cap is price
/// times total supply (saturating), liquidity is the quote total.
pub open spec fn metrics_of(c: BondingCurveInfo) -> TokenMetrics {
    TokenMetrics {
        market_cap: mul_div_sat(quote_total(c), c.token_total_supply as int, base_depth(c)) as u128,
        liquidity: quote_total(c) as u128,
        holders: 0,
        volume_24h: 0,
        price: (quote_total(c) * PRICE_SCALE / base_depth(c)) as u128,
        price_change_24h_bps: 0,
    }
}

/// Safety score: 100 less a penalty for each failed check, kept in 0..=100.
pub open spec fn safety_score(c: SafetyChecks) -> int {
    let raw = 100 - (if c.has_lock { 0int } else { 35 }) - (if c.mint_revoked { 0int } else { 40 })
        - (if c.is_honeypot { 60int } else { 0 }) - (if c.has_social_links { 0int } else { 10 })
        - (if c.creator_verified { 0int } else { 10 }) - (if c.suspicious_creator { 30int } else { 0 });
    if raw < 0 {
        0
    } else if raw > 100 {
        100
    } else {
        raw
    }
}

/// Safety tier of a score: 70 and up Safe, 40 and up Suspicious, else Dangerous.
pub open spec fn status_of_score(score: int) -> TokenSafetyStatus {
    if score >= 70 {
        TokenSafetyStatus::Safe
    } else if score >= 40 {
        TokenSafetyStatus::Suspicious
    } else {
        TokenSafetyStatus::Dangerous
    }
}

/// Rank of a tier, safest highest.
pub open spec fn status_rank(s: TokenSafetyStatus) -> int {
    match s {
        TokenSafetyStatus::Safe => 2,
        TokenSafetyStatus::Suspicious => 1,
        TokenSafetyStatus::Dangerous => 0,
    }
}

/// The checks that can be read off a curve and the token's metadata.
pub open spec fn checks_of(curve: BondingCurveInfo, token: TokenInfo) -> SafetyChecks {
    SafetyChecks {
        has_lock: !curve.complete,
        mint_revoked: false,
        is_honeypot: false,
        has_social_links: token.twitter is Some || token.telegram is Some || token.website is Some,
        creator_verified: false,
        suspicious_creator: false,
    }
}

/// Market caps strictly between zero and this many lamports earn a bonus.
pub const SMALL_CAP_LIMIT_LAMPORTS: u128 = 10_000_000_000_000;

/// Liquidity of at least this many lamports earns a bonus.
pub const LIQUIDITY_BONUS_LAMPORTS: u128 = 5_000_000_000;

/// Decimal digit for `d` in 0..=9.
pub open spec fn digit_char(d: int) -> char {
    if d == 0 { '0' } else if d == 1 { '1' } else if d == 2 { '2' } else if d == 3 { '3' }
    else if d == 4 { '4' } else if d == 5 { '5' } else if d == 6 { '6' } else if d == 7 { '7' }
    else if d == 8 { '8' } else { '9' }
}

/// Decimal text of a natural number, without leading zeros.
pub open spec fn decimal_text(n: nat) -> Seq<char>
    decreases n,
{
    if n < 10 {
        seq![digit_char(n as int)]
    } else {
        decimal_text(n / 10) + seq![digit_char((n % 10) as int)]
    }
}

/// Appends the digit `d` (0..=9) to `out`.
fn push_digit(out: &mut String, d: u128)
    requires
        d < 10,
    ensures
        final(out)@ == old(out)@ + seq![digit_char(d as int)],
{
    proof {
        reveal_strlit("0");
        reveal_strlit("1");
        reveal_strlit("2");
        reveal_strlit("3");
        reveal_strlit("4");
        reveal_strlit("5");
        reveal_strlit("6");
        reveal_strlit("7");
        reveal_strlit("8");
        reveal_strlit("9");
    }
    if d == 0 {
        out.append("0");
    } else if d == 1 {
        out.append("1");
    } else if d == 2 {
        out.append("2");
    } else if d == 3 {
        out.append("3");
    } else if d == 4 {
        out.append("4");
    } else if d == 5 {
        out.append("5");
    } else if d == 6 {
        out.append("6");
    } else if d == 7 {
        out.append("7");
    } else if d == 8 {
        out.append("8");
    } else {
        out.append("9");
    }
}

/// Appends the decimal text of `n` to `out`.
fn push_decimal(out: &mut String, n: u128)
    ensures
        final(out)@ == old(out)@ + decimal_text(n as nat),
    decreases n,
{
    if n >= 10 {
        push_decimal(out, n / 10);
    }
    push_digit(out, n % 10);
    proof {
        if n >= 10 {
            assert(decimal_text(n as nat) == decimal_text((n / 10) as nat) + seq![digit_char((n % 10) as int)]);
        }
    }
}

/// Decimal text of `n`: digits, no sign, no leading zeros.
fn decimal_string(n: u128) -> (r: String)
    ensures
        r@ == decimal_text(n as nat),
{
    let mut out = String::new();
    push_decimal(&mut out, n);
    assert(out@ =~= decimal_text(n as nat));
    out
}

/// True when the token is younger than `limit_ms` at `now_ms`.
pub open spec fn younger_than(created_at_ms: int, now_ms: int, limit_ms: int) -> bool {
    now_ms < created_at_ms + limit_ms
}

/// Opportunity score before the cap of 100.
pub open spec fn raw_opportunity(m: TokenMetrics, s: TokenSafety, created_at_ms: int, now_ms: int) -> int {
    (match s.status {
        TokenSafetyStatus::Safe => 30int,
        TokenSafetyStatus::Suspicious => 10,
        TokenSafetyStatus::Dangerous => 0,
    }) + (if 0 < m.market_cap < SMALL_CAP_LIMIT_LAMPORTS { 20int } else { 0 })
       + (if m.liquidity >= LIQUIDITY_BONUS_LAMPORTS { 15int } else { 0 })
       + (if younger_than(created_at_ms, now_ms, ONE_HOUR_MS as int) { 25int }
          else if younger_than(created_at_ms, now_ms, 6 * ONE_HOUR_MS) { 15 } else { 0 })
}

/// Opportunity score: the sum of the bonuses, at most 100.
pub open spec fn opportunity_score(m: TokenMetrics, s: TokenSafety, created_at_ms: int, now_ms: int) -> int {
    let raw = raw_opportunity(m, s, created_at_ms, now_ms);
    if raw > 100 { 100 } else { raw }
}

/// The reasons, in order, one for each bonus that applied.
pub open spec fn opportunity_reasons(m: TokenMetrics, s: TokenSafety, created_at_ms: int, now_ms: int) -> Seq<Seq<char>> {
    let a = match s.status {
        TokenSafetyStatus::Safe => seq!["Token passed safety checks"@],
        TokenSafetyStatus::Suspicious => seq!["Token is moderately safe"@],
        TokenSafetyStatus::Dangerous => Seq::empty(),
    };
    let b = if 0 < m.market_cap < SMALL_CAP_LIMIT_LAMPORTS {
        seq!["Market cap "@ + decimal_text(m.market_cap as nat) + " lamports within range"@]
    } else {
        Seq::empty()
    };
    let c = if m.liquidity >= LIQUIDITY_BONUS_LAMPORTS {
        seq!["Sufficient liquidity: "@ + decimal_text(m.liquidity as nat) + " lamports"@]
    } else {
        Seq::empty()
    };
    let d = if younger_than(created_at_ms, now_ms, ONE_HOUR_MS as int) {
        seq!["Very new token - early entry opportunity"@]
    } else if younger_than(created_at_ms, now_ms, 6 * ONE_HOUR_MS) {
        seq!["Recent token launch"@]
    } else {
        Seq::empty()
    };
    a + b + c + d
}

/// Token analyzer for safety and opportunity assessment.
pub struct TokenAnalyzer;

impl TokenAnalyzer {
    /// Analyzes a token from its metadata and its curve at time `now_ms`.
    pub fn analyze_token(token: TokenInfo, bonding_curve: BondingCurveInfo, now_ms: u64) -> (r: TokenAnalysis)
        ensures
            r.metrics == metrics_of(bonding_curve),
            r.safety.checks == checks_of(bonding_curve, token),
            r.safety.score == safety_score(r.safety.checks),
            r.safety.status == status_of_score(r.safety.score as int),
            r.opportunities.score == opportunity_score(r.metrics, r.safety, token.created_at_ms as int, now_ms as int),
            r.opportunities.reason_texts() == opportunity_reasons(r.metrics, r.safety, token.created_at_ms as int, now_ms as int),
            r.token == token,
            r.bonding_curve == bonding_curve,
    {
        let metrics = Self::calculate_metrics(&bonding_curve);
        let safety = Self::perform_safety_checks(&bonding_curve, &token);
        let opportunities = Self::calculate_opportunity_score(&metrics, &safety, &token, now_ms);
        TokenAnalysis { token, bonding_curve, metrics, safety, opportunities }
    }

    /// Derives price, market cap and liquidity from a curve.
    pub fn calculate_metrics(bonding_curve: &BondingCurveInfo) -> (r: TokenMetrics)
        ensures
            r == metrics_of(*bonding_curve),
    {
        let quote = bonding_curve.virtual_sol_reserves as u128 + bonding_curve.real_sol_reserves as u128;
        let depth: u64 = if bonding_curve.virtual_token_reserves > bonding_curve.real_token_reserves {
            bonding_curve.virtual_token_reserves - bonding_curve.real_token_reserves
        } else {
            1
        };
        proof {
            assert(quote * PRICE_SCALE <= u128::MAX) by (nonlinear_arith)
                requires
                    quote <= 2 * (u64::MAX as int),
                    PRICE_SCALE == 1_000_000_000,
            ;
        }
        let price = quote * PRICE_SCALE / (depth as u128);
        let market_cap = mul_div_floor(quote, bonding_curve.token_total_supply, depth);
        TokenMetrics {
            market_cap,
            liquidity: quote,
            holders: 0,
            volume_24h: 0,
            price,
            price_change_24h_bps: 0,
        }
    }

    /// Runs the safety checks that the curve and metadata allow and scores them.
    pub fn perform_safety_checks(bonding_curve: &BondingCurveInfo, token: &TokenInfo) -> (r: TokenSafety)
        ensures
            r.checks == checks_of(*bonding_curve, *token),
            r.score == safety_score(r.checks),
            r.status == status_of_score(r.score as int),
    {
        let checks = SafetyChecks {
            has_lock: !bonding_curve.complete,
            mint_revoked: false,
            is_honeypot: false,
            has_social_links: token.twitter.is_some() || token.telegram.is_some() || token.website.is_some(),
            creator_verified: false,
            suspicious_creator: false,
        };
        Self::safety_from_checks(checks)
    }

    /// Scores a set of check results and assigns the tier.
    pub fn safety_from_checks(checks: SafetyChecks) -> (r: TokenSafety)
        ensures
            r.checks == checks,
            r.score == safety_score(checks),
            r.status == status_of_score(r.score as int),
    {
        let mut score: i32 = 100;
        if !checks.has_lock {
            score = score - 35;
        }
        if !checks.mint_revoked {
            score = score - 40;
        }
        if checks.is_honeypot {
            score = score - 60;
        }
        if !checks.has_social_links {
            score = score - 10;
        }
        if !checks.creator_verified {
            score = score - 10;
        }
        if checks.suspicious_creator {
            score = score - 30;
        }
        let clamped: u32 = if score < 0 {
            0
        } else if score > 100 {
            100
        } else {
            score as u32
        };
        TokenSafety { status: Self::status_for_score(clamped), score: clamped, checks }
    }

    /// Safety tier of a score.
    pub fn status_for_score(score: u32) -> (r: TokenSafetyStatus)
        ensures
            r == status_of_score(score as int),
    {
        if score >= 70 {
            TokenSafetyStatus::Safe
        } else if score >= 40 {
            TokenSafetyStatus::Suspicious
        } else {
            TokenSafetyStatus::Dangerous
        }
    }

    /// Adds up the opportunity bonuses, with a reason for each.
    pub fn calculate_opportunity_score(
        metrics: &TokenMetrics,
        safety: &TokenSafety,
        token: &TokenInfo,
        now_ms: u64,
    ) -> (r: TokenOpportunities)
        ensures
            r.score == opportunity_score(*metrics, *safety, token.created_at_ms as int, now_ms as int),
            r.reason_texts() == opportunity_reasons(*metrics, *safety, token.created_at_ms as int, now_ms as int),
    {
        let ghost created = token.created_at_ms as int;
        let mut score: u32 = 0;
        let mut reasons: Vec<String> = Vec::new();
        match safety.status {
            TokenSafetyStatus::Safe => {
                score = score + 30;
                reasons.push(String::from_str("Token passed safety checks"));
            },
            TokenSafetyStatus::Suspicious => {
                score = score + 10;
                reasons.push(String::from_str("Token is moderately safe"));
            },
            TokenSafetyStatus::Dangerous => {},
        }
        let ghost after_a = reasons@.map_values(|s: String| s@);
        if 0 < metrics.market_cap && metrics.market_cap < SMALL_CAP_LIMIT_LAMPORTS {
            score = score + 20;
            let text = String::from_str("Market cap ").concat(decimal_string(metrics.market_cap).as_str()).concat(
                " lamports within range",
            );
            reasons.push(text);
        }
        let ghost after_b = reasons@.map_values(|s: String| s@);
        if metrics.liquidity >= LIQUIDITY_BONUS_LAMPORTS {
            score = score + 15;
            let text = String::from_str("Sufficient liquidity: ").concat(decimal_string(metrics.liquidity).as_str()).concat(
                " lamports",
            );
            reasons.push(text);
        }
        let ghost after_c = reasons@.map_values(|s: String| s@);
        let young = (now_ms as u128) < (token.created_at_ms as u128) + (ONE_HOUR_MS as u128);
        let recent = (now_ms as u128) < (token.created_at_ms as u128) + 6 * (ONE_HOUR_MS as u128);
        if young {
            score = score + 25;
            reasons.push(String::from_str("Very new token - early entry opportunity"));
        } else if recent {
            score = score + 15;
            reasons.push(String::from_str("Recent token launch"));
        }
        assert(reasons@.map_values(|s: String| s@) =~= opportunity_reasons(
            *metrics,
            *safety,
            created,
            now_ms as int,
        ));
        TokenOpportunities { score: if score > 100 { 100 } else { score }, reasons }
    }
}

/// Analyzes a token; see `TokenAnalyzer::analyze_token`.
pub fn analyze_token(token: TokenInfo, bonding_curve: BondingCurveInfo, now_ms: u64) -> (r: TokenAnalysis)
    ensures
        r.metrics == metrics_of(bonding_curve),
        r.safety.checks == checks_of(bonding_curve, token),
        r.safety.score == safety_score(r.safety.checks),
        r.safety.status == status_of_score(r.safety.score as int),
        r.opportunities.score == opportunity_score(r.metrics, r.safety, token.created_at_ms as int, now_ms as int),
        r.opportunities.reason_texts() == opportunity_reasons(r.metrics, r.safety, token.created_at_ms as int, now_ms as int),
        r.token == token,
        r.bonding_curve == bonding_curve,
{
    TokenAnalyzer::analyze_token(token, bonding_curve, now_ms)
}

} // verus!
