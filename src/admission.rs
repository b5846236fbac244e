use vstd::prelude::*;
use crate::config::{BotConfig, ONE_DAY_MS};
use crate::types::TokenAnalysis;

verus! {

/// Smallest safety score at which a token may be bought.
pub const MIN_SAFETY_SCORE: u32 = 60;

/// Why an admission was refused.
#[derive(Debug, Clone, Copy, PartialEq, Eq, Structural)]
pub enum AdmissionRejected {
    BelowSafetyThreshold,
    MarketCapOutOfRange,
    InsufficientLiquidity,
    /// A live position in the asset is already held.
    PositionAlreadyOpen,
    CooldownActive,
    DailyCapReached,
    OperationInFlight,
    /// The engine has been stopped and admits nothing further.
    ShuttingDown,
}

/// UTC day number of a time: whole days since the Unix epoch.
pub open spec fn day_of(ms: int) -> int {
    ms / ONE_DAY_MS as int
}

/// UTC day number of a time in milliseconds since the Unix epoch.
pub fn utc_day(now_ms: u64) -> (r: u64)
    ensures
        r == day_of(now_ms as int),
{
    now_ms / ONE_DAY_MS
}

/// The first eligibility rule, in order, that a token breaks.
pub open spec fn eligibility_rejection(a: TokenAnalysis, c: BotConfig) -> Option<AdmissionRejected> {
    if a.safety.score < MIN_SAFETY_SCORE {
        Some(AdmissionRejected::BelowSafetyThreshold)
    } else if a.metrics.market_cap < c.min_market_cap_lamports || a.metrics.market_cap > c.max_market_cap_lamports {
        Some(AdmissionRejected::MarketCapOutOfRange)
    } else if a.metrics.liquidity < c.min_liquidity_lamports {
        Some(AdmissionRejected::InsufficientLiquidity)
    } else {
        None
    }
}

/// Checks a token's safety score, market cap and liquidity against the configuration.
pub fn check_token(analysis: &TokenAnalysis, config: &BotConfig) -> (r: Result<(), AdmissionRejected>)
    ensures
        r is Ok <==> eligibility_rejection(*analysis, *config) is None,
        r matches Err(e) ==> eligibility_rejection(*analysis, *config) == Some(e),
{
    if analysis.safety.score < MIN_SAFETY_SCORE {
        return Err(AdmissionRejected::BelowSafetyThreshold);
    }
    if analysis.metrics.market_cap < config.min_market_cap_lamports as u128
        || analysis.metrics.market_cap > config.max_market_cap_lamports as u128 {
        return Err(AdmissionRejected::MarketCapOutOfRange);
    }
    if analysis.metrics.liquidity < config.min_liquidity_lamports as u128 {
        return Err(AdmissionRejected::InsufficientLiquidity);
    }
    Ok(())
}

/// True when a token passes the safety, market-cap and liquidity filters.
pub fn should_trade_token(analysis: &TokenAnalysis, config: &BotConfig) -> (r: bool)
    ensures
        r <==> eligibility_rejection(*analysis, *config) is None,
{
    check_token(analysis, config).is_ok()
}

/// Process-wide admission state: cooldown, daily counter and in-flight flags.
#[derive(Debug, Clone, Copy, PartialEq, Eq, Structural)]
pub struct AdmissionState {
    /// Time of the last successful buy; 0 before any.
    pub last_buy_ms: u64,
    /// Buys made in the current UTC day.
    pub daily_trades: u64,
    /// UTC day that `daily_trades` counts.
    pub reset_day: u64,
    pub buy_in_flight: bool,
    pub sell_in_flight: bool,
    /// Set by `stop`; once set, no buy or sell is admitted.
    pub stopped: bool,
}

/// The state with its daily counter moved to the UTC day of `now_ms`.
pub open spec fn rolled(s: AdmissionState, now_ms: int) -> AdmissionState {
    if day_of(now_ms) != s.reset_day {
        AdmissionState { daily_trades: 0, reset_day: day_of(now_ms) as u64, ..s }
    } else {
        s
    }
}

/// The first rate rule, in order, that a buy at `now_ms` breaks, on a rolled state.
pub open spec fn rate_rejection(s: AdmissionState, c: BotConfig, now_ms: int) -> Option<AdmissionRejected> {
    if s.stopped {
        Some(AdmissionRejected::ShuttingDown)
    } else if now_ms < s.last_buy_ms + c.trading_cooldown_ms {
        Some(AdmissionRejected::CooldownActive)
    } else if s.daily_trades >= c.daily_cap() {
        Some(AdmissionRejected::DailyCapReached)
    } else if s.buy_in_flight {
        Some(AdmissionRejected::OperationInFlight)
    } else {
        None
    }
}

/// The state once a buy has ended: flag cleared, and on success the time
/// recorded and the trade counted.
pub open spec fn after_buy(s: AdmissionState, success: bool, now_ms: int) -> AdmissionState {
    if success {
        AdmissionState {
            buy_in_flight: false,
            last_buy_ms: now_ms as u64,
            daily_trades: if s.daily_trades < u64::MAX { (s.daily_trades + 1) as u64 } else { s.daily_trades },
            ..s
        }
    } else {
        AdmissionState { buy_in_flight: false, ..s }
    }
}

impl AdmissionState {
    /// The state of `new(now_ms)`.
    pub open spec fn new_spec(now_ms: int) -> AdmissionState {
        AdmissionState {
            last_buy_ms: 0,
            daily_trades: 0,
            reset_day: day_of(now_ms) as u64,
            buy_in_flight: false,
            sell_in_flight: false,
            stopped: false,
        }
    }

    /// Fresh state at `now_ms`: no buy yet, nothing in flight.
    pub fn new(now_ms: u64) -> (r: AdmissionState)
        ensures
            r == AdmissionState::new_spec(now_ms as int),
    {
        AdmissionState {
            last_buy_ms: 0,
            daily_trades: 0,
            reset_day: utc_day(now_ms),
            buy_in_flight: false,
            sell_in_flight: false,
            stopped: false,
        }
    }

    /// Zeroes the daily counter when `now_ms` falls in a later or earlier UTC day.
    pub fn reset_daily_trades_if_needed(&mut self, now_ms: u64)
        ensures
            *final(self) == rolled(*old(self), now_ms as int),
    {
        let today = utc_day(now_ms);
        if today != self.reset_day {
            self.daily_trades = 0;
            self.reset_day = today;
        }
    }

    /// Rate checks of a buy: stopped, cooldown, daily cap, then the in-flight flag.
    /// The daily counter is rolled over first; nothing else changes.
    pub fn can_buy(&mut self, config: &BotConfig, now_ms: u64) -> (r: Result<(), AdmissionRejected>)
        ensures
            *final(self) == rolled(*old(self), now_ms as int),
            r is Ok <==> rate_rejection(*final(self), *config, now_ms as int) is None,
            r matches Err(e) ==> rate_rejection(*final(self), *config, now_ms as int) == Some(e),
    {
        self.reset_daily_trades_if_needed(now_ms);
        if self.stopped {
            return Err(AdmissionRejected::ShuttingDown);
        }
        if (now_ms as u128) < (self.last_buy_ms as u128) + (config.trading_cooldown_ms as u128) {
            return Err(AdmissionRejected::CooldownActive);
        }
        if self.daily_trades >= (config.max_trades_per_hour as u64) * 24 {
            return Err(AdmissionRejected::DailyCapReached);
        }
        if self.buy_in_flight {
            return Err(AdmissionRejected::OperationInFlight);
        }
        Ok(())
    }

    /// Ends a buy: clears the flag; on success records the time and counts the trade.
    pub fn update_buy_tracking(&mut self, success: bool, now_ms: u64)
        ensures
            *final(self) == after_buy(*old(self), success, now_ms as int),
    {
        self.buy_in_flight = false;
        if success {
            self.last_buy_ms = now_ms;
            if self.daily_trades < u64::MAX {
                self.daily_trades = self.daily_trades + 1;
            }
        }
    }

    /// Admits a sell unless the engine is stopped or a sell is outstanding,
    /// and marks it in flight.
    pub fn begin_sell(&mut self) -> (r: Result<(), AdmissionRejected>)
        ensures
            r is Ok <==> !old(self).stopped && !old(self).sell_in_flight,
            old(self).stopped ==> r == Err::<(), AdmissionRejected>(AdmissionRejected::ShuttingDown),
            !old(self).stopped && old(self).sell_in_flight ==> r == Err::<(), AdmissionRejected>(
                AdmissionRejected::OperationInFlight),
            r is Ok ==> *final(self) == (AdmissionState { sell_in_flight: true, ..*old(self) }),
            r is Err ==> *final(self) == *old(self),
    {
        if self.stopped {
            return Err(AdmissionRejected::ShuttingDown);
        }
        if self.sell_in_flight {
            return Err(AdmissionRejected::OperationInFlight);
        }
        self.sell_in_flight = true;
        Ok(())
    }

    /// Ends a sell, whatever its outcome.
    pub fn end_sell(&mut self)
        ensures
            *final(self) == (AdmissionState { sell_in_flight: false, ..*old(self) }),
    {
        self.sell_in_flight = false;
    }

    /// Shutdown path: admits nothing further and releases both in-flight flags.
    pub fn stop(&mut self)
        ensures
            *final(self) == (AdmissionState { buy_in_flight: false, sell_in_flight: false, stopped: true, ..*old(self) }),
    {
        self.buy_in_flight = false;
        self.sell_in_flight = false;
        self.stopped = true;
    }
}

} // verus!
