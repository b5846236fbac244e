use vstd::prelude::*;
use crate::config::{BotConfig, BPS_DENOMINATOR};
use crate::fixed_point::{mul_div_floor, mul_div_sat, PRICE_SCALE};
use crate::admission::{after_buy, check_token, eligibility_rejection, rate_rejection, rolled, AdmissionRejected, AdmissionState};
use crate::ledger::{has_key, is_live, live_keys, repriced, settled, unique_keys, LedgerError, PositionLedger};
use crate::types::{Position, PositionStatus, TokenAnalysis};

verus! {

/// Quote kept back for fees on a live buy, in lamports.
pub const FEE_RESERVE_LAMPORTS: u64 = 10_000_000;

/// Base units credited per 1000 lamports spent on a buy.
pub const LAMPORTS_PER_BASE_UNIT: u64 = 1_000;

/// Half-width of the simulated price step, in basis points.
pub const SIMULATED_STEP_BPS: u64 = 500;

/// A buy the Execution Gateway is to submit.
pub struct BuyOrder {
    pub token_address: String,
    pub bonding_curve_address: String,
    /// Quote to spend, in lamports.
    pub amount_lamports: u64,
    /// Most quote the buy may cost with slippage, in lamports.
    pub max_sol_cost: u64,
}

/// A sell the Execution Gateway is to submit.
pub struct SellOrder {
    pub token_address: String,
    /// Base units to sell.
    pub amount: u64,
    /// Least quote to accept, in lamports.
    pub min_sol_output: u64,
}

/// What an admitted buy led to.
pub enum BuyOutcome {
    /// Simulated: the position is already recorded.
    Filled,
    /// Live: the order waits for the gateway; report back with `complete_buy`.
    Submit(BuyOrder),
}

/// What an admitted sell led to.
pub enum SellOutcome {
    /// Simulated: the sale is already settled.
    Filled { amount: u64 },
    /// Live: the order waits for the gateway; report back with `complete_sell`.
    Submit(SellOrder),
}

/// Why a trade did not go ahead.
#[derive(Debug, Clone, Copy, PartialEq, Eq, Structural)]
pub enum TradeError {
    Rejected(AdmissionRejected),
    Ledger(LedgerError),
}

/// Which exit fired.
#[derive(Debug, Clone, Copy, PartialEq, Eq, Structural)]
pub enum ExitReason {
    TakeProfit,
    StopLoss,
}

/// Read-only snapshot for health checks.
#[derive(Debug, Clone, Copy, PartialEq, Eq, Structural)]
pub struct TraderStatus {
    pub is_buying: bool,
    pub is_selling: bool,
    pub active_positions: usize,
    pub daily_trades: u64,
}

/// The first rule, in order, that a buy of `a` breaks; `s` is the admission
/// state already rolled to the day of `now_ms`.
pub open spec fn buy_rejection(
    s: AdmissionState,
    positions: Map<Seq<char>, Position>,
    c: BotConfig,
    a: TokenAnalysis,
    now_ms: int,
) -> Option<AdmissionRejected> {
    if s.stopped {
        Some(AdmissionRejected::ShuttingDown)
    } else if eligibility_rejection(a, c) is Some {
        eligibility_rejection(a, c)
    } else if positions.contains_key(a.token.address@) && is_live(positions[a.token.address@]) {
        Some(AdmissionRejected::PositionAlreadyOpen)
    } else {
        rate_rejection(s, c, now_ms)
    }
}

/// The position a filled buy of `a` opens at `now_ms`.
pub open spec fn bought_position(a: TokenAnalysis, c: BotConfig, now_ms: int) -> Position {
    Position {
        token_address: a.token.address,
        token_symbol: a.token.symbol,
        amount: (c.buy_amount_lamports / LAMPORTS_PER_BASE_UNIT) as u64,
        entry_price: a.metrics.price,
        current_price: a.metrics.price,
        pnl: 0,
        pnl_bps: 0,
        opened_at_ms: now_ms as u64,
        last_updated_ms: now_ms as u64,
        take_profit_price: Some(take_profit_level(a.metrics.price as int, c.take_profit_bps as int) as u128),
        stop_loss_price: Some(stop_loss_level(a.metrics.price as int, c.stop_loss_bps as int) as u128),
        trailing_stop_price: None,
        status: if c.buy_amount_lamports / LAMPORTS_PER_BASE_UNIT == 0 {
            PositionStatus::Closed
        } else {
            PositionStatus::Open
        },
    }
}

/// Take-profit level: `price` raised by `bps`, saturating.
pub open spec fn take_profit_level(price: int, bps: int) -> int {
    let up = price + mul_div_sat(price, bps, BPS_DENOMINATOR as int);
    if up > u128::MAX { u128::MAX as int } else { up }
}

/// Stop-loss level: `price` lowered by `bps`, not below zero.
pub open spec fn stop_loss_level(price: int, bps: int) -> int {
    let cut = mul_div_sat(price, bps, BPS_DENOMINATOR as int);
    if cut > price { 0 } else { price - cut }
}

/// The exit that a position's current price triggers; take-profit first.
pub open spec fn exit_reason(p: Position) -> Option<ExitReason> {
    if p.take_profit_price matches Some(t) && p.current_price >= t {
        Some(ExitReason::TakeProfit)
    } else if p.stop_loss_price matches Some(s) && p.current_price <= s {
        Some(ExitReason::StopLoss)
    } else {
        None
    }
}

/// True when a live position's price triggers an exit.
pub open spec fn fires(p: Position) -> bool {
    is_live(p) && exit_reason(p) is Some
}

/// A position after one exit check at `price`: revalued, and sold in full
/// when an exit fires and `settle_now` holds.
pub open spec fn exit_outcome(p: Position, price: int, now_ms: int, settle_now: bool) -> Position {
    let q = repriced(p, price, now_ms);
    if settle_now && fires(q) {
        settled(q, q.amount as int, now_ms)
    } else {
        q
    }
}

/// `after` is `p` after one exit check at some simulated step from its
/// current price.
pub open spec fn stepped_from(p: Position, after: Position, now_ms: int, settle_now: bool) -> bool {
    exists|d: u64| after == exit_outcome(p, simulated_step(p.current_price as int, d as int), now_ms, settle_now)
}

/// A price for one asset from the price oracle; `None` when it had no data.
pub struct PriceQuote {
    pub token_address: String,
    pub price: Option<u128>,
}

/// The price that the first quote for `k` gives, if any.
pub open spec fn quote_for(qs: Seq<PriceQuote>, k: Seq<char>) -> Option<u128>
    decreases qs.len(),
{
    if qs.len() == 0 {
        None
    } else if qs[0].token_address@ == k {
        qs[0].price
    } else {
        quote_for(qs.drop_first(), k)
    }
}

/// A position after an exit tick: a live one with a price is checked, any
/// other is left as it was.
pub open spec fn after_tick(p: Position, quote: Option<u128>, now_ms: int, settle_now: bool) -> Position {
    match quote {
        Some(price) => if is_live(p) {
            exit_outcome(p, price as int, now_ms, settle_now)
        } else {
            p
        },
        None => p,
    }
}

proof fn lemma_quote_at(qs: Seq<PriceQuote>, j: int)
    requires
        0 <= j < qs.len(),
        forall|a: int, b: int|
            0 <= a < qs.len() && 0 <= b < qs.len() && a != b ==> qs[a].token_address@ != qs[b].token_address@,
    ensures
        quote_for(qs, qs[j].token_address@) == qs[j].price,
    decreases j,
{
    if j > 0 {
        let t = qs.drop_first();
        assert(t[j - 1] == qs[j]);
        assert(qs[0].token_address@ != qs[j].token_address@);
        lemma_quote_at(t, j - 1);
    }
}

/// The price of the first quote for `key`.
fn find_quote(quotes: &Vec<PriceQuote>, key: &String) -> (r: Option<u128>)
    ensures
        r == quote_for(quotes@, key@),
{
    let mut i: usize = 0;
    assert(quotes@.subrange(0, quotes@.len() as int) =~= quotes@);
    while i < quotes.len()
        invariant
            i <= quotes@.len(),
            quote_for(quotes@, key@) == quote_for(quotes@.subrange(i as int, quotes@.len() as int), key@),
        decreases quotes@.len() - i,
    {
        let ghost rest = quotes@.subrange(i as int, quotes@.len() as int);
        assert(rest[0] == quotes@[i as int]);
        if quotes[i].token_address == *key {
            return quotes[i].price;
        }
        assert(rest.drop_first() =~= quotes@.subrange(i + 1, quotes@.len() as int));
        i = i + 1;
    }
    None
}

/// Most a buy of `amount` may cost with `slippage_bps`, saturating.
pub open spec fn max_cost(amount: int, slippage_bps: int) -> int {
    let c = amount + amount * slippage_bps / BPS_DENOMINATOR as int;
    if c > u64::MAX { u64::MAX as int } else { c }
}

/// Base units sold when selling `percentage_bps` of `amount`.
pub open spec fn sell_amount(amount: int, percentage_bps: int) -> int {
    amount * percentage_bps / BPS_DENOMINATOR as int
}

/// Least quote to accept for `amount` at `price` with `slippage_bps`, in lamports.
pub open spec fn min_output(amount: int, price: int, slippage_bps: int) -> int {
    let value = mul_div_sat(price, amount, PRICE_SCALE as int);
    let keep = if slippage_bps >= BPS_DENOMINATOR { 0 } else {
        mul_div_sat(value, BPS_DENOMINATOR - slippage_bps, BPS_DENOMINATOR as int)
    };
    if keep > u64::MAX { u64::MAX as int } else { keep }
}

/// Next simulated price: `current` moved by `draw % 1001 - 500` basis points.
pub open spec fn simulated_step(current: int, draw: int) -> int {
    let d = draw % 1001;
    if d >= SIMULATED_STEP_BPS {
        let up = current + current * (d - SIMULATED_STEP_BPS) / BPS_DENOMINATOR as int;
        if up > u128::MAX { u128::MAX as int } else { up }
    } else {
        current - current * (SIMULATED_STEP_BPS - d) / BPS_DENOMINATOR as int
    }
}

/// Take-profit level of an entry price.
pub fn take_profit_price(price: u128, bps: u64) -> (r: u128)
    ensures
        r == take_profit_level(price as int, bps as int),
{
    let up = mul_div_floor(price, bps, BPS_DENOMINATOR);
    if up > u128::MAX - price { u128::MAX } else { price + up }
}

/// Stop-loss level of an entry price.
pub fn stop_loss_price(price: u128, bps: u64) -> (r: u128)
    ensures
        r == stop_loss_level(price as int, bps as int),
{
    let cut = mul_div_floor(price, bps, BPS_DENOMINATOR);
    if cut > price { 0 } else { price - cut }
}

/// Most a buy may cost once slippage is allowed for.
pub fn max_sol_cost(amount_lamports: u64, slippage_bps: u64) -> (r: u64)
    ensures
        r == max_cost(amount_lamports as int, slippage_bps as int),
{
    proof {
        assert((amount_lamports as int) * (slippage_bps as int) <= u128::MAX) by (nonlinear_arith)
            requires
                amount_lamports <= u64::MAX,
                slippage_bps <= u64::MAX,
        ;
    }
    let product = (amount_lamports as u128) * (slippage_bps as u128);
    let extra = product / (BPS_DENOMINATOR as u128);
    proof {
        assert((amount_lamports as int) * (slippage_bps as int) <= (u64::MAX as int) * (u64::MAX as int))
            by (nonlinear_arith)
            requires
                amount_lamports <= u64::MAX,
                slippage_bps <= u64::MAX,
        ;
        assert(extra <= product);
    }
    let total = amount_lamports as u128 + extra;
    if total > u64::MAX as u128 { u64::MAX } else { total as u64 }
}

/// Least quote to accept when selling `amount` at `price`.
pub fn min_sol_output(amount: u64, price: u128, slippage_bps: u64) -> (r: u64)
    ensures
        r == min_output(amount as int, price as int, slippage_bps as int),
{
    let value = mul_div_floor(price, amount, PRICE_SCALE as u64);
    let keep = if slippage_bps >= BPS_DENOMINATOR {
        0
    } else {
        mul_div_floor(value, BPS_DENOMINATOR - slippage_bps, BPS_DENOMINATOR)
    };
    if keep > u64::MAX as u128 { u64::MAX } else { keep as u64 }
}

/// True when a wallet holding `balance_lamports` can pay for a buy and its fees.
pub fn has_sufficient_balance(balance_lamports: u64, config: &BotConfig) -> (r: bool)
    ensures
        r <==> balance_lamports >= config.buy_amount_lamports + FEE_RESERVE_LAMPORTS,
{
    balance_lamports as u128 >= config.buy_amount_lamports as u128 + FEE_RESERVE_LAMPORTS as u128
}

/// Moves `current` by the step that `draw` picks, within plus or minus 5%.
pub fn simulated_price(current: u128, draw: u64) -> (r: u128)
    ensures
        r == simulated_step(current as int, draw as int),
{
    let d = draw % 1001;
    if d >= SIMULATED_STEP_BPS {
        let up = mul_div_floor(current, d - SIMULATED_STEP_BPS, BPS_DENOMINATOR);
        if up > u128::MAX - current { u128::MAX } else { current + up }
    } else {
        let down = mul_div_floor(current, SIMULATED_STEP_BPS - d, BPS_DENOMINATOR);
        proof {
            assert((current as int) * ((SIMULATED_STEP_BPS - d) as int) / (BPS_DENOMINATOR as int) <= current)
                by (nonlinear_arith)
                requires
                    SIMULATED_STEP_BPS - d <= BPS_DENOMINATOR,
                    BPS_DENOMINATOR == 10_000,
                    current >= 0,
            ;
        }
        current - down
    }
}

/// Relies on rand's `random`: a value drawn from the thread-local generator;
/// nothing is promised about which.
pub assume_specification<T>[ rand::random::<T> ]() -> (r: T)
    where
        rand::distributions::Standard: rand::distributions::Distribution<T>,
;

/// The trading engine: configuration, admission state and position ledger,
/// owned together and changed only through its methods.
pub struct Trader {
    config: BotConfig,
    admission: AdmissionState,
    positions: PositionLedger,
}

impl Trader {
    pub closed spec fn wf(&self) -> bool {
        self.positions.wf()
    }

    pub closed spec fn spec_config(&self) -> BotConfig {
        self.config
    }

    pub closed spec fn spec_admission(&self) -> AdmissionState {
        self.admission
    }

    pub closed spec fn spec_positions(&self) -> Map<Seq<char>, Position> {
        self.positions@
    }

    /// A trader with no positions, nothing in flight and the day counter at `now_ms`.
    pub fn new(config: BotConfig, now_ms: u64) -> (r: Trader)
        ensures
            r.wf(),
            r.spec_config() == config,
            r.spec_admission() == AdmissionState::new_spec(now_ms as int),
            r.spec_positions() == Map::<Seq<char>, Position>::empty(),
    {
        Trader { config, admission: AdmissionState::new(now_ms), positions: PositionLedger::new() }
    }

    pub fn config(&self) -> (r: &BotConfig)
        ensures
            *r == self.spec_config(),
    {
        &self.config
    }

    pub fn admission(&self) -> (r: AdmissionState)
        ensures
            r == self.spec_admission(),
    {
        self.admission
    }

    pub fn positions(&self) -> (r: &PositionLedger)
        requires
            self.wf(),
        ensures
            r@ == self.spec_positions(),
            r.wf(),
    {
        &self.positions
    }
    /// Buy admission for `analysis` at `now_ms`: not stopped, eligibility, no
    /// live position in the asset, cooldown, daily cap, then the in-flight flag. The daily
    /// counter is rolled over first; on success the buy is marked in flight.
    pub fn admit_buy(&mut self, analysis: &TokenAnalysis, now_ms: u64) -> (r: Result<(), AdmissionRejected>)
        requires
            old(self).wf(),
        ensures
            final(self).wf(),
            final(self).spec_config() == old(self).spec_config(),
            final(self).spec_positions() == old(self).spec_positions(),
            ({
                let s = rolled(old(self).spec_admission(), now_ms as int);
                let why = buy_rejection(s, old(self).spec_positions(), old(self).spec_config(), *analysis, now_ms as int);
                &&& r is Ok <==> why is None
                &&& r matches Err(e) ==> why == Some(e)
                &&& final(self).spec_admission() == if r is Ok {
                    AdmissionState { buy_in_flight: true, ..s }
                } else {
                    s
                }
            }),
    {
        self.admission.reset_daily_trades_if_needed(now_ms);
        if self.admission.stopped {
            return Err(AdmissionRejected::ShuttingDown);
        }
        match check_token(analysis, &self.config) {
            Err(e) => {
                return Err(e);
            },
            Ok(()) => {},
        }
        match self.positions.get(&analysis.token.address) {
            Some(p) => {
                if p.status != PositionStatus::Closed {
                    return Err(AdmissionRejected::PositionAlreadyOpen);
                }
            },
            None => {},
        }
        match self.admission.can_buy(&self.config, now_ms) {
            Err(e) => {
                return Err(e);
            },
            Ok(()) => {},
        }
        self.admission.buy_in_flight = true;
        Ok(())
    }

    /// Admits a buy of `analysis`. In simulation mode the buy is filled at once
    /// and the position recorded; otherwise the order is handed back, the buy
    /// stays in flight, and `complete_buy` reports the gateway's answer.
    pub fn execute_buy(&mut self, analysis: &TokenAnalysis, now_ms: u64) -> (r: Result<BuyOutcome, AdmissionRejected>)
        requires
            old(self).wf(),
        ensures
            final(self).wf(),
            final(self).spec_config() == old(self).spec_config(),
            ({
                let c = old(self).spec_config();
                let s = rolled(old(self).spec_admission(), now_ms as int);
                let why = buy_rejection(s, old(self).spec_positions(), c, *analysis, now_ms as int);
                &&& r is Ok <==> why is None
                &&& r matches Err(e) ==> why == Some(e)
                &&& r is Err ==> final(self).spec_admission() == s && final(self).spec_positions() == old(self).spec_positions()
                &&& r is Ok && c.simulation_mode ==> (r matches Ok(BuyOutcome::Filled))
                    && final(self).spec_admission() == after_buy(AdmissionState { buy_in_flight: true, ..s }, true, now_ms as int)
                    && final(self).spec_positions() == old(self).spec_positions().insert(
                        analysis.token.address@,
                        bought_position(*analysis, c, now_ms as int),
                    )
                &&& r is Ok && !c.simulation_mode ==> final(self).spec_admission() == AdmissionState { buy_in_flight: true, ..s }
                    && final(self).spec_positions() == old(self).spec_positions()
                    && (r matches Ok(BuyOutcome::Submit(o)) && o.token_address@ == analysis.token.address@
                    && o.bonding_curve_address@ == analysis.bonding_curve.address@
                    && o.amount_lamports == c.buy_amount_lamports
                    && o.max_sol_cost == max_cost(c.buy_amount_lamports as int, c.max_slippage_bps as int))
            }),
    {
        match self.admit_buy(analysis, now_ms) {
            Err(e) => {
                return Err(e);
            },
            Ok(()) => {},
        }
        if self.config.simulation_mode {
            let opened = self.complete_buy(analysis, true, now_ms);
            proof {
                assert(opened is Ok);
            }
            Ok(BuyOutcome::Filled)
        } else {
            Ok(
                BuyOutcome::Submit(
                    BuyOrder {
                        token_address: analysis.token.address.clone(),
                        bonding_curve_address: analysis.bonding_curve.address.clone(),
                        amount_lamports: self.config.buy_amount_lamports,
                        max_sol_cost: max_sol_cost(self.config.buy_amount_lamports, self.config.max_slippage_bps),
                    },
                ),
            )
        }
    }

    /// Ends a buy with the gateway's answer: the flag is cleared; on success
    /// the trade is counted and the position opened.
    pub fn complete_buy(&mut self, analysis: &TokenAnalysis, success: bool, now_ms: u64) -> (r: Result<(), LedgerError>)
        requires
            old(self).wf(),
        ensures
            final(self).wf(),
            final(self).spec_config() == old(self).spec_config(),
            final(self).spec_admission() == after_buy(old(self).spec_admission(), success, now_ms as int),
            !success ==> r is Ok && final(self).spec_positions() == old(self).spec_positions(),
            success ==> (r is Ok <==> !(old(self).spec_positions().contains_key(analysis.token.address@)
                && is_live(old(self).spec_positions()[analysis.token.address@]))),
            success && r is Ok ==> final(self).spec_positions() == old(self).spec_positions().insert(
                analysis.token.address@,
                bought_position(*analysis, old(self).spec_config(), now_ms as int),
            ),
            r matches Err(e) ==> e == LedgerError::AlreadyOpen && final(self).spec_positions() == old(self).spec_positions(),
    {
        self.admission.update_buy_tracking(success, now_ms);
        if success {
            self.create_position(analysis, now_ms)
        } else {
            Ok(())
        }
    }

    /// Records the position that a filled buy of `analysis` opens.
    fn create_position(&mut self, analysis: &TokenAnalysis, now_ms: u64) -> (r: Result<(), LedgerError>)
        requires
            old(self).wf(),
        ensures
            final(self).wf(),
            final(self).spec_config() == old(self).spec_config(),
            final(self).spec_admission() == old(self).spec_admission(),
            r is Ok <==> !(old(self).spec_positions().contains_key(analysis.token.address@)
                && is_live(old(self).spec_positions()[analysis.token.address@])),
            r is Ok ==> final(self).spec_positions() == old(self).spec_positions().insert(
                analysis.token.address@,
                bought_position(*analysis, old(self).spec_config(), now_ms as int),
            ),
            r matches Err(e) ==> e == LedgerError::AlreadyOpen && final(self).spec_positions() == old(self).spec_positions(),
    {
        let price = analysis.metrics.price;
        let position = Position::new(
            analysis.token.address.clone(),
            analysis.token.symbol.clone(),
            self.config.buy_amount_lamports / LAMPORTS_PER_BASE_UNIT,
            price,
            now_ms,
            Some(take_profit_price(price, self.config.take_profit_bps)),
            Some(stop_loss_price(price, self.config.stop_loss_bps)),
        );
        self.positions.open(position)
    }

    /// Admits a sale of `percentage_bps` of the position in `asset`. In
    /// simulation mode it is settled at once; otherwise the order is handed
    /// back, the sell stays in flight, and `complete_sell` reports the answer.
    pub fn execute_sell(&mut self, asset: &String, percentage_bps: u64, now_ms: u64) -> (r: Result<SellOutcome, TradeError>)
        requires
            old(self).wf(),
        ensures
            final(self).wf(),
            final(self).spec_config() == old(self).spec_config(),
            ({
                let c = old(self).spec_config();
                let s = old(self).spec_admission();
                let held = old(self).spec_positions();
                let p = held[asset@];
                let amount = sell_amount(p.amount as int, percentage_bps as int);
                &&& !held.contains_key(asset@) ==> r == Err::<SellOutcome, TradeError>(TradeError::Ledger(LedgerError::NotFound))
                &&& held.contains_key(asset@) && amount > p.amount ==> r == Err::<SellOutcome, TradeError>(TradeError::Ledger(LedgerError::Overdraw))
                &&& held.contains_key(asset@) && amount <= p.amount && s.stopped ==> r == Err::<SellOutcome, TradeError>(
                    TradeError::Rejected(AdmissionRejected::ShuttingDown))
                &&& held.contains_key(asset@) && amount <= p.amount && !s.stopped && s.sell_in_flight ==> r == Err::<SellOutcome, TradeError>(
                    TradeError::Rejected(AdmissionRejected::OperationInFlight))
                &&& r is Ok <==> held.contains_key(asset@) && amount <= p.amount && !s.stopped && !s.sell_in_flight
                &&& r is Err ==> final(self).spec_admission() == s && final(self).spec_positions() == held
                &&& r is Ok && c.simulation_mode ==> r == Ok::<SellOutcome, TradeError>(SellOutcome::Filled { amount: amount as u64 })
                    && final(self).spec_admission() == s
                    && final(self).spec_positions() == held.insert(asset@, settled(p, amount, now_ms as int))
                &&& r is Ok && !c.simulation_mode ==> final(self).spec_admission() == AdmissionState { sell_in_flight: true, ..s }
                    && final(self).spec_positions() == held
                    && (r matches Ok(SellOutcome::Submit(o)) && o.token_address@ == asset@ && o.amount == amount
                    && o.min_sol_output == min_output(amount, p.current_price as int, c.max_slippage_bps as int))
            }),
    {
        let (held, price) = match self.positions.get(asset) {
            None => {
                return Err(TradeError::Ledger(LedgerError::NotFound));
            },
            Some(p) => (p.amount, p.current_price),
        };
        proof {
            assert((held as int) * (percentage_bps as int) <= u128::MAX) by (nonlinear_arith)
                requires
                    held <= u64::MAX,
                    percentage_bps <= u64::MAX,
            ;
        }
        let amount_wide = (held as u128) * (percentage_bps as u128) / (BPS_DENOMINATOR as u128);
        if amount_wide > held as u128 {
            return Err(TradeError::Ledger(LedgerError::Overdraw));
        }
        let amount = amount_wide as u64;
        match self.admission.begin_sell() {
            Err(e) => {
                return Err(TradeError::Rejected(e));
            },
            Ok(()) => {},
        }
        if self.config.simulation_mode {
            let settled_ok = self.positions.apply_sell_settlement(asset, amount, now_ms);
            proof {
                assert(settled_ok is Ok);
            }
            self.admission.end_sell();
            Ok(SellOutcome::Filled { amount })
        } else {
            Ok(
                SellOutcome::Submit(
                    SellOrder {
                        token_address: asset.clone(),
                        amount,
                        min_sol_output: min_sol_output(amount, price, self.config.max_slippage_bps),
                    },
                ),
            )
        }
    }

    /// Ends a sell with the gateway's answer: the flag is cleared; on success
    /// the sale is settled in the ledger.
    pub fn complete_sell(&mut self, asset: &String, amount_sold: u64, success: bool, now_ms: u64) -> (r: Result<(), LedgerError>)
        requires
            old(self).wf(),
        ensures
            final(self).wf(),
            final(self).spec_config() == old(self).spec_config(),
            final(self).spec_admission() == (AdmissionState { sell_in_flight: false, ..old(self).spec_admission() }),
            !success ==> r is Ok && final(self).spec_positions() == old(self).spec_positions(),
            success ==> (r is Ok <==> old(self).spec_positions().contains_key(asset@)
                && amount_sold <= old(self).spec_positions()[asset@].amount),
            success && !old(self).spec_positions().contains_key(asset@) ==> r == Err::<(), LedgerError>(LedgerError::NotFound),
            success && old(self).spec_positions().contains_key(asset@) && amount_sold > old(self).spec_positions()[asset@].amount
                ==> r == Err::<(), LedgerError>(LedgerError::Overdraw),
            success && r is Ok ==> final(self).spec_positions() == old(self).spec_positions().insert(
                asset@,
                settled(old(self).spec_positions()[asset@], amount_sold as int, now_ms as int),
            ),
            r is Err ==> final(self).spec_positions() == old(self).spec_positions(),
    {
        self.admission.end_sell();
        if success {
            self.positions.apply_sell_settlement(asset, amount_sold, now_ms)
        } else {
            Ok(())
        }
    }

    /// True when the position's price has reached its take-profit level.
    pub fn should_take_profit(&self, position: &Position) -> (r: bool)
        ensures
            r <==> (position.take_profit_price matches Some(t) && position.current_price >= t),
    {
        match position.take_profit_price {
            Some(tp) => position.current_price >= tp,
            None => false,
        }
    }

    /// True when the position's price has fallen to its stop-loss level.
    pub fn should_stop_loss(&self, position: &Position) -> (r: bool)
        ensures
            r <==> (position.stop_loss_price matches Some(s) && position.current_price <= s),
    {
        match position.stop_loss_price {
            Some(sl) => position.current_price <= sl,
            None => false,
        }
    }

    /// Revalues the position in `asset` at `price` and, when a live position
    /// hits its take-profit or stop-loss level, sells all of it. Refused
    /// outright once the engine is stopped.
    pub fn evaluate_exit(&mut self, asset: &String, price: u128, now_ms: u64) -> (r: Result<Option<SellOutcome>, TradeError>)
        requires
            old(self).wf(),
        ensures
            final(self).wf(),
            final(self).spec_config() == old(self).spec_config(),
            ({
                let c = old(self).spec_config();
                let s = old(self).spec_admission();
                let held = old(self).spec_positions();
                let p = repriced(held[asset@], price as int, now_ms as int);
                let after = held.insert(asset@, p);
                let fires_now = fires(p);
                &&& s.stopped ==> r == Err::<Option<SellOutcome>, TradeError>(TradeError::Rejected(AdmissionRejected::ShuttingDown))
                    && final(self).spec_admission() == s && final(self).spec_positions() == held
                &&& !s.stopped && !held.contains_key(asset@) ==> r == Err::<Option<SellOutcome>, TradeError>(
                    TradeError::Ledger(LedgerError::NotFound))
                    && final(self).spec_admission() == s && final(self).spec_positions() == held
                &&& !s.stopped && held.contains_key(asset@) ==> final(self).spec_positions() == held.insert(
                    asset@,
                    exit_outcome(held[asset@], price as int, now_ms as int, c.simulation_mode && !s.sell_in_flight),
                )
                &&& !s.stopped && held.contains_key(asset@) && !fires_now ==> r == Ok::<Option<SellOutcome>, TradeError>(None)
                    && final(self).spec_admission() == s && final(self).spec_positions() == after
                &&& !s.stopped && held.contains_key(asset@) && fires_now && s.sell_in_flight ==> r == Err::<Option<SellOutcome>, TradeError>(
                    TradeError::Rejected(AdmissionRejected::OperationInFlight))
                    && final(self).spec_admission() == s && final(self).spec_positions() == after
                &&& !s.stopped && held.contains_key(asset@) && fires_now && !s.sell_in_flight && c.simulation_mode
                    ==> r == Ok::<Option<SellOutcome>, TradeError>(Some(SellOutcome::Filled { amount: p.amount }))
                    && final(self).spec_admission() == s
                    && final(self).spec_positions() == after.insert(asset@, settled(p, p.amount as int, now_ms as int))
                &&& !s.stopped && held.contains_key(asset@) && fires_now && !s.sell_in_flight && !c.simulation_mode
                    ==> final(self).spec_admission() == AdmissionState { sell_in_flight: true, ..s }
                    && final(self).spec_positions() == after
                    && (r matches Ok(Some(SellOutcome::Submit(o))) && o.token_address@ == asset@ && o.amount == p.amount
                    && o.min_sol_output == min_output(p.amount as int, price as int, c.max_slippage_bps as int))
                &&& (r matches Ok(Some(SellOutcome::Submit(_)))) ==> !s.stopped && held.contains_key(asset@) && fires_now
                    && !s.sell_in_flight && !c.simulation_mode
            }),
    {
        if self.admission.stopped {
            return Err(TradeError::Rejected(AdmissionRejected::ShuttingDown));
        }
        match self.positions.refresh_price(asset, price, now_ms) {
            Err(e) => {
                return Err(TradeError::Ledger(e));
            },
            Ok(()) => {},
        }
        let fires_now = match self.positions.get(asset) {
            Some(p) => p.status != PositionStatus::Closed && (self.should_take_profit(p) || self.should_stop_loss(p)),
            None => false,
        };
        if !fires_now {
            return Ok(None);
        }
        proof {
            let p = self.positions@[asset@];
            assert((p.amount as int) * (BPS_DENOMINATOR as int) / (BPS_DENOMINATOR as int) == p.amount as int)
                by (nonlinear_arith)
                requires
                    BPS_DENOMINATOR == 10_000,
            ;
        }
        match self.execute_sell(asset, BPS_DENOMINATOR, now_ms) {
            Ok(o) => Ok(Some(o)),
            Err(e) => Err(e),
        }
    }

    /// One tick of the exit engine with prices from the oracle: each live
    /// position that has a quote is revalued at it and sold in full when an
    /// exit fires; a position without a quote (no data) is skipped, and
    /// Closed positions are left alone. Returns the orders handed to the
    /// gateway: none in simulation mode, and at most one, since sells are
    /// serialized.
    pub fn check_exits(&mut self, quotes: &Vec<PriceQuote>, now_ms: u64) -> (r: Vec<SellOrder>)
        requires
            old(self).wf(),
        ensures
            final(self).wf(),
            final(self).spec_config() == old(self).spec_config(),
            ({
                let c = old(self).spec_config();
                let s = old(self).spec_admission();
                let held = old(self).spec_positions();
                let after = final(self).spec_positions();
                let settle_now = c.simulation_mode && !s.sell_in_flight;
                &&& s.stopped ==> r@.len() == 0 && after == held
                &&& after.dom() == held.dom()
                &&& !s.stopped ==> forall|k: Seq<char>| held.contains_key(k) ==> #[trigger] after[k] == after_tick(
                    held[k],
                    quote_for(quotes@, k),
                    now_ms as int,
                    settle_now,
                )
                &&& final(self).spec_admission() == if r@.len() > 0 {
                    AdmissionState { sell_in_flight: true, ..s }
                } else {
                    s
                }
                &&& r@.len() <= 1
                &&& c.simulation_mode || s.sell_in_flight || s.stopped ==> r@.len() == 0
                &&& !c.simulation_mode && !s.sell_in_flight && !s.stopped ==> (r@.len() == 1 <==> exists|k: Seq<char>|
                    held.contains_key(k) && is_live(held[k]) && quote_for(quotes@, k) is Some && fires(#[trigger] after[k]))
                &&& forall|j: int| 0 <= j < r@.len() ==> ({
                    let k = (#[trigger] r@[j]).token_address@;
                    &&& held.contains_key(k) && is_live(held[k]) && quote_for(quotes@, k) is Some && fires(after[k])
                    &&& r@[j].amount == after[k].amount
                    &&& r@[j].min_sol_output == min_output(after[k].amount as int, after[k].current_price as int, c.max_slippage_bps as int)
                })
            }),
    {
        let mut orders: Vec<SellOrder> = Vec::new();
        if self.admission.stopped {
            return orders;
        }
        let ghost held = self.spec_positions();
        let ghost s = self.spec_admission();
        let ghost c = self.spec_config();
        let ghost settle_now = c.simulation_mode && !s.sell_in_flight;
        let open = self.positions.list_open();
        let mut i: usize = 0;
        while i < open.len()
            invariant
                self.wf(),
                self.spec_config() == c,
                held == old(self).spec_positions(),
                s == old(self).spec_admission(),
                c == old(self).spec_config(),
                settle_now == (c.simulation_mode && !s.sell_in_flight),
                !s.stopped,
                i <= open@.len(),
                unique_keys(open@),
                forall|j: int| 0 <= j < open@.len() ==> held.contains_key(#[trigger] open@[j].token_address@)
                    && held[open@[j].token_address@] == open@[j] && is_live(open@[j]),
                forall|k: Seq<char>| held.contains_key(k) && is_live(held[k]) ==> has_key(open@, k),
                self.spec_admission() == if orders@.len() > 0 {
                    AdmissionState { sell_in_flight: true, ..s }
                } else {
                    s
                },
                orders@.len() <= 1,
                c.simulation_mode || s.sell_in_flight ==> orders@.len() == 0,
                self.spec_positions().dom() == held.dom(),
                forall|k: Seq<char>| held.contains_key(k) ==> #[trigger] self.spec_positions()[k] == if has_key(
                    open@.subrange(0, i as int),
                    k,
                ) {
                    after_tick(held[k], quote_for(quotes@, k), now_ms as int, settle_now)
                } else {
                    held[k]
                },
                forall|j: int| 0 <= j < orders@.len() ==> ({
                    let k = (#[trigger] orders@[j]).token_address@;
                    &&& has_key(open@.subrange(0, i as int), k)
                    &&& held.contains_key(k) && is_live(held[k]) && quote_for(quotes@, k) is Some
                    &&& fires(self.spec_positions()[k])
                    &&& orders@[j].amount == self.spec_positions()[k].amount
                    &&& orders@[j].min_sol_output == min_output(
                        self.spec_positions()[k].amount as int,
                        self.spec_positions()[k].current_price as int,
                        c.max_slippage_bps as int,
                    )
                }),
                !c.simulation_mode && !s.sell_in_flight && orders@.len() == 0 ==> forall|k: Seq<char>|
                    has_key(open@.subrange(0, i as int), k) && quote_for(quotes@, k) is Some ==> !fires(
                        #[trigger] self.spec_positions()[k],
                    ),
            decreases open@.len() - i,
        {
            let key = &open[i].token_address;
            let ghost before = self.spec_positions();
            let ghost adm_before = self.spec_admission();
            let ghost prefix = open@.subrange(0, i as int);
            let ghost next = open@.subrange(0, i + 1);
            proof {
                assert(next =~= prefix.push(open@[i as int]));
                assert forall|k: Seq<char>| has_key(next, k) <==> has_key(prefix, k) || k == key@ by {
                    if has_key(next, k) {
                        let j = choose|j: int| 0 <= j < next.len() && next[j].token_address@ == k;
                        if j < i {
                            assert(prefix[j] == next[j]);
                        }
                    }
                    if has_key(prefix, k) {
                        let j = choose|j: int| 0 <= j < prefix.len() && prefix[j].token_address@ == k;
                        assert(next[j] == prefix[j]);
                    }
                    if k == key@ {
                        assert(next[i as int].token_address@ == k);
                    }
                }
                assert(!has_key(prefix, key@)) by {
                    if has_key(prefix, key@) {
                        let j = choose|j: int| 0 <= j < prefix.len() && prefix[j].token_address@ == key@;
                        assert(open@[j].token_address@ == open@[i as int].token_address@);
                    }
                }
                assert(before[key@] == held[key@]);
            }
            let quote = find_quote(quotes, key);
            match quote {
                None => {},
                Some(price) => {
                    let outcome = self.evaluate_exit(key, price, now_ms);
                    proof {
                        assert((c.simulation_mode && !adm_before.sell_in_flight) == settle_now);
                        assert(self.spec_positions() == before.insert(
                            key@,
                            after_tick(held[key@], quote, now_ms as int, settle_now),
                        ));
                        assert(self.spec_positions().dom() =~= held.dom());
                    }
                    match outcome {
                        Ok(Some(SellOutcome::Submit(order))) => {
                            orders.push(order);
                        },
                        _ => {},
                    }
                },
            }
            i = i + 1;
        }
        proof {
            assert(open@.subrange(0, open@.len() as int) =~= open@);
            let after = self.spec_positions();
            if !c.simulation_mode && !s.sell_in_flight && orders@.len() == 1 {
                let k = orders@[0].token_address@;
                assert(held.contains_key(k) && is_live(held[k]) && quote_for(quotes@, k) is Some && fires(after[k]));
            }
            if !c.simulation_mode && !s.sell_in_flight && orders@.len() == 0 {
                assert forall|k: Seq<char>| held.contains_key(k) && is_live(held[k]) && quote_for(quotes@, k) is Some
                    implies !fires(#[trigger] after[k]) by {
                    assert(has_key(open@, k));
                }
            }
            assert forall|k: Seq<char>| held.contains_key(k) implies #[trigger] after[k] == after_tick(
                held[k],
                quote_for(quotes@, k),
                now_ms as int,
                settle_now,
            ) by {
                if !has_key(open@, k) {
                    assert(!is_live(held[k]));
                }
            }
        }
        orders
    }

    /// One tick of the exit engine in which the price oracle is a random
    /// walk: every live position is revalued at a step of at most 5% from
    /// its current price (`simulated_price` with a fresh draw) and then
    /// checked as `check_exits` does.
    pub fn check_automated_sells(&mut self, now_ms: u64) -> (r: Vec<SellOrder>)
        requires
            old(self).wf(),
        ensures
            final(self).wf(),
            final(self).spec_config() == old(self).spec_config(),
            ({
                let c = old(self).spec_config();
                let s = old(self).spec_admission();
                let held = old(self).spec_positions();
                let after = final(self).spec_positions();
                let settle_now = c.simulation_mode && !s.sell_in_flight;
                &&& s.stopped ==> r@.len() == 0 && after == held
                &&& after.dom() == held.dom()
                &&& forall|k: Seq<char>| held.contains_key(k) && !is_live(held[k]) ==> #[trigger] after[k] == held[k]
                &&& !s.stopped ==> forall|k: Seq<char>| held.contains_key(k) && is_live(held[k]) ==> stepped_from(
                    held[k],
                    #[trigger] after[k],
                    now_ms as int,
                    settle_now,
                )
                &&& final(self).spec_admission() == if r@.len() > 0 {
                    AdmissionState { sell_in_flight: true, ..s }
                } else {
                    s
                }
                &&& r@.len() <= 1
                &&& c.simulation_mode || s.sell_in_flight || s.stopped ==> r@.len() == 0
                &&& !c.simulation_mode && !s.sell_in_flight && !s.stopped ==> (r@.len() == 1 <==> exists|k: Seq<char>|
                    held.contains_key(k) && is_live(held[k]) && fires(#[trigger] after[k]))
                &&& forall|j: int| 0 <= j < r@.len() ==> ({
                    let k = (#[trigger] r@[j]).token_address@;
                    &&& held.contains_key(k) && is_live(held[k]) && fires(after[k])
                    &&& r@[j].amount == after[k].amount
                    &&& r@[j].min_sol_output == min_output(after[k].amount as int, after[k].current_price as int, c.max_slippage_bps as int)
                })
            }),
    {
        let ghost held = self.spec_positions();
        let open = self.positions.list_open();
        let mut quotes: Vec<PriceQuote> = Vec::new();
        let mut i: usize = 0;
        while i < open.len()
            invariant
                i <= open@.len(),
                quotes@.len() == i,
                held == self.spec_positions(),
                held == old(self).spec_positions(),
                self.spec_config() == old(self).spec_config(),
                self.spec_admission() == old(self).spec_admission(),
                self.wf(),
                unique_keys(open@),
                forall|j: int| 0 <= j < open@.len() ==> held.contains_key(#[trigger] open@[j].token_address@)
                    && held[open@[j].token_address@] == open@[j] && is_live(open@[j]),
                forall|k: Seq<char>| held.contains_key(k) && is_live(held[k]) ==> has_key(open@, k),
                forall|j: int| 0 <= j < i ==> (#[trigger] quotes@[j]).token_address@ == open@[j].token_address@
                    && exists|d: u64| quotes@[j].price == Some(simulated_step(open@[j].current_price as int, d as int) as u128)
                    && 0 <= simulated_step(open@[j].current_price as int, d as int) <= u128::MAX,
            decreases open@.len() - i,
        {
            let draw: u64 = rand::random();
            let price = simulated_price(open[i].current_price, draw);
            quotes.push(PriceQuote { token_address: open[i].token_address.clone(), price: Some(price) });
            proof {
                assert(quotes@[i as int].price == Some(simulated_step(open@[i as int].current_price as int, draw as int) as u128));
            }
            i = i + 1;
        }
        let r = self.check_exits(&quotes, now_ms);
        proof {
            assert forall|a: int, b: int| 0 <= a < quotes@.len() && 0 <= b < quotes@.len() && a != b implies quotes@[a].token_address@
                != quotes@[b].token_address@ by {
                assert(quotes@[a].token_address@ == open@[a].token_address@);
                assert(quotes@[b].token_address@ == open@[b].token_address@);
            }
            let after = self.spec_positions();
            assert forall|k: Seq<char>| !old(self).spec_admission().stopped && held.contains_key(k) && is_live(held[k]) implies quote_for(quotes@, k) is Some && stepped_from(
                held[k],
                #[trigger] after[k],
                now_ms as int,
                old(self).spec_config().simulation_mode && !old(self).spec_admission().sell_in_flight,
            ) by {
                let j = choose|j: int| 0 <= j < open@.len() && open@[j].token_address@ == k;
                assert(quotes@[j].token_address@ == k);
                lemma_quote_at(quotes@, j);
                let d = choose|d: u64| quotes@[j].price == Some(simulated_step(open@[j].current_price as int, d as int) as u128)
                    && 0 <= simulated_step(open@[j].current_price as int, d as int) <= u128::MAX;
                assert(after[k] == exit_outcome(
                    held[k],
                    simulated_step(held[k].current_price as int, d as int),
                    now_ms as int,
                    old(self).spec_config().simulation_mode && !old(self).spec_admission().sell_in_flight,
                ));
            }
        }
        r
    }

    /// Read-only status snapshot.
    pub fn status(&self) -> (r: TraderStatus)
        requires
            self.wf(),
        ensures
            r.is_buying == self.spec_admission().buy_in_flight,
            r.is_selling == self.spec_admission().sell_in_flight,
            r.daily_trades == self.spec_admission().daily_trades,
            r.active_positions == live_keys(self.spec_positions()).len(),
    {
        TraderStatus {
            is_buying: self.admission.buy_in_flight,
            is_selling: self.admission.sell_in_flight,
            active_positions: self.positions.open_count(),
            daily_trades: self.admission.daily_trades,
        }
    }

    /// Shutdown path: admits nothing further and releases both in-flight flags.
    pub fn stop(&mut self)
        requires
            old(self).wf(),
        ensures
            final(self).wf(),
            final(self).spec_config() == old(self).spec_config(),
            final(self).spec_positions() == old(self).spec_positions(),
            final(self).spec_admission() == (AdmissionState {
                buy_in_flight: false,
                sell_in_flight: false,
                stopped: true,
                ..old(self).spec_admission()
            }),
    {
        self.admission.stop();
    }
}

} // verus!
