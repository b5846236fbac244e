use solana_pumpfun_sniper::config::{validate_config, BotConfig, ConfigError, TokenSafetyStatus};
use solana_pumpfun_sniper::fees::priority_fee_from_samples;
use solana_pumpfun_sniper::admission::{should_trade_token, utc_day, AdmissionRejected, AdmissionState};
use solana_pumpfun_sniper::ledger::{compute_pnl, compute_pnl_bps, LedgerError, PositionLedger};
use solana_pumpfun_sniper::monitor::{contains_text, parse_token_creation};
use solana_pumpfun_sniper::token_analyzer::{analyze_token, TokenAnalyzer};
use solana_pumpfun_sniper::trader::{
    has_sufficient_balance, max_sol_cost, min_sol_output, simulated_price, stop_loss_price, take_profit_price,
    BuyOutcome, PriceQuote, SellOutcome, TradeError, Trader,
};
use solana_pumpfun_sniper::types::{
    BondingCurveInfo, Position, PositionStatus, SafetyChecks, TokenAnalysis, TokenInfo, TokenMetrics,
};

const DAY_MS: u64 = 86_400_000;
const SOL: u64 = 1_000_000_000;

fn token(address: &str, created_at_ms: u64, social: bool) -> TokenInfo {
    TokenInfo {
        address: address.to_string(),
        name: format!("Token {}", address),
        symbol: "TKN".to_string(),
        description: None,
        image: None,
        metadata_uri: None,
        twitter: if social { Some("https://x.com/t".to_string()) } else { None },
        telegram: None,
        website: None,
        creator: "creator".to_string(),
        created_at_ms,
    }
}

fn curve(vq: u64, vb: u64, rq: u64, rb: u64, supply: u64, complete: bool) -> BondingCurveInfo {
    BondingCurveInfo {
        address: "curve".to_string(),
        token_address: "mint".to_string(),
        virtual_sol_reserves: vq,
        virtual_token_reserves: vb,
        real_sol_reserves: rq,
        real_token_reserves: rb,
        token_total_supply: supply,
        complete,
    }
}

fn checks(all: bool) -> SafetyChecks {
    SafetyChecks {
        has_lock: all,
        mint_revoked: all,
        is_honeypot: false,
        has_social_links: all,
        creator_verified: all,
        suspicious_creator: false,
    }
}

fn tradable(address: &str, price: u128) -> TokenAnalysis {
    let mut a = analyze_token(token(address, 0, true), curve(SOL, SOL, 0, 0, SOL, false), 0);
    a.safety = TokenAnalyzer::safety_from_checks(checks(true));
    a.metrics = TokenMetrics {
        market_cap: 2_000 * SOL as u128,
        liquidity: 10 * SOL as u128,
        holders: 0,
        volume_24h: 0,
        price,
        price_change_24h_bps: 0,
    };
    a
}

fn sim_config() -> BotConfig {
    BotConfig::default()
}

fn live_config() -> BotConfig {
    let mut c = BotConfig::default();
    c.simulation_mode = false;
    c.private_key = Some("key".to_string());
    c
}

#[test]
fn metrics_of_one_sol_curve() {
    let m = TokenAnalyzer::calculate_metrics(&curve(SOL, 1_000_000_000, 0, 0, 1_000_000_000, false));
    assert_eq!(m.price, 1_000_000_000);
    assert_eq!(m.market_cap, 1_000_000_000);
    assert_eq!(m.liquidity, 1_000_000_000);
    assert_eq!(m.holders, 0);
}

#[test]
fn metrics_depth_is_at_least_one() {
    let m = TokenAnalyzer::calculate_metrics(&curve(3, 5, 4, 9, 10, false));
    assert_eq!(m.liquidity, 7);
    assert_eq!(m.price, 7 * 1_000_000_000);
    assert_eq!(m.market_cap, 70);
}

#[test]
fn market_cap_saturates() {
    let m = TokenAnalyzer::calculate_metrics(&curve(u64::MAX, 0, u64::MAX, 0, u64::MAX, false));
    assert_eq!(m.market_cap, u128::MAX);
    assert_eq!(m.liquidity, 2 * u64::MAX as u128);
}

#[test]
fn metrics_are_deterministic() {
    let c = curve(30 * SOL, 1_073_000_000_000_000, 2 * SOL, 50_000_000_000, 1_000_000_000_000_000, false);
    let a = analyze_token(token("A", 0, true), c, 10);
    let c2 = curve(30 * SOL, 1_073_000_000_000_000, 2 * SOL, 50_000_000_000, 1_000_000_000_000_000, false);
    let b = analyze_token(token("A", 0, true), c2, 99 * DAY_MS);
    assert_eq!(a.metrics, b.metrics);
    assert_eq!(a.safety, b.safety);
}

#[test]
fn status_thresholds_on_values() {
    assert_eq!(TokenAnalyzer::status_for_score(100), TokenSafetyStatus::Safe);
    assert_eq!(TokenAnalyzer::status_for_score(70), TokenSafetyStatus::Safe);
    assert_eq!(TokenAnalyzer::status_for_score(69), TokenSafetyStatus::Suspicious);
    assert_eq!(TokenAnalyzer::status_for_score(40), TokenSafetyStatus::Suspicious);
    assert_eq!(TokenAnalyzer::status_for_score(39), TokenSafetyStatus::Dangerous);
    assert_eq!(TokenAnalyzer::status_for_score(0), TokenSafetyStatus::Dangerous);
}

#[test]
fn all_checks_passing_scores_full() {
    let s = TokenAnalyzer::safety_from_checks(checks(true));
    assert_eq!(s.score, 100);
    assert_eq!(s.status, TokenSafetyStatus::Safe);
}

#[test]
fn only_social_links_is_dangerous() {
    let mut c = checks(false);
    c.has_social_links = true;
    let s = TokenAnalyzer::safety_from_checks(c);
    assert_eq!(s.score, 15);
    assert_eq!(s.status, TokenSafetyStatus::Dangerous);
    c.suspicious_creator = true;
    let s = TokenAnalyzer::safety_from_checks(c);
    assert_eq!(s.score, 0);
    assert_eq!(s.status, TokenSafetyStatus::Dangerous);

    let mut a = tradable("B", 1);
    a.safety = s;
    assert!(!should_trade_token(&a, &sim_config()));
    let mut t = Trader::new(sim_config(), 0);
    assert!(matches!(t.execute_buy(&a, 10_000), Err(AdmissionRejected::BelowSafetyThreshold)));
}

#[test]
fn honeypot_clamps_at_zero() {
    let mut c = checks(false);
    c.is_honeypot = true;
    c.suspicious_creator = true;
    assert_eq!(TokenAnalyzer::safety_from_checks(c).score, 0);
}

#[test]
fn perform_safety_checks_reads_curve_and_links() {
    let s = TokenAnalyzer::perform_safety_checks(&curve(SOL, SOL, 0, 0, SOL, false), &token("A", 0, true));
    assert!(s.checks.has_lock);
    assert!(s.checks.has_social_links);
    assert_eq!(s.score, 100 - 40 - 10);
    assert_eq!(s.status, TokenSafetyStatus::Suspicious);
    let s = TokenAnalyzer::perform_safety_checks(&curve(SOL, SOL, 0, 0, SOL, true), &token("A", 0, false));
    assert_eq!(s.score, 5);
    assert_eq!(s.status, TokenSafetyStatus::Dangerous);
}

#[test]
fn opportunity_bonuses_and_reasons() {
    let a = analyze_token(token("A", 0, true), curve(5 * SOL, SOL, 0, 0, SOL, false), 10);
    assert_eq!(a.safety.status, TokenSafetyStatus::Suspicious);
    assert_eq!(a.opportunities.score, 10 + 20 + 15 + 25);
    assert_eq!(
        a.opportunities.reasons,
        vec![
            "Token is moderately safe".to_string(),
            "Market cap 5000000000 lamports within range".to_string(),
            "Sufficient liquidity: 5000000000 lamports".to_string(),
            "Very new token - early entry opportunity".to_string(),
        ]
    );
}

#[test]
fn opportunity_freshness_buckets() {
    let hour = 3_600_000u64;
    let a = analyze_token(token("A", 0, false), curve(0, SOL, 0, 0, SOL, true), 2 * hour);
    assert_eq!(a.opportunities.score, 15);
    assert_eq!(a.opportunities.reasons, vec!["Recent token launch".to_string()]);
    let a = analyze_token(token("A", 0, false), curve(0, SOL, 0, 0, SOL, true), 6 * hour);
    assert_eq!(a.opportunities.score, 0);
    assert!(a.opportunities.reasons.is_empty());
    let a = analyze_token(token("A", 10 * hour, false), curve(0, SOL, 0, 0, SOL, true), 0);
    assert_eq!(a.opportunities.score, 25);
}

#[test]
fn in_flight_buy_rejects_admission() {
    let mut t = Trader::new(live_config(), 0);
    let a = tradable("A", 1_000);
    assert!(matches!(t.execute_buy(&a, 10_000), Ok(BuyOutcome::Submit(_))));
    assert!(t.admission().buy_in_flight);
    let b = tradable("B", 1_000);
    assert!(matches!(t.execute_buy(&b, 1_000_000), Err(AdmissionRejected::OperationInFlight)));
    assert!(t.complete_buy(&a, false, 1_000_001).is_ok());
    assert!(!t.admission().buy_in_flight);
    assert!(matches!(t.execute_buy(&b, 1_000_002), Ok(BuyOutcome::Submit(_))));
}

#[test]
fn cooldown_rejects_second_buy() {
    let mut t = Trader::new(sim_config(), 1_000_000);
    assert!(matches!(t.execute_buy(&tradable("A", 1), 1_000_000), Ok(BuyOutcome::Filled)));
    assert!(matches!(t.execute_buy(&tradable("B", 1), 1_000_001), Err(AdmissionRejected::CooldownActive)));
    assert!(matches!(t.execute_buy(&tradable("B", 1), 1_005_000), Ok(BuyOutcome::Filled)));
}

#[test]
fn daily_cap_rejects() {
    let mut c = sim_config();
    c.max_trades_per_hour = 0;
    let mut t = Trader::new(c, 0);
    assert!(matches!(t.execute_buy(&tradable("A", 1), 10_000), Err(AdmissionRejected::DailyCapReached)));
}

#[test]
fn market_cap_and_liquidity_filters() {
    let mut t = Trader::new(sim_config(), 0);
    let mut a = tradable("A", 1);
    a.metrics.market_cap = 999 * SOL as u128;
    assert!(matches!(t.execute_buy(&a, 10_000), Err(AdmissionRejected::MarketCapOutOfRange)));
    a.metrics.market_cap = 50_001 * SOL as u128;
    assert!(matches!(t.execute_buy(&a, 10_000), Err(AdmissionRejected::MarketCapOutOfRange)));
    a.metrics.market_cap = 50_000 * SOL as u128;
    a.metrics.liquidity = 4 * SOL as u128;
    assert!(matches!(t.execute_buy(&a, 10_000), Err(AdmissionRejected::InsufficientLiquidity)));
    assert!(!should_trade_token(&a, &sim_config()));
    a.metrics.liquidity = 5 * SOL as u128;
    assert!(should_trade_token(&a, &sim_config()));
}

#[test]
fn rebuy_of_open_asset_rejected() {
    let mut t = Trader::new(sim_config(), 0);
    let a = tradable("A", 1_000);
    assert!(matches!(t.execute_buy(&a, 10_000), Ok(BuyOutcome::Filled)));
    assert!(matches!(t.execute_buy(&a, 100_000), Err(AdmissionRejected::PositionAlreadyOpen)));
    let key = "A".to_string();
    assert!(matches!(t.execute_sell(&key, 10_000, 100_001), Ok(SellOutcome::Filled { amount: 100_000 })));
    assert!(matches!(t.execute_buy(&a, 200_000), Ok(BuyOutcome::Filled)));
    let p = t.positions().get(&key).unwrap();
    assert_eq!(p.status, PositionStatus::Open);
    assert_eq!(p.amount, 100_000);
}

#[test]
fn simulated_buy_opens_position() {
    let mut t = Trader::new(sim_config(), 0);
    let a = tradable("A", 1_000);
    assert!(matches!(t.execute_buy(&a, 10_000), Ok(BuyOutcome::Filled)));
    let s = t.admission();
    assert_eq!(s.daily_trades, 1);
    assert_eq!(s.last_buy_ms, 10_000);
    assert!(!s.buy_in_flight);
    let p = t.positions().get(&"A".to_string()).unwrap();
    assert_eq!(p.amount, 100_000);
    assert_eq!(p.entry_price, 1_000);
    assert_eq!(p.take_profit_price, Some(2_000));
    assert_eq!(p.stop_loss_price, Some(700));
    assert_eq!(p.status, PositionStatus::Open);
    let st = t.status();
    assert_eq!(st.active_positions, 1);
    assert_eq!(st.daily_trades, 1);
}

#[test]
fn live_buy_order_and_completion() {
    let mut t = Trader::new(live_config(), 0);
    let a = tradable("A", 1_000);
    match t.execute_buy(&a, 10_000) {
        Ok(BuyOutcome::Submit(o)) => {
            assert_eq!(o.token_address, "A");
            assert_eq!(o.bonding_curve_address, "curve");
            assert_eq!(o.amount_lamports, 100_000_000);
            assert_eq!(o.max_sol_cost, 125_000_000);
        }
        _ => panic!("expected an order"),
    }
    assert!(t.positions().get(&"A".to_string()).is_none());
    assert!(t.complete_buy(&a, true, 10_500).is_ok());
    assert_eq!(t.admission().daily_trades, 1);
    assert_eq!(t.admission().last_buy_ms, 10_500);
    assert!(t.positions().get(&"A".to_string()).is_some());
}

#[test]
fn full_sell_closes_position() {
    let mut l = PositionLedger::new();
    let p = Position::new("A".to_string(), "TKN".to_string(), 500, 1_000, 7, Some(2_000), Some(700));
    assert!(l.open(p).is_ok());
    let key = "A".to_string();
    assert!(l.apply_sell_settlement(&key, 500, 9).is_ok());
    let q = l.get(&key).unwrap();
    assert_eq!(q.status, PositionStatus::Closed);
    assert_eq!(q.amount, 0);
    assert_eq!(q.last_updated_ms, 9);
    assert!(l.list_open().is_empty());
}

#[test]
fn partial_sell_and_overdraw() {
    let mut l = PositionLedger::new();
    assert!(l.open(Position::new("A".to_string(), "TKN".to_string(), 500, 1_000, 7, None, None)).is_ok());
    let key = "A".to_string();
    assert_eq!(l.apply_sell_settlement(&key, 501, 8), Err(LedgerError::Overdraw));
    assert!(l.apply_sell_settlement(&key, 200, 5).is_ok());
    let q = l.get(&key).unwrap();
    assert_eq!(q.status, PositionStatus::Partial);
    assert_eq!(q.amount, 300);
    assert_eq!(q.last_updated_ms, 7);
    assert_eq!(l.apply_sell_settlement(&"B".to_string(), 1, 8), Err(LedgerError::NotFound));
    assert_eq!(l.refresh_price(&"B".to_string(), 1, 8), Err(LedgerError::NotFound));
    assert_eq!(l.list_open().len(), 1);
}

#[test]
fn open_twice_is_refused() {
    let mut l = PositionLedger::new();
    assert!(l.open(Position::new("A".to_string(), "T".to_string(), 5, 10, 0, None, None)).is_ok());
    assert_eq!(l.open(Position::new("A".to_string(), "T".to_string(), 9, 10, 0, None, None)), Err(LedgerError::AlreadyOpen));
    assert_eq!(l.get(&"A".to_string()).unwrap().amount, 5);
}

#[test]
fn refresh_price_updates_pnl() {
    let mut l = PositionLedger::new();
    assert!(l.open(Position::new("A".to_string(), "T".to_string(), 2_000_000_000, 1_000, 0, None, None)).is_ok());
    let key = "A".to_string();
    assert!(l.refresh_price(&key, 1_500, 3).is_ok());
    let q = l.get(&key).unwrap();
    assert_eq!(q.current_price, 1_500);
    assert_eq!(q.pnl, 1_000);
    assert_eq!(q.pnl_bps, 5_000);
    assert!(l.refresh_price(&key, 250, 4).is_ok());
    let q = l.get(&key).unwrap();
    assert_eq!(q.pnl, -1_500);
    assert_eq!(q.pnl_bps, -7_500);
}

#[test]
fn pnl_formulas() {
    assert_eq!(compute_pnl(1_000, 3_000, 1_000_000_000), 2_000);
    assert_eq!(compute_pnl(3_000, 1_000, 1_000_000_000), -2_000);
    assert_eq!(compute_pnl(0, u128::MAX, u64::MAX), i128::MAX);
    assert_eq!(compute_pnl(u128::MAX, 0, u64::MAX), i128::MIN);
    assert_eq!(compute_pnl_bps(0, 5), 0);
    assert_eq!(compute_pnl_bps(3, 4), 3_333);
    assert_eq!(compute_pnl_bps(3, 2), -3_333);
    assert_eq!(compute_pnl_bps(u128::MAX, 1), -9_999);
    assert_eq!(compute_pnl_bps(1, u128::MAX), i128::MAX);
}

#[test]
fn take_profit_triggers_full_sell() {
    let mut c = live_config();
    c.take_profit_bps = 10_000;
    let mut t = Trader::new(c, 0);
    let a = tradable("A", 1_000_000_000);
    assert!(matches!(t.execute_buy(&a, 10_000), Ok(BuyOutcome::Submit(_))));
    assert!(t.complete_buy(&a, true, 10_000).is_ok());
    let key = "A".to_string();
    let p = t.positions().get(&key).unwrap();
    assert_eq!(p.take_profit_price, Some(2_000_000_000));
    assert!(t.should_take_profit(&Position { current_price: 2_000_000_000, ..p.clone() }));
    assert!(!t.should_stop_loss(&Position { current_price: 2_000_000_000, ..p.clone() }));
    match t.evaluate_exit(&key, 2_000_000_000, 20_000) {
        Ok(Some(SellOutcome::Submit(o))) => {
            assert_eq!(o.token_address, "A");
            assert_eq!(o.amount, 100_000);
            assert_eq!(o.min_sol_output, 150_000);
        }
        _ => panic!("expected a full sell order"),
    }
    assert!(t.admission().sell_in_flight);
    assert_eq!(t.evaluate_exit(&key, 2_000_000_000, 20_001).err(), Some(TradeError::Rejected(AdmissionRejected::OperationInFlight)));
    assert!(t.complete_sell(&key, 100_000, true, 20_002).is_ok());
    assert!(!t.admission().sell_in_flight);
    assert_eq!(t.positions().get(&key).unwrap().status, PositionStatus::Closed);
}

#[test]
fn stop_loss_in_simulation_settles() {
    let mut t = Trader::new(sim_config(), 0);
    let a = tradable("A", 1_000);
    assert!(matches!(t.execute_buy(&a, 10_000), Ok(BuyOutcome::Filled)));
    let key = "A".to_string();
    assert!(matches!(t.evaluate_exit(&key, 900, 11_000), Ok(None)));
    assert!(matches!(t.evaluate_exit(&key, 700, 12_000), Ok(Some(SellOutcome::Filled { amount: 100_000 }))));
    let p = t.positions().get(&key).unwrap();
    assert_eq!(p.status, PositionStatus::Closed);
    assert_eq!(p.current_price, 700);
    assert!(matches!(t.evaluate_exit(&key, 1, 13_000), Ok(None)));
    assert_eq!(t.evaluate_exit(&"Z".to_string(), 1, 13_000).err(), Some(TradeError::Ledger(LedgerError::NotFound)));
}

#[test]
fn sell_errors() {
    let mut t = Trader::new(sim_config(), 0);
    assert!(matches!(t.execute_buy(&tradable("A", 1_000), 10_000), Ok(BuyOutcome::Filled)));
    let key = "A".to_string();
    assert_eq!(t.execute_sell(&key, 10_001, 11_000).err(), Some(TradeError::Ledger(LedgerError::Overdraw)));
    assert_eq!(t.execute_sell(&"Z".to_string(), 100, 11_000).err(), Some(TradeError::Ledger(LedgerError::NotFound)));
    assert!(matches!(t.execute_sell(&key, 2_500, 11_000), Ok(SellOutcome::Filled { amount: 25_000 })));
    assert_eq!(t.positions().get(&key).unwrap().status, PositionStatus::Partial);
}

#[test]
fn automated_sells_in_simulation_return_no_orders() {
    let mut t = Trader::new(sim_config(), 0);
    assert!(matches!(t.execute_buy(&tradable("A", 1_000_000), 10_000), Ok(BuyOutcome::Filled)));
    for k in 0..50u64 {
        assert!(t.check_automated_sells(20_000 + k).is_empty());
    }
    let p = t.positions().get(&"A".to_string()).unwrap();
    assert!(p.last_updated_ms >= 20_000);
}

#[test]
fn automated_sells_live_yield_at_most_one_order() {
    let mut c = live_config();
    c.take_profit_bps = 0;
    let mut t = Trader::new(c, 0);
    for (i, name) in ["A", "B", "C"].iter().enumerate() {
        let a = tradable(name, 1_000_000);
        let now = 10_000 * (i as u64 + 1);
        assert!(matches!(t.execute_buy(&a, now), Ok(BuyOutcome::Submit(_))));
        assert!(t.complete_buy(&a, true, now).is_ok());
    }
    let orders = t.check_automated_sells(100_000);
    assert!(orders.len() <= 1);
    assert_eq!(t.admission().sell_in_flight, orders.len() == 1);
}

#[test]
fn daily_counter_uses_utc_days() {
    let day = 20_000u64;
    let late = day * DAY_MS + DAY_MS - 1_000;
    let early = (day + 1) * DAY_MS + 1_000;
    assert_eq!(utc_day(late), day);
    assert_eq!(utc_day(early), day + 1);
    let mut c = sim_config();
    c.trading_cooldown_ms = 0;
    c.max_trades_per_hour = 1;
    let mut t = Trader::new(c, late - 10_000);
    assert!(matches!(t.execute_buy(&tradable("A", 1), late), Ok(BuyOutcome::Filled)));
    assert_eq!(t.admission().daily_trades, 1);
    assert_eq!(t.admission().reset_day, day);
    assert!(matches!(t.execute_buy(&tradable("B", 1), early), Ok(BuyOutcome::Filled)));
    assert_eq!(t.admission().daily_trades, 1);
    assert_eq!(t.admission().reset_day, day + 1);
}

#[test]
fn admission_state_reset() {
    let mut s = AdmissionState::new(5 * DAY_MS);
    s.daily_trades = 7;
    s.reset_daily_trades_if_needed(5 * DAY_MS + 3);
    assert_eq!(s.daily_trades, 7);
    s.reset_daily_trades_if_needed(6 * DAY_MS);
    assert_eq!(s.daily_trades, 0);
    assert_eq!(s.reset_day, 6);
    assert!(s.begin_sell().is_ok());
    assert_eq!(s.begin_sell(), Err(AdmissionRejected::OperationInFlight));
    s.end_sell();
    assert!(!s.sell_in_flight);
}

#[test]
fn stop_releases_flags() {
    let mut t = Trader::new(live_config(), 0);
    assert!(matches!(t.execute_buy(&tradable("A", 1), 10_000), Ok(BuyOutcome::Submit(_))));
    t.stop();
    assert!(!t.admission().buy_in_flight);
    assert!(t.admission().stopped);
    assert!(!t.status().is_buying);
}

#[test]
fn stop_admits_nothing_further() {
    let mut t = Trader::new(sim_config(), 0);
    let a = tradable("A", 1_000);
    assert!(matches!(t.execute_buy(&a, 10_000), Ok(BuyOutcome::Filled)));
    t.stop();
    let key = "A".to_string();
    assert!(matches!(t.execute_buy(&tradable("B", 1_000), 100_000), Err(AdmissionRejected::ShuttingDown)));
    assert_eq!(t.execute_sell(&key, 10_000, 100_000).err(), Some(TradeError::Rejected(AdmissionRejected::ShuttingDown)));
    assert_eq!(t.evaluate_exit(&key, 5_000, 100_000).err(), Some(TradeError::Rejected(AdmissionRejected::ShuttingDown)));
    assert!(t.check_automated_sells(100_000).is_empty());
    let quotes = vec![PriceQuote { token_address: key.clone(), price: Some(5_000) }];
    assert!(t.check_exits(&quotes, 100_000).is_empty());
    let p = t.positions().get(&key).unwrap();
    assert_eq!(p.current_price, 1_000);
    assert_eq!(p.status, PositionStatus::Open);
    assert_eq!(t.admission().daily_trades, 1);
}

#[test]
fn quote_tick_uses_first_quote_and_skips_missing() {
    let mut t = Trader::new(sim_config(), 0);
    assert!(matches!(t.execute_buy(&tradable("A", 1_000), 10_000), Ok(BuyOutcome::Filled)));
    assert!(matches!(t.execute_buy(&tradable("B", 1_000), 20_000), Ok(BuyOutcome::Filled)));
    assert!(matches!(t.execute_buy(&tradable("C", 1_000), 30_000), Ok(BuyOutcome::Filled)));
    let quotes = vec![
        PriceQuote { token_address: "A".to_string(), price: Some(2_000) },
        PriceQuote { token_address: "A".to_string(), price: Some(1_100) },
        PriceQuote { token_address: "B".to_string(), price: None },
        PriceQuote { token_address: "C".to_string(), price: Some(1_100) },
    ];
    assert!(t.check_exits(&quotes, 40_000).is_empty());
    let a = t.positions().get(&"A".to_string()).unwrap();
    assert_eq!(a.status, PositionStatus::Closed);
    assert_eq!(a.current_price, 2_000);
    let b = t.positions().get(&"B".to_string()).unwrap();
    assert_eq!(b.current_price, 1_000);
    assert_eq!(b.last_updated_ms, 20_000);
    let c = t.positions().get(&"C".to_string()).unwrap();
    assert_eq!(c.status, PositionStatus::Open);
    assert_eq!(c.current_price, 1_100);
    assert_eq!(c.pnl_bps, 1_000);
    // A Closed position is left alone by later ticks.
    assert!(t.check_exits(&vec![PriceQuote { token_address: "A".to_string(), price: Some(1) }], 50_000).is_empty());
    let a = t.positions().get(&"A".to_string()).unwrap();
    assert_eq!(a.current_price, 2_000);
    assert_eq!(a.last_updated_ms, 40_000);
}

#[test]
fn quote_tick_live_orders_one_sale() {
    let mut t = Trader::new(live_config(), 0);
    for (i, name) in ["A", "B"].iter().enumerate() {
        let a = tradable(name, 1_000);
        let now = 10_000 * (i as u64 + 1);
        assert!(matches!(t.execute_buy(&a, now), Ok(BuyOutcome::Submit(_))));
        assert!(t.complete_buy(&a, true, now).is_ok());
    }
    let quotes = vec![
        PriceQuote { token_address: "A".to_string(), price: Some(600) },
        PriceQuote { token_address: "B".to_string(), price: Some(3_000) },
    ];
    let orders = t.check_exits(&quotes, 50_000);
    assert_eq!(orders.len(), 1);
    assert_eq!(orders[0].token_address, "A");
    assert_eq!(orders[0].amount, 100_000);
    assert!(t.admission().sell_in_flight);
    assert_eq!(t.positions().get(&"B".to_string()).unwrap().current_price, 3_000);
    assert_eq!(t.positions().get(&"B".to_string()).unwrap().status, PositionStatus::Open);
}

#[test]
fn zero_sale_keeps_status() {
    let mut l = PositionLedger::new();
    assert!(l.open(Position::new("A".to_string(), "T".to_string(), 5, 10, 0, None, None)).is_ok());
    let key = "A".to_string();
    assert!(l.apply_sell_settlement(&key, 0, 1).is_ok());
    assert_eq!(l.get(&key).unwrap().status, PositionStatus::Open);
    assert!(l.apply_sell_settlement(&key, 5, 2).is_ok());
    assert_eq!(l.get(&key).unwrap().status, PositionStatus::Closed);
    assert_eq!(l.apply_sell_settlement(&key, 1, 3), Err(LedgerError::Overdraw));
    assert!(l.apply_sell_settlement(&key, 0, 3).is_ok());
    assert_eq!(l.get(&key).unwrap().status, PositionStatus::Closed);
}

#[test]
fn empty_position_is_closed() {
    let p = Position::new("A".to_string(), "T".to_string(), 0, 10, 0, None, None);
    assert_eq!(p.status, PositionStatus::Closed);
}

#[test]
fn config_validation() {
    assert_eq!(validate_config(&BotConfig::default()), Ok(()));
    let mut c = BotConfig::default();
    c.simulation_mode = false;
    assert_eq!(validate_config(&c), Err(ConfigError::MissingPrivateKey));
    c.private_key = Some("k".to_string());
    c.rpc_url = String::new();
    assert_eq!(validate_config(&c), Err(ConfigError::MissingRpcUrl));
    c.rpc_url = "http://x".to_string();
    c.buy_amount_lamports = 0;
    assert_eq!(validate_config(&c), Err(ConfigError::InvalidBuyAmount));
}

#[test]
fn default_config_values() {
    let c = BotConfig::default();
    assert_eq!(c.rpc_url, "https://api.mainnet-beta.solana.com");
    assert_eq!(c.buy_amount_lamports, 100_000_000);
    assert_eq!(c.trading_cooldown_ms, 5_000);
    assert_eq!(c.max_trades_per_hour, 10);
    assert!(c.simulation_mode);
}

#[test]
fn price_levels_and_amounts() {
    assert_eq!(take_profit_price(1_000, 10_000), 2_000);
    assert_eq!(take_profit_price(u128::MAX, 1), u128::MAX);
    assert_eq!(stop_loss_price(1_000, 3_000), 700);
    assert_eq!(stop_loss_price(1_000, 20_000), 0);
    assert_eq!(max_sol_cost(100_000_000, 2_500), 125_000_000);
    assert_eq!(max_sol_cost(u64::MAX, 10_000), u64::MAX);
    assert_eq!(min_sol_output(1_000_000_000, 2_000_000_000, 2_500), 1_500_000_000);
    assert_eq!(min_sol_output(1_000, 1_000, 10_000), 0);
    assert!(has_sufficient_balance(110_000_000, &BotConfig::default()));
    assert!(!has_sufficient_balance(109_999_999, &BotConfig::default()));
}

#[test]
fn simulated_price_stays_within_five_percent() {
    assert_eq!(simulated_price(10_000, 500), 10_000);
    assert_eq!(simulated_price(10_000, 0), 9_500);
    assert_eq!(simulated_price(10_000, 1_000), 10_500);
    assert_eq!(simulated_price(10_000, 1_001), 9_500);
    assert_eq!(simulated_price(u128::MAX, 1_000), u128::MAX);
}

#[test]
fn priority_fee_estimate() {
    assert_eq!(priority_fee_from_samples(&vec![]), 10_000);
    assert_eq!(priority_fee_from_samples(&vec![1, 2, 3]), 10_000);
    assert_eq!(priority_fee_from_samples(&vec![20_000, 40_001]), 30_000);
    assert_eq!(priority_fee_from_samples(&vec![u64::MAX, u64::MAX]), 100_000);
}

#[test]
fn creation_logs_detected() {
    let yes = vec!["Program log: start".to_string(), "Program log: Instruction: Create".to_string()];
    let lower = vec!["created token".to_string()];
    let no = vec!["Program log: Instruction: Buy".to_string(), "CREATE".to_string()];
    assert!(parse_token_creation(&yes));
    assert!(parse_token_creation(&lower));
    assert!(!parse_token_creation(&no));
    assert!(!parse_token_creation(&vec![]));
    assert!(contains_text("abc", ""));
    assert!(contains_text("héllo wörld", "wör"));
    assert!(!contains_text("ab", "abc"));
}
