use vstd::prelude::*;
use crate::config::TokenSafetyStatus;

verus! {

/// Token information. Addresses are base58 text.
pub struct TokenInfo {
    pub address: String,
    pub name: String,
    pub symbol: String,
    pub description: Option<String>,
    pub image: Option<String>,
    pub metadata_uri: Option<String>,
    pub twitter: Option<String>,
    pub telegram: Option<String>,
    pub website: Option<String>,
    pub creator: String,
    /// Creation time, in milliseconds since the Unix epoch.
    pub created_at_ms: u64,
}

/// Point-in-time view of a bonding curve; reserves of the quote asset are in
/// lamports, those of the base token in its smallest unit.
pub struct BondingCurveInfo {
    pub address: String,
    pub token_address: String,
    pub virtual_sol_reserves: u64,
    pub virtual_token_reserves: u64,
    pub real_sol_reserves: u64,
    pub real_token_reserves: u64,
    pub token_total_supply: u64,
    pub complete: bool,
}

/// Metrics derived from a bonding curve.
#[derive(Debug, Clone, Copy, PartialEq, Eq, Structural)]
pub struct TokenMetrics {
    /// In lamports.
    pub market_cap: u128,
    /// In lamports.
    pub liquidity: u128,
    pub holders: u32,
    /// In lamports.
    pub volume_24h: u128,
    /// In price units.
    pub price: u128,
    /// In basis points.
    pub price_change_24h_bps: i64,
}

/// Everything the analyzer found out about a token.
pub struct TokenAnalysis {
    pub token: TokenInfo,
    pub bonding_curve: BondingCurveInfo,
    pub metrics: TokenMetrics,
    pub safety: TokenSafety,
    pub opportunities: TokenOpportunities,
}

/// Safety assessment of a token.
#[derive(Debug, Clone, Copy, PartialEq, Eq, Structural)]
pub struct TokenSafety {
    pub status: TokenSafetyStatus,
    /// In 0..=100.
    pub score: u32,
    pub checks: SafetyChecks,
}

/// Results of the individual safety checks.
#[derive(Debug, Clone, Copy, PartialEq, Eq, Structural)]
pub struct SafetyChecks {
    pub has_lock: bool,
    pub mint_revoked: bool,
    pub is_honeypot: bool,
    pub has_social_links: bool,
    pub creator_verified: bool,
    pub suspicious_creator: bool,
}

/// Opportunity assessment: a score in 0..=100 and the reasons behind it.
pub struct TokenOpportunities {
    pub score: u32,
    pub reasons: Vec<String>,
}

impl TokenOpportunities {
    /// The reasons as character sequences.
    pub open spec fn reason_texts(&self) -> Seq<Seq<char>> {
        self.reasons@.map_values(|s: String| s@)
    }
}

/// Outcome of a safety assessment, with what failed and what to do.
pub struct SafetyCheckResult {
    pub passed: bool,
    pub score: u32,
    pub issues: Vec<String>,
    pub recommendations: Vec<String>,
}

/// A holding in one asset. Prices are in price units, `pnl` in lamports and
/// `pnl_bps` in basis points of the entry price.
pub struct Position {
    pub token_address: String,
    pub token_symbol: String,
    pub amount: u64,
    pub entry_price: u128,
    pub current_price: u128,
    pub pnl: i128,
    pub pnl_bps: i128,
    pub opened_at_ms: u64,
    pub last_updated_ms: u64,
    pub take_profit_price: Option<u128>,
    pub stop_loss_price: Option<u128>,
    pub trailing_stop_price: Option<u128>,
    pub status: PositionStatus,
}

impl Clone for Position {
    fn clone(&self) -> (r: Self)
        ensures
            r == *self,
    {
        Position {
            token_address: self.token_address.clone(),
            token_symbol: self.token_symbol.clone(),
            amount: self.amount,
            entry_price: self.entry_price,
            current_price: self.current_price,
            pnl: self.pnl,
            pnl_bps: self.pnl_bps,
            opened_at_ms: self.opened_at_ms,
            last_updated_ms: self.last_updated_ms,
            take_profit_price: self.take_profit_price,
            stop_loss_price: self.stop_loss_price,
            trailing_stop_price: self.trailing_stop_price,
            status: self.status,
        }
    }
}

/// Lifecycle of a position: Open, then Partial while some is left, then Closed.
#[derive(Debug, Clone, Copy, PartialEq, Eq, Structural)]
pub enum PositionStatus {
    Open,
    Closed,
    Partial,
}

/// Side of a trade.
#[derive(Debug, Clone, Copy, PartialEq, Eq, Structural)]
pub enum TradeType {
    Buy,
    Sell,
}

/// A token launch seen on the feed. Duplicates are possible.
pub struct NewTokenEvent {
    pub token_address: String,
    pub bonding_curve_address: String,
    pub creator: String,
    /// Observation time, in milliseconds since the Unix epoch.
    pub timestamp_ms: u64,
}

} // verus!
