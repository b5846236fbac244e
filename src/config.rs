use vstd::prelude::*;
use vstd::string::*;

verus! {

/// Lamports in one SOL.
pub const LAMPORTS_PER_SOL: u64 = 1_000_000_000;

/// Milliseconds in one minute.
pub const ONE_MINUTE_MS: u64 = 60_000;

/// Milliseconds in one hour.
pub const ONE_HOUR_MS: u64 = 3_600_000;

/// Milliseconds in one UTC day (Unix time has no leap seconds).
pub const ONE_DAY_MS: u64 = 86_400_000;

/// Basis points in one whole (100%).
pub const BPS_DENOMINATOR: u64 = 10_000;

/// Bot configuration: every knob the engine reads, in integer units.
#[derive(Debug, Clone)]
pub struct BotConfig {
    pub rpc_url: String,
    pub ws_url: Option<String>,
    pub private_key: Option<String>,
    pub main_wallet_private_key: Option<String>,
    /// Quote spent per buy, in lamports.
    pub buy_amount_lamports: u64,
    /// Smallest pool liquidity accepted, in lamports.
    pub min_liquidity_lamports: u64,
    /// Slippage tolerance, in basis points.
    pub max_slippage_bps: u64,
    /// Take-profit distance above the entry price, in basis points.
    pub take_profit_bps: u64,
    /// Stop-loss distance below the entry price, in basis points.
    pub stop_loss_bps: u64,
    /// Trailing-stop distance, in basis points.
    pub trailing_stop_loss_bps: u64,
    pub trading_cooldown_ms: u64,
    pub max_loss_per_trade_lamports: u64,
    /// Trade budget per hour; the daily cap is 24 times this value.
    pub max_trades_per_hour: u32,
    pub min_market_cap_lamports: u64,
    pub max_market_cap_lamports: u64,
    pub min_holders: u32,
    pub max_holders: u32,
    pub require_social_links: bool,
    pub require_creator_verification: bool,
    pub priority_fee_lamports: u64,
    pub max_priority_fee_lamports: u64,
    pub log_level: String,
    pub telegram_bot_token: Option<String>,
    pub telegram_chat_id: Option<String>,
    pub simulation_mode: bool,
}

impl BotConfig {
    /// The number of buys admitted per UTC day.
    pub open spec fn daily_cap(&self) -> int {
        self.max_trades_per_hour as int * 24
    }
}

impl Default for BotConfig {
    fn default() -> (r: Self)
        ensures
            r.rpc_url@ == "https://api.mainnet-beta.solana.com"@,
            r.ws_url is None,
            r.private_key is None,
            r.main_wallet_private_key is None,
            r.buy_amount_lamports == 100_000_000,
            r.min_liquidity_lamports == 5_000_000_000,
            r.max_slippage_bps == 2_500,
            r.take_profit_bps == 10_000,
            r.stop_loss_bps == 3_000,
            r.trailing_stop_loss_bps == 1_000,
            r.trading_cooldown_ms == 5_000,
            r.max_loss_per_trade_lamports == 500_000_000,
            r.max_trades_per_hour == 10,
            r.min_market_cap_lamports == 1_000_000_000_000,
            r.max_market_cap_lamports == 50_000_000_000_000,
            r.min_holders == 10,
            r.max_holders == 1_000,
            !r.require_social_links,
            !r.require_creator_verification,
            r.priority_fee_lamports == 10_000,
            r.max_priority_fee_lamports == 100_000,
            r.log_level@ == "info"@,
            r.telegram_bot_token is None,
            r.telegram_chat_id is None,
            r.simulation_mode,
    {
        BotConfig {
            rpc_url: String::from_str("https://api.mainnet-beta.solana.com"),
            ws_url: None,
            private_key: None,
            main_wallet_private_key: None,
            buy_amount_lamports: 100_000_000,
            min_liquidity_lamports: 5_000_000_000,
            max_slippage_bps: 2_500,
            take_profit_bps: 10_000,
            stop_loss_bps: 3_000,
            trailing_stop_loss_bps: 1_000,
            trading_cooldown_ms: 5_000,
            max_loss_per_trade_lamports: 500_000_000,
            max_trades_per_hour: 10,
            min_market_cap_lamports: 1_000_000_000_000,
            max_market_cap_lamports: 50_000_000_000_000,
            min_holders: 10,
            max_holders: 1_000,
            require_social_links: false,
            require_creator_verification: false,
            priority_fee_lamports: 10_000,
            max_priority_fee_lamports: 100_000,
            log_level: String::from_str("info"),
            telegram_bot_token: None,
            telegram_chat_id: None,
            simulation_mode: true,
        }
    }
}

/// Why a configuration was refused.
#[derive(Debug, Clone, Copy, PartialEq, Eq, Structural)]
pub enum ConfigError {
    /// Live trading needs a signing key.
    MissingPrivateKey,
    /// The RPC endpoint is empty.
    MissingRpcUrl,
    /// The buy amount is zero.
    InvalidBuyAmount,
}

/// The first rule, in order, that a configuration breaks.
pub open spec fn config_error(config: BotConfig) -> Option<ConfigError> {
    if !config.simulation_mode && config.private_key is None {
        Some(ConfigError::MissingPrivateKey)
    } else if config.rpc_url@.len() == 0 {
        Some(ConfigError::MissingRpcUrl)
    } else if config.buy_amount_lamports == 0 {
        Some(ConfigError::InvalidBuyAmount)
    } else {
        None
    }
}

/// Checks a configuration before the engine starts.
pub fn validate_config(config: &BotConfig) -> (r: Result<(), ConfigError>)
    ensures
        r is Ok <==> config_error(*config) is None,
        r matches Err(e) ==> config_error(*config) == Some(e),
{
    if !config.simulation_mode && config.private_key.is_none() {
        return Err(ConfigError::MissingPrivateKey);
    }
    if config.rpc_url.as_str().is_empty() {
        return Err(ConfigError::MissingRpcUrl);
    }
    if config.buy_amount_lamports == 0 {
        return Err(ConfigError::InvalidBuyAmount);
    }
    Ok(())
}

/// Kinds of transaction the bot sends.
#[derive(Debug, Clone, Copy, PartialEq, Eq, Structural)]
pub enum TransactionType {
    Buy,
    Sell,
    Transfer,
}

/// Safety tier of a token.
#[derive(Debug, Clone, Copy, PartialEq, Eq, Structural)]
pub enum TokenSafetyStatus {
    Safe,
    Suspicious,
    Dangerous,
}

/// Whether the bot trades.
#[derive(Debug, Clone, Copy, PartialEq, Eq, Structural)]
pub enum TradingStatus {
    Active,
    Paused,
    Stopped,
}

} // verus!
