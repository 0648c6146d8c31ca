//! Mapping from a deployment environment to the service's base URLs.
use vstd::prelude::*;

verus! {

/// The deployment a client talks to.
#[derive(Clone, Copy, Debug, PartialEq, Eq, Structural)]
pub enum TradingEnvironment {
    /// The live trading service.
    LiveMarketMode,
    /// The older host of the live trading service.
    LegacyLiveMarketMode,
    /// The demo (sandbox) service.
    DemoMode,
}

/// The REST base URL of an environment.
pub open spec fn base_url_of(env: TradingEnvironment) -> Seq<char> {
    match env {
        TradingEnvironment::LiveMarketMode => "https://api.elections.kalshi.com/trade-api/v2"@,
        TradingEnvironment::LegacyLiveMarketMode => "https://trading-api.kalshi.com/trade-api/v2"@,
        TradingEnvironment::DemoMode => "https://demo-api.kalshi.co/trade-api/v2"@,
    }
}

/// The streaming (WebSocket) base URL of an environment.
pub open spec fn ws_url_of(env: TradingEnvironment) -> Seq<char> {
    match env {
        TradingEnvironment::LiveMarketMode => "wss://api.elections.kalshi.com/trade-api/ws/v2"@,
        TradingEnvironment::LegacyLiveMarketMode => "wss://trading-api.kalshi.com/v1/ws"@,
        TradingEnvironment::DemoMode => "wss://demo-api.kalshi.co/trade-api/ws/v2"@,
    }
}

/// The endpoints are fixed per environment: the same environment always
/// resolves to the same non-empty REST and streaming URLs.
pub proof fn lemma_endpoints_fixed(a: TradingEnvironment, b: TradingEnvironment)
    requires
        a == b,
    ensures
        base_url_of(a) == base_url_of(b),
        ws_url_of(a) == ws_url_of(b),
        base_url_of(a).len() > 0,
        ws_url_of(a).len() > 0,
{
    reveal_strlit("https://api.elections.kalshi.com/trade-api/v2");
    reveal_strlit("https://trading-api.kalshi.com/trade-api/v2");
    reveal_strlit("https://demo-api.kalshi.co/trade-api/v2");
    reveal_strlit("wss://api.elections.kalshi.com/trade-api/ws/v2");
    reveal_strlit("wss://trading-api.kalshi.com/v1/ws");
    reveal_strlit("wss://demo-api.kalshi.co/trade-api/ws/v2");
}

/// Returns the REST base URL of `trading_env`.
pub fn build_base_url(trading_env: TradingEnvironment) -> (r: &'static str)
    ensures
        r@ == base_url_of(trading_env),
        r@.len() > 0,
{
    proof {
        reveal_strlit("https://api.elections.kalshi.com/trade-api/v2");
        reveal_strlit("https://trading-api.kalshi.com/trade-api/v2");
        reveal_strlit("https://demo-api.kalshi.co/trade-api/v2");
    }
    match trading_env {
        TradingEnvironment::LiveMarketMode => "https://api.elections.kalshi.com/trade-api/v2",
        TradingEnvironment::LegacyLiveMarketMode => "https://trading-api.kalshi.com/trade-api/v2",
        TradingEnvironment::DemoMode => "https://demo-api.kalshi.co/trade-api/v2",
    }
}

/// Returns the streaming base URL of `trading_env`.
pub fn build_ws_url(trading_env: TradingEnvironment) -> (r: &'static str)
    ensures
        r@ == ws_url_of(trading_env),
        r@.len() > 0,
{
    proof {
        reveal_strlit("wss://api.elections.kalshi.com/trade-api/ws/v2");
        reveal_strlit("wss://trading-api.kalshi.com/v1/ws");
        reveal_strlit("wss://demo-api.kalshi.co/trade-api/ws/v2");
    }
    match trading_env {
        TradingEnvironment::LiveMarketMode => "wss://api.elections.kalshi.com/trade-api/ws/v2",
        TradingEnvironment::LegacyLiveMarketMode => "wss://trading-api.kalshi.com/v1/ws",
        TradingEnvironment::DemoMode => "wss://demo-api.kalshi.co/trade-api/ws/v2",
    }
}

} // verus!
