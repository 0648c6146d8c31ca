//! Request authentication for a trading API client: endpoint resolution per
//! deployment environment, and RSA-PSS request signing headers.
pub mod decimal;
pub mod encoding;
pub mod environment;
pub mod params;
pub mod signing;

pub use environment::{build_base_url, build_ws_url, TradingEnvironment};
