//! Connectivity and the trading rules of the spot market.

pub use crate::general::CACHE_TTL;
pub use crate::general::Cache;
pub use crate::general::General;
