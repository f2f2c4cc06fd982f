//! The endpoints of an account on the spot market.

pub use crate::account::build_order;
pub use crate::account::build_quote_quantity_order;
pub use crate::account::Account;
pub use crate::account::OrderQuoteQuantityRequest;
pub use crate::account::OrderRequest;
pub use crate::account::OrderSide;
pub use crate::account::OrderType;
pub use crate::account::TimeInForce;
