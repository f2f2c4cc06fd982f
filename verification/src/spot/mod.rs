//! The spot market.

pub mod account;
pub mod general;
pub mod market;
pub mod model;
pub mod user_stream;
