//! The futures markets.

pub mod general;
pub mod market;
pub mod model;
pub mod user_stream;
pub mod websockets;
