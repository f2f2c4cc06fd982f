//! Client-side core for a centralized exchange's trading API: canonical
//! request signing, response classification, a time-bounded cache of the
//! exchange's trading rules, and a decoder for the real-time event feed.
//!
//! The crate performs no network I/O: callers send the requests that it
//! plans and hand it what comes back, as plain values (status codes, bytes,
//! frames). Of the outside world it reads the system's clock only, and
//! every function that does so has a twin that takes the time instead.

pub mod account;
pub mod api;
pub mod client;
pub mod config;
pub mod errors;
pub mod futures;
pub mod general;
pub mod json;
pub mod model;
pub mod session;
pub mod spot;
pub mod text;
pub mod util;
pub mod websockets;
