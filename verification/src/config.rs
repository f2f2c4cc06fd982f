//! Where the exchange is reached, and how much clock skew it is asked to
//! tolerate.

use vstd::prelude::*;
use vstd::string::*;

verus! {

/// The hosts of the exchange and the tolerance for clock skew.
#[derive(Clone, Debug, PartialEq, Eq)]
pub struct Config {
    pub rest_api_endpoint: String,
    pub ws_endpoint: String,
    pub futures_rest_api_endpoint: String,
    pub futures_ws_endpoint: String,
    /// Milliseconds by which a request's timestamp may differ from the
    /// exchange's clock; zero sends no tolerance.
    pub recv_window: u64,
}

impl Default for Config {
    /// The production hosts, with a tolerance of five seconds.
    fn default() -> (config: Config)
        ensures
            config.rest_api_endpoint@ == "https://api.binance.com"@,
            config.ws_endpoint@ == "wss://stream.binance.com:9443/ws"@,
            config.futures_rest_api_endpoint@ == "https://fapi.binance.com"@,
            config.futures_ws_endpoint@ == "wss://fstream.binance.com/ws"@,
            config.recv_window == 5000,
    {
        Config {
            rest_api_endpoint: String::from_str("https://api.binance.com"),
            ws_endpoint: String::from_str("wss://stream.binance.com:9443/ws"),
            futures_rest_api_endpoint: String::from_str("https://fapi.binance.com"),
            futures_ws_endpoint: String::from_str("wss://fstream.binance.com/ws"),
            recv_window: 5000,
        }
    }
}

impl Config {
    /// The hosts of the test network.
    pub fn testnet() -> (config: Config)
        ensures
            config.rest_api_endpoint@ == "https://testnet.binance.vision"@,
            config.ws_endpoint@ == "wss://testnet.binance.vision/ws"@,
            config.futures_rest_api_endpoint@ == "https://testnet.binancefuture.com"@,
            config.futures_ws_endpoint@ == "wss://stream.binancefuture.com/ws"@,
            config.recv_window == 5000,
    {
        Config {
            rest_api_endpoint: String::from_str("https://testnet.binance.vision"),
            ws_endpoint: String::from_str("wss://testnet.binance.vision/ws"),
            futures_rest_api_endpoint: String::from_str("https://testnet.binancefuture.com"),
            futures_ws_endpoint: String::from_str("wss://stream.binancefuture.com/ws"),
            recv_window: 5000,
        }
    }

    pub fn set_rest_api_endpoint(self, rest_api_endpoint: String) -> (config: Config)
        ensures
            config == (Config { rest_api_endpoint, ..self }),
    {
        Config { rest_api_endpoint, ..self }
    }

    pub fn set_ws_endpoint(self, ws_endpoint: String) -> (config: Config)
        ensures
            config == (Config { ws_endpoint, ..self }),
    {
        Config { ws_endpoint, ..self }
    }

    pub fn set_futures_rest_api_endpoint(self, futures_rest_api_endpoint: String) -> (config:
        Config)
        ensures
            config == (Config { futures_rest_api_endpoint, ..self }),
    {
        Config { futures_rest_api_endpoint, ..self }
    }

    pub fn set_futures_ws_endpoint(self, futures_ws_endpoint: String) -> (config: Config)
        ensures
            config == (Config { futures_ws_endpoint, ..self }),
    {
        Config { futures_ws_endpoint, ..self }
    }

    pub fn set_recv_window(self, recv_window: u64) -> (config: Config)
        ensures
            config == (Config { recv_window, ..self }),
    {
        Config { recv_window, ..self }
    }
}

} // verus!
