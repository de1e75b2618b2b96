//! Exchange configuration: credentials and endpoint selection.

use vstd::prelude::*;

verus! {

/// The configuration a user writes: exchange credentials and whether to
/// trade against the testnet.
#[derive(Clone, PartialEq, Debug)]
pub struct UserConfig {
    pub binance_api_key: String,
    pub binance_api_secret: String,
    pub use_testnet: bool,
}

impl UserConfig {
    /// The exchange configuration this user configuration denotes.
    pub fn to_config(&self) -> (r: ExchangeConfig)
        ensures
            r.binance_api_key@ == self.binance_api_key@,
            r.binance_api_secret@ == self.binance_api_secret@,
            r.use_testnet == self.use_testnet,
    {
        ExchangeConfig {
            binance_api_key: self.binance_api_key.clone(),
            binance_api_secret: self.binance_api_secret.clone(),
            use_testnet: self.use_testnet,
        }
    }
}

/// The resolved exchange configuration.
#[derive(Clone, PartialEq, Debug)]
pub struct ExchangeConfig {
    pub binance_api_key: String,
    pub binance_api_secret: String,
    pub use_testnet: bool,
}

impl ExchangeConfig {
    /// The websocket endpoint: testnet or mainnet.
    pub fn get_exchange_stream_url(use_testnet: bool) -> (r: String)
        ensures
            use_testnet ==> r@ == "wss://testnet.binance.vision/ws"@,
            !use_testnet ==> r@ == "wss://stream.binance.com:9443/ws"@,
    {
        if use_testnet {
            String::from_str("wss://testnet.binance.vision/ws")
        } else {
            String::from_str("wss://stream.binance.com:9443/ws")
        }
    }

    /// The REST endpoint: testnet or mainnet.
    pub fn get_exchange_url(use_testnet: bool) -> (r: String)
        ensures
            use_testnet ==> r@ == "https://testnet.binance.vision"@,
            !use_testnet ==> r@ == "https://api.binance.com"@,
    {
        if use_testnet {
            String::from_str("https://testnet.binance.vision")
        } else {
            String::from_str("https://api.binance.com")
        }
    }
}

/// Errors of configuration loading.
#[derive(Clone, Copy, PartialEq, Eq, Structural, Debug)]
pub enum ConfigError {
    /// The configuration file could not be opened.
    ReadError,
    /// The configuration could not be applied.
    SetError,
}

} // verus!
