//! The settings of the server, as its environment gives them.

use vstd::prelude::*;

use crate::text::{parse_unsigned, unsigned_value};
use crate::types::{
    DEFAULT_SPONSORED_API_CREATE_PRICE_CENTS, DEFAULT_SPONSORED_API_TIMEOUT_SECS,
    DEFAULT_TESTNET_MIN_CONFIRMATIONS,
};

verus! {

pub const SPONSORED_API_CREATE_PRICE_CENTS_VAR: &'static str = "SPONSORED_API_CREATE_PRICE_CENTS";

pub const SPONSORED_API_TIMEOUT_SECS_VAR: &'static str = "SPONSORED_API_TIMEOUT_SECS";

pub const TESTNET_RPC_URL_VAR: &'static str = "TESTNET_RPC_URL";

pub const TESTNET_MIN_CONFIRMATIONS_VAR: &'static str = "TESTNET_MIN_CONFIRMATIONS";

/// The port that the server listens on where no other is set.
pub const DEFAULT_PORT: u16 = 3000;

/// The values of the environment variables that hold settings, where they are set.
#[derive(Debug)]
pub struct EnvVars {
    pub sponsored_api_create_price_cents: Option<String>,
    pub sponsored_api_timeout_secs: Option<String>,
    pub testnet_rpc_url: Option<String>,
    pub testnet_min_confirmations: Option<String>,
}

#[derive(Debug, Clone)]
pub struct AppConfig {
    pub sponsored_api_create_price_cents: u64,
    pub sponsored_api_timeout_secs: u64,
    pub testnet_rpc_url: Option<String>,
    pub testnet_min_confirmations: u64,
}

/// The number that a setting stands for: the default where it is not set, or set to a text that is
/// no number up to `max`.
pub open spec fn setting(value: Option<String>, default: nat, max: nat) -> nat {
    match value {
        Some(text) => match unsigned_value(text@, 10, max) {
            Some(n) => n,
            None => default,
        },
        None => default,
    }
}

/// Reads a setting that is a number.
pub fn read_env_u64(value: &Option<String>, default: u64) -> (r: u64)
    ensures
        r == setting(*value, default as nat, u64::MAX as nat),
{
    match value {
        Some(text) => match parse_unsigned(text.as_str(), 10, u64::MAX) {
            Some(n) => n,
            None => default,
        },
        None => default,
    }
}

/// Reads the port that the server listens on.
pub fn read_port(value: &Option<String>) -> (r: u16)
    ensures
        r == setting(*value, DEFAULT_PORT as nat, u16::MAX as nat),
        *value is None ==> r == 3000,
{
    match value {
        Some(text) => match parse_unsigned(text.as_str(), 10, u16::MAX as u64) {
            Some(n) => n as u16,
            None => DEFAULT_PORT,
        },
        None => DEFAULT_PORT,
    }
}

impl AppConfig {
    /// The settings that the environment gives, with a default for each number that it does not.
    pub fn from_env(env: EnvVars) -> (r: AppConfig)
        ensures
            r.sponsored_api_create_price_cents == setting(
                env.sponsored_api_create_price_cents,
                DEFAULT_SPONSORED_API_CREATE_PRICE_CENTS as nat,
                u64::MAX as nat,
            ),
            r.sponsored_api_timeout_secs == setting(
                env.sponsored_api_timeout_secs,
                DEFAULT_SPONSORED_API_TIMEOUT_SECS as nat,
                u64::MAX as nat,
            ),
            r.testnet_rpc_url == env.testnet_rpc_url,
            r.testnet_min_confirmations == setting(
                env.testnet_min_confirmations,
                DEFAULT_TESTNET_MIN_CONFIRMATIONS as nat,
                u64::MAX as nat,
            ),
            env.sponsored_api_create_price_cents is None ==> r.sponsored_api_create_price_cents
                == 25,
            env.sponsored_api_timeout_secs is None ==> r.sponsored_api_timeout_secs == 12,
            env.testnet_min_confirmations is None ==> r.testnet_min_confirmations == 1,
    {
        AppConfig {
            sponsored_api_create_price_cents: read_env_u64(
                &env.sponsored_api_create_price_cents,
                DEFAULT_SPONSORED_API_CREATE_PRICE_CENTS,
            ),
            sponsored_api_timeout_secs: read_env_u64(
                &env.sponsored_api_timeout_secs,
                DEFAULT_SPONSORED_API_TIMEOUT_SECS,
            ),
            testnet_rpc_url: env.testnet_rpc_url,
            testnet_min_confirmations: read_env_u64(
                &env.testnet_min_confirmations,
                DEFAULT_TESTNET_MIN_CONFIRMATIONS,
            ),
        }
    }
}

} // verus!
