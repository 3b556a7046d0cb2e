//! A marketplace in which sponsors pay for the service calls of targeted users.

pub mod api_laws;
pub mod clock;
pub mod config;
pub mod endpoints;
pub mod error;
pub mod hash;
pub mod history;
pub mod http_rules;
pub mod ids;
pub mod json;
pub mod laws;
pub mod listing;
pub mod market_laws;
pub mod metrics;
pub mod onchain;
pub mod paid_runs;
pub mod payment_laws;
pub mod payments;
pub mod proxy;
pub mod record_laws;
pub mod registration;
pub mod reply_laws;
pub mod reports;
pub mod skills;
pub mod sponsored;
pub mod sponsored_create;
pub mod sponsored_run;
pub mod state;
pub mod testnet;
pub mod text;
pub mod text_laws;
pub mod types;
pub mod verification;
