//! Settings and the texts that they come from.

use payloadexchange_mvp::config::{read_env_u64, read_port, AppConfig, EnvVars};
use payloadexchange_mvp::text::{decimal_text, is_blank, parse_unsigned, same_text, trim};

fn set(value: &str) -> Option<String> {
    Some(value.to_string())
}

#[test]
fn settings_have_defaults() {
    let config = AppConfig::from_env(EnvVars {
        sponsored_api_create_price_cents: None,
        sponsored_api_timeout_secs: None,
        testnet_rpc_url: None,
        testnet_min_confirmations: None,
    });
    assert_eq!(config.sponsored_api_create_price_cents, 25);
    assert_eq!(config.sponsored_api_timeout_secs, 12);
    assert_eq!(config.testnet_rpc_url, None);
    assert_eq!(config.testnet_min_confirmations, 1);
}

#[test]
fn settings_are_read() {
    let config = AppConfig::from_env(EnvVars {
        sponsored_api_create_price_cents: set("0"),
        sponsored_api_timeout_secs: set("+30"),
        testnet_rpc_url: set("http://node"),
        testnet_min_confirmations: set("six"),
    });
    assert_eq!(config.sponsored_api_create_price_cents, 0);
    assert_eq!(config.sponsored_api_timeout_secs, 30);
    assert_eq!(config.testnet_rpc_url, set("http://node"));
    assert_eq!(config.testnet_min_confirmations, 1);
}

#[test]
fn numbers_that_do_not_fit_fall_back() {
    assert_eq!(read_env_u64(&set("18446744073709551615"), 7), u64::MAX);
    assert_eq!(read_env_u64(&set("18446744073709551616"), 7), 7);
    assert_eq!(read_env_u64(&set(" 5"), 7), 7);
    assert_eq!(read_env_u64(&set("-5"), 7), 7);
    assert_eq!(read_env_u64(&set(""), 7), 7);
    assert_eq!(read_port(&set("65535")), 65535);
    assert_eq!(read_port(&set("65536")), 3000);
    assert_eq!(read_port(&set("8080")), 8080);
    assert_eq!(read_port(&None), 3000);
}

#[test]
fn texts_are_trimmed_as_std_does() {
    for text in ["", "  ", "a", " a b\t", "\u{3000}x\u{85}", "\u{200b}y", "\r\nz"] {
        assert_eq!(trim(text), text.trim());
        assert_eq!(is_blank(text), text.trim().is_empty());
    }
    assert!(same_text("a", "a"));
    assert!(!same_text("a", "b"));
}

#[test]
fn numbers_are_read_and_printed_as_std_does() {
    for n in [0, 7, 10, 99, 1000, u64::MAX] {
        assert_eq!(decimal_text(n), n.to_string());
        assert_eq!(parse_unsigned(&n.to_string(), 10, u64::MAX), Some(n));
    }
    assert_eq!(parse_unsigned("zz", 36, u64::MAX), Some(35 * 36 + 35));
    assert_eq!(parse_unsigned("12", 10, 11), None);
}
