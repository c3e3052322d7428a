//! Tests for the configuration defaults and the decimal parser.

use gdqbot::config::{parse_u32, resolve_threshold, BotConfig, DEFAULT_OFFLINE_THRESHOLD};
use gdqbot::state::MonitorState;

#[test]
fn test_new_defaults() {
    let cfg = BotConfig::new(None, None, None, None, None, None, None);
    assert_eq!(cfg.channel_name, "gamesdonequick");
    assert_eq!(cfg.offline_threshold, DEFAULT_OFFLINE_THRESHOLD);

    let state = MonitorState::new(cfg.offline_threshold);
    assert_eq!(state.current_game, "");
    assert_eq!(state.consecutive_offline_count, 0);
    assert_eq!(state.offline_threshold, DEFAULT_OFFLINE_THRESHOLD);

    let cfg2 = BotConfig::new(None, None, None, None, None, None, Some("5".to_string()));
    assert_eq!(cfg2.offline_threshold, 5);
}

#[test]
fn other_defaults_are_applied() {
    let cfg = BotConfig::new(None, None, None, None, None, None, None);
    assert_eq!(cfg.client_id, "");
    assert_eq!(cfg.client_secret, "");
    assert_eq!(cfg.kvstore_url, "http://kvstore.binarydream.fi:50051");
    assert_eq!(cfg.kvstore_token, "");
    assert_eq!(cfg.webhook_url, "");
}

#[test]
fn configured_values_win_over_defaults() {
    let cfg = BotConfig::new(
        Some("somechannel".to_string()),
        Some("id".to_string()),
        Some("secret".to_string()),
        Some("http://localhost:50051".to_string()),
        Some("token".to_string()),
        Some("http://hook".to_string()),
        Some("7".to_string()),
    );
    assert_eq!(cfg.channel_name, "somechannel");
    assert_eq!(cfg.client_id, "id");
    assert_eq!(cfg.client_secret, "secret");
    assert_eq!(cfg.kvstore_url, "http://localhost:50051");
    assert_eq!(cfg.kvstore_token, "token");
    assert_eq!(cfg.webhook_url, "http://hook");
    assert_eq!(cfg.offline_threshold, 7);
}

#[test]
fn parse_accepts_plain_numerals() {
    assert_eq!(parse_u32("0"), Some(0));
    assert_eq!(parse_u32("57"), Some(57));
    assert_eq!(parse_u32("007"), Some(7));
    assert_eq!(parse_u32("4294967295"), Some(u32::MAX));
}

#[test]
fn parse_accepts_a_leading_plus() {
    assert_eq!(parse_u32("+7"), Some(7));
    assert_eq!(parse_u32("+0"), Some(0));
}

#[test]
fn parse_rejects_malformed_input() {
    assert_eq!(parse_u32(""), None);
    assert_eq!(parse_u32("+"), None);
    assert_eq!(parse_u32("abc"), None);
    assert_eq!(parse_u32("12a"), None);
    assert_eq!(parse_u32("-3"), None);
    assert_eq!(parse_u32(" 3"), None);
}

#[test]
fn parse_rejects_values_past_u32() {
    assert_eq!(parse_u32("4294967296"), None);
    assert_eq!(parse_u32("99999999999999999999"), None);
}

#[test]
fn threshold_falls_back_to_default() {
    assert_eq!(resolve_threshold(None), DEFAULT_OFFLINE_THRESHOLD);
    assert_eq!(resolve_threshold(Some("abc")), DEFAULT_OFFLINE_THRESHOLD);
    assert_eq!(resolve_threshold(Some("0")), DEFAULT_OFFLINE_THRESHOLD);
    assert_eq!(resolve_threshold(Some("4294967296")), DEFAULT_OFFLINE_THRESHOLD);
}

#[test]
fn threshold_takes_a_positive_numeral() {
    assert_eq!(resolve_threshold(Some("1")), 1);
    assert_eq!(resolve_threshold(Some("10")), 10);
}

#[test]
fn threshold_takes_the_largest_u32() {
    assert_eq!(resolve_threshold(Some("4294967295")), u32::MAX);
}
