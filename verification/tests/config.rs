use std::collections::BTreeMap;

use gs_visualizer::config::{
    default_host, default_message_backlog_size, default_message_encoding, default_open_retry_ms,
    default_port, default_publish_hz, default_server_name,
};
use gs_visualizer::{resolve_and_validate, Bridge, BridgeConfig, BridgeError, BridgeOptions, ChannelConfig, Hertz, ServerConfig};

fn hz(value: f64) -> Hertz {
    Hertz::new(value.to_bits(), value.to_string())
}

fn channel(address: &str, topic: &str) -> ChannelConfig {
    ChannelConfig {
        tism_address: address.to_string(),
        topic: topic.to_string(),
        publish_hz: None,
        on_change_only: false,
        message_encoding: default_message_encoding(),
        schema_name: None,
        schema_encoding: None,
        schema_path: None,
        max_message_bytes: None,
        metadata: BTreeMap::new(),
    }
}

fn json_channel(address: &str, topic: &str) -> ChannelConfig {
    let mut c = channel(address, topic);
    c.message_encoding = "json".to_string();
    c
}

fn config(channels: Vec<ChannelConfig>) -> BridgeConfig {
    BridgeConfig { server: ServerConfig::default(), bridge: BridgeOptions::default(), channels }
}

fn configuration_message(err: BridgeError) -> String {
    match err {
        BridgeError::Configuration(m) => m,
        _ => panic!("expected a configuration error"),
    }
}

/// A file that exists on every Unix system these tests run on.
fn existing_file() -> String {
    "/etc/passwd".to_string()
}

/// Reads the `[[channels]]` of TOML text into a configuration, with the
/// defaults the configuration file format gives absent keys.
fn from_toml(text: &str) -> BridgeConfig {
    let table: toml::Table = toml::from_str(text).expect("valid TOML");
    let text_of = |t: &toml::Table, key: &str| t.get(key).and_then(|v| v.as_str()).map(str::to_string);
    let channels = table
        .get("channels")
        .and_then(|v| v.as_array())
        .map(|items| {
            items
                .iter()
                .map(|item| {
                    let t = item.as_table().expect("channel table");
                    let mut c = channel(
                        &text_of(t, "tism_address").expect("tism_address"),
                        &text_of(t, "topic").expect("topic"),
                    );
                    if let Some(e) = text_of(t, "message_encoding") {
                        c.message_encoding = e;
                    }
                    c.schema_name = text_of(t, "schema_name");
                    c.schema_encoding = text_of(t, "schema_encoding");
                    c.schema_path = text_of(t, "schema_path");
                    c
                })
                .collect()
        })
        .unwrap_or_default();
    config(channels)
}

#[test]
fn rejects_flatbuffer_channel_without_schema_path() {
    let config = r#"
        [[channels]]
        tism_address = "imu"
        topic = "/imu"
        schema_name = "foxglove.Imu"
    "#;

    let err = resolve_and_validate(from_toml(config), None).err().expect("config should fail");
    assert!(matches!(err, BridgeError::MissingSchemaPath { .. }));
}

#[test]
fn resolves_relative_schema_paths() {
    let mut imu = channel("imu", "/imu");
    imu.schema_name = Some("foxglove.Imu".to_string());
    imu.schema_path = Some("passwd".to_string());

    let parsed = resolve_and_validate(config(vec![imu]), Some("/etc")).ok().expect("config should parse");
    let schema_path = parsed.channels[0].schema_path.as_ref().expect("resolved path");
    assert_eq!(schema_path.as_str(), std::path::Path::new("/etc").join("passwd").to_string_lossy().as_ref());
    assert_eq!(schema_path.as_str(), "/etc/passwd");
}

#[test]
fn keeps_absolute_schema_paths() {
    let file = existing_file();
    let mut imu = channel("imu", "/imu");
    imu.schema_name = Some("foxglove.Imu".to_string());
    imu.schema_path = Some(file.clone());
    let parsed = resolve_and_validate(config(vec![imu]), Some("/elsewhere")).ok().expect("config should parse");
    assert_eq!(parsed.channels[0].schema_path.as_deref(), Some(file.as_str()));
}

#[test]
fn rejects_empty_channel_list() {
    let err = config(vec![]).validate().err().expect("config should fail");
    assert_eq!(configuration_message(err), "at least one channel must be configured");
}

#[test]
fn rejects_blank_address_and_topic() {
    let err = config(vec![json_channel(" \t\u{3000}", "/imu")]).validate().err().expect("fails");
    assert_eq!(configuration_message(err), "channel `tism_address` cannot be empty");
    let err = config(vec![json_channel("imu", "\n")]).validate().err().expect("fails");
    assert_eq!(configuration_message(err), "channel `topic` cannot be empty");
    let err = config(vec![json_channel("imu", "")]).validate().err().expect("fails");
    assert_eq!(configuration_message(err), "channel `topic` cannot be empty");
}

#[test]
fn rejects_unusable_rates() {
    for (value, text) in [
        (f64::NAN, "NaN"),
        (0.0, "0"),
        (-0.0, "-0"),
        (-5.0, "-5"),
        (f64::INFINITY, "inf"),
    ] {
        let mut c = json_channel("imu", "/imu");
        c.publish_hz = Some(hz(value));
        let err = config(vec![c]).validate().err().expect("fails");
        assert_eq!(configuration_message(err), format!("channel `/imu` has invalid publish_hz `{text}`"));
    }
}

#[test]
fn rejects_unusable_default_rate() {
    let mut cfg = config(vec![json_channel("imu", "/imu")]);
    cfg.bridge.default_publish_hz = hz(-1.5);
    let err = cfg.validate().err().expect("fails");
    assert_eq!(configuration_message(err), "channel `/imu` has invalid publish_hz `-1.5`");
}

#[test]
fn usable_rate_matches_float_semantics() {
    for value in [
        f64::NAN,
        0.0,
        -0.0,
        f64::MIN_POSITIVE,
        5e-324,
        1.0,
        30.0,
        f64::MAX,
        f64::INFINITY,
        f64::NEG_INFINITY,
        -1.0,
    ] {
        assert_eq!(hz(value).is_usable(), value.is_finite() && value > 0.0, "{value}");
    }
}

#[test]
fn accepts_tiny_positive_rate() {
    let mut c = json_channel("imu", "/imu");
    c.publish_hz = Some(hz(5e-324));
    assert!(config(vec![c]).validate().is_ok());
}

#[test]
fn flatbuffer_channel_needs_schema_name_first() {
    let err = config(vec![channel("imu", "/imu")]).validate().err().expect("fails");
    match err {
        BridgeError::MissingSchemaName { channel } => assert_eq!(channel, "/imu"),
        _ => panic!("expected a missing schema name"),
    }
}

#[test]
fn schema_path_and_name_go_together() {
    let mut c = json_channel("imu", "/imu");
    c.schema_path = Some(existing_file());
    let err = config(vec![c]).validate().err().expect("fails");
    assert!(matches!(err, BridgeError::MissingSchemaName { .. }));

    let mut c = json_channel("imu", "/imu");
    c.schema_name = Some("foxglove.Imu".to_string());
    let err = config(vec![c]).validate().err().expect("fails");
    assert!(matches!(err, BridgeError::MissingSchemaPath { .. }));
}

#[test]
fn rejects_missing_schema_file() {
    let mut c = channel("imu", "/imu");
    c.schema_name = Some("foxglove.Imu".to_string());
    c.schema_path = Some("/definitely/not/here.bfbs".to_string());
    let err = config(vec![c]).validate().err().expect("fails");
    assert_eq!(
        configuration_message(err),
        "schema file for channel `/imu` does not exist: /definitely/not/here.bfbs"
    );
}

#[test]
fn validate_with_uses_given_file_answers() {
    let mut c = channel("imu", "/imu");
    c.schema_name = Some("foxglove.Imu".to_string());
    c.schema_path = Some("/definitely/not/here.bfbs".to_string());
    let ok = config(vec![c]).validate_with(&vec![true]).ok().expect("accepted");
    assert_eq!(ok.channels[0].schema_encoding.as_deref(), Some("flatbuffer"));
}

#[test]
fn fills_flatbuffer_schema_encoding_only_when_missing() {
    let file = existing_file();
    let mut a = channel("a", "/a");
    a.schema_name = Some("foxglove.Imu".to_string());
    a.schema_path = Some(file.clone());
    let mut b = channel("b", "/b");
    b.schema_name = Some("foxglove.Imu".to_string());
    b.schema_path = Some(file.clone());
    b.schema_encoding = Some("custom".to_string());
    let c = json_channel("c", "/c");
    let ok = config(vec![a, b, c]).validate().ok().expect("accepted");
    assert_eq!(ok.channels[0].schema_encoding.as_deref(), Some("flatbuffer"));
    assert_eq!(ok.channels[1].schema_encoding.as_deref(), Some("custom"));
    assert_eq!(ok.channels[2].schema_encoding, None);
}

#[test]
fn rejects_duplicate_topics_and_addresses() {
    let err = config(vec![json_channel("a", "/x"), json_channel("b", "/x")]).validate().err().expect("fails");
    assert_eq!(configuration_message(err), "duplicate channel topic `/x`");
    let err = config(vec![json_channel("a", "/x"), json_channel("a", "/y")]).validate().err().expect("fails");
    assert_eq!(configuration_message(err), "duplicate TISM address `a`");
    let err = config(vec![json_channel("a", "/x"), json_channel("a", "/x")]).validate().err().expect("fails");
    assert_eq!(configuration_message(err), "duplicate channel topic `/x`");
}

#[test]
fn earlier_channel_errors_come_first() {
    let err = config(vec![json_channel("a", "/x"), json_channel("a", " "), json_channel("a", "/x")])
        .validate()
        .err()
        .expect("fails");
    assert_eq!(configuration_message(err), "channel `topic` cannot be empty");
}

#[test]
fn validation_is_idempotent() {
    let file = existing_file();
    let mut a = channel("a", "/a");
    a.schema_name = Some("foxglove.Imu".to_string());
    a.schema_path = Some(file);
    let once = config(vec![a, json_channel("b", "/b")]).validate().ok().expect("accepted");
    let first = once.channels[0].schema_encoding.clone();
    let twice = once.validate().ok().expect("accepted again");
    assert_eq!(twice.channels[0].schema_encoding, first);
    assert_eq!(twice.channels.len(), 2);
}

#[test]
fn defaults_match_documented_values() {
    assert_eq!(default_host(), "127.0.0.1");
    assert_eq!(default_port(), 8765);
    assert_eq!(default_server_name(), "tism-bridge");
    assert_eq!(default_message_backlog_size(), 1024);
    assert_eq!(f64::from_bits(default_publish_hz().bits), 30.0);
    assert_eq!(default_publish_hz().text, 30.0f64.to_string());
    assert_eq!(default_open_retry_ms(), 250);
    assert_eq!(default_message_encoding(), "flatbuffer");
    let server = ServerConfig::default();
    assert_eq!((server.host.as_str(), server.port, server.name.as_str(), server.message_backlog_size), ("127.0.0.1", 8765, "tism-bridge", 1024));
    let options = BridgeOptions::default();
    assert_eq!(options.open_retry_ms, 250);
    assert_eq!(f64::from_bits(options.default_publish_hz.bits), 30.0);
}

#[test]
fn effective_rate_prefers_channel_rate() {
    let defaults = BridgeOptions::default();
    let mut c = json_channel("a", "/a");
    assert_eq!(f64::from_bits(c.effective_publish_hz(&defaults).bits), 30.0);
    c.publish_hz = Some(hz(100.0));
    assert_eq!(f64::from_bits(c.effective_publish_hz(&defaults).bits), 100.0);
    assert_eq!(c.effective_publish_hz(&defaults).text, "100");
}

#[test]
fn bridge_from_config_validates() {
    assert!(Bridge::from_config(config(vec![])).is_err());
    let bridge = Bridge::from_config(config(vec![json_channel("a", "/a")])).ok().expect("accepted");
    assert_eq!(bridge.config().channels.len(), 1);
    assert_eq!(bridge.into_config().channels[0].topic, "/a");
}

#[test]
fn resolves_relative_schema_paths_with_subdirectories() {
    let mut imu = channel("imu", "/imu");
    imu.schema_path = Some("schemas/Imu.bfbs".to_string());
    let mut abs = channel("gps", "/gps");
    abs.schema_path = Some("/opt/schemas/Gps.bfbs".to_string());
    let mut cfg = config(vec![imu, abs, channel("none", "/none")]);
    cfg.resolve_schema_paths("/srv/bridge/config");
    assert_eq!(cfg.channels[0].schema_path.as_deref(), Some("/srv/bridge/config/schemas/Imu.bfbs"));
    assert_eq!(cfg.channels[1].schema_path.as_deref(), Some("/opt/schemas/Gps.bfbs"));
    assert_eq!(cfg.channels[2].schema_path, None);
    cfg.channels[0].schema_path = Some("schemas/Imu.bfbs".to_string());
    cfg.resolve_schema_paths("/srv/bridge/config/");
    assert_eq!(cfg.channels[0].schema_path.as_deref(), Some("/srv/bridge/config/schemas/Imu.bfbs"));
}
