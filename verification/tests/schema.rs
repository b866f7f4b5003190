use std::collections::BTreeMap;

use gs_visualizer::publisher::{build_channel, channel_from_build};
use gs_visualizer::publisher::channel_request;
use gs_visualizer::schema::{schema_from_read, schema_source, SchemaData, SchemaSource};
use gs_visualizer::{BridgeError, ChannelConfig};

fn channel() -> ChannelConfig {
    ChannelConfig {
        tism_address: "imu".to_string(),
        topic: "/imu".to_string(),
        publish_hz: None,
        on_change_only: false,
        message_encoding: "flatbuffer".to_string(),
        schema_name: None,
        schema_encoding: None,
        schema_path: None,
        max_message_bytes: None,
        metadata: BTreeMap::new(),
    }
}

#[test]
fn no_schema_path_means_no_schema() {
    let mut c = channel();
    c.schema_name = Some("foxglove.Imu".to_string());
    assert!(matches!(schema_source(&c), Ok(None)));
}

#[test]
fn schema_path_without_name_is_an_error() {
    let mut c = channel();
    c.schema_path = Some("/x.bfbs".to_string());
    match schema_source(&c) {
        Err(BridgeError::MissingSchemaName { channel }) => assert_eq!(channel, "/imu"),
        _ => panic!("expected a missing schema name"),
    }
}

#[test]
fn schema_encoding_falls_back_to_message_encoding() {
    let mut c = channel();
    c.schema_path = Some("/x.bfbs".to_string());
    c.schema_name = Some("foxglove.Imu".to_string());
    let s = schema_source(&c).ok().flatten().expect("source");
    assert_eq!((s.name.as_str(), s.encoding.as_str(), s.path.as_str()), ("foxglove.Imu", "flatbuffer", "/x.bfbs"));
    c.schema_encoding = Some("bfbs".to_string());
    let s = schema_source(&c).ok().flatten().expect("source");
    assert_eq!(s.encoding, "bfbs");
}

#[test]
fn schema_is_built_from_the_file_bytes() {
    let c = channel();
    let source = SchemaSource { name: "foxglove.Imu".to_string(), encoding: "flatbuffer".to_string(), path: "/x.bfbs".to_string() };
    let schema = schema_from_read(&c, source, Ok(vec![1, 2, 3])).ok().expect("schema");
    assert_eq!(schema.name, "foxglove.Imu");
    assert_eq!(schema.encoding, "flatbuffer");
    assert_eq!(schema.data, vec![1, 2, 3]);
}

#[test]
fn schema_read_error_names_channel_and_path() {
    let c = channel();
    let source = SchemaSource { name: "n".to_string(), encoding: "e".to_string(), path: "/x.bfbs".to_string() };
    let err = schema_from_read(&c, source, Err(std::io::Error::from(std::io::ErrorKind::NotFound)));
    match err {
        Err(BridgeError::SchemaRead { channel, path, source }) => {
            assert_eq!(channel, "/imu");
            assert_eq!(path, "/x.bfbs");
            assert_eq!(source.kind(), std::io::ErrorKind::NotFound);
        }
        _ => panic!("expected a schema read error"),
    }
}

#[test]
fn builds_a_raw_channel() {
    let context = foxglove::Context::new();
    let mut c = channel();
    c.metadata.insert("frame".to_string(), "base".to_string());
    let schema = SchemaData { name: "foxglove.Imu".to_string(), encoding: "flatbuffer".to_string(), data: vec![1u8] };
    let registered = build_channel(&context, &c, Some(schema)).ok().expect("channel");
    let raw = registered.raw();
    assert_eq!(raw.topic(), "/imu");
    assert_eq!(raw.message_encoding(), "flatbuffer");
    assert_eq!(raw.metadata().get("frame").map(String::as_str), Some("base"));
    assert_eq!(raw.schema().map(|s| s.name.as_str()), Some("foxglove.Imu"));
    assert_eq!(raw.schema().map(|s| s.encoding.as_str()), Some("flatbuffer"));
    assert_eq!(raw.schema().map(|s| s.data.to_vec()), Some(vec![1u8]));
    let plain = build_channel(&context, &{ let mut d = channel(); d.topic = "/other".to_string(); d.message_encoding = "json".to_string(); d }, None).ok().expect("channel");
    assert!(plain.raw().schema().is_none());
}

#[test]
fn foxglove_errors_become_bridge_errors() {
    let err = channel_from_build(Err(foxglove::FoxgloveError::MessageEncodingRequired));
    assert!(matches!(err, Err(BridgeError::Foxglove(foxglove::FoxgloveError::MessageEncodingRequired))));
}

#[test]
fn no_schema_path_means_no_schema_file() {
    let c = channel();
    assert!(c.schema_file_present().is_none());
    let mut d = channel();
    d.schema_path = Some("/etc/passwd".to_string());
    assert_eq!(d.schema_file_present().map(|a| a.is_present()), Some(true));
    d.schema_path = Some("/definitely/not/here.bfbs".to_string());
    assert_eq!(d.schema_file_present().map(|a| a.is_present()), Some(false));
}

#[test]
fn request_carries_the_channel_fields() {
    let mut c = channel();
    c.metadata.insert("k".to_string(), "v".to_string());
    let schema = SchemaData { name: "n".to_string(), encoding: "e".to_string(), data: vec![9] };
    let req = channel_request(&c, Some(schema));
    assert_eq!(req.topic, "/imu");
    assert_eq!(req.message_encoding, "flatbuffer");
    assert_eq!(req.metadata.get("k").map(String::as_str), Some("v"));
    assert_eq!(req.schema.map(|s| (s.name, s.encoding, s.data)), Some(("n".to_string(), "e".to_string(), vec![9])));
}
