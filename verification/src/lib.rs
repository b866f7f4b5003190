//! Configuration, validation and per-channel decision logic of a bridge that
//! republishes TISM shared-memory payloads on Foxglove WebSocket channels.

pub mod bridge;
pub mod config;
pub mod config_laws;
pub mod error;
pub mod paths;
pub mod publisher;
pub mod rate;
pub mod runtime;
pub mod schema;
pub mod source_tism;
pub mod text;
pub mod worker;

pub use bridge::Bridge;
pub use config::{
    resolve_and_validate, BridgeConfig, BridgeOptions, ChannelConfig, ServerConfig,
};
pub use error::BridgeError;
pub use rate::Hertz;
pub use source_tism::read_once;
