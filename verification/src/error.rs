use vstd::prelude::*;

verus! {

/// `toml::de::Error`, carried opaquely inside [`BridgeError::Toml`].
#[verifier::external_type_specification]
#[verifier::external_body]
pub struct ExTomlError(toml::de::Error);

/// `std::io::Error`, carried opaquely inside the I/O variants of [`BridgeError`].
#[verifier::external_type_specification]
#[verifier::external_body]
pub struct ExIoError(std::io::Error);

/// `foxglove::FoxgloveError`, carried opaquely inside [`BridgeError::Foxglove`].
#[verifier::external_type_specification]
#[verifier::external_body]
pub struct ExFoxgloveError(foxglove::FoxgloveError);

/// `tokio::task::JoinError`, carried opaquely inside [`BridgeError::Join`].
#[verifier::external_type_specification]
#[verifier::external_body]
pub struct ExJoinError(tokio::task::JoinError);

/// Errors returned while loading configuration or running the bridge.
#[derive(Debug)]
pub enum BridgeError {
    Argument(String),
    Configuration(String),
    Toml(toml::de::Error),
    Io(std::io::Error),
    Foxglove(foxglove::FoxgloveError),
    Join(tokio::task::JoinError),
    MissingSchemaPath { channel: String },
    MissingSchemaName { channel: String },
    SchemaRead { channel: String, path: String, source: std::io::Error },
}

/// What contracts say of a [`BridgeError`]: its variant and its text fields.
pub enum ErrorView {
    Argument(Seq<char>),
    Configuration(Seq<char>),
    Toml,
    Io,
    Foxglove,
    Join,
    MissingSchemaPath(Seq<char>),
    MissingSchemaName(Seq<char>),
    SchemaRead(Seq<char>, Seq<char>),
}

impl View for BridgeError {
    type V = ErrorView;

    open spec fn view(&self) -> ErrorView {
        match self {
            BridgeError::Argument(m) => ErrorView::Argument(m@),
            BridgeError::Configuration(m) => ErrorView::Configuration(m@),
            BridgeError::Toml(_) => ErrorView::Toml,
            BridgeError::Io(_) => ErrorView::Io,
            BridgeError::Foxglove(_) => ErrorView::Foxglove,
            BridgeError::Join(_) => ErrorView::Join,
            BridgeError::MissingSchemaPath { channel } => ErrorView::MissingSchemaPath(channel@),
            BridgeError::MissingSchemaName { channel } => ErrorView::MissingSchemaName(channel@),
            BridgeError::SchemaRead { channel, path, .. } => ErrorView::SchemaRead(channel@, path@),
        }
    }
}

} // verus!
