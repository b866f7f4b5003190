use std::collections::BTreeMap;
use std::sync::Arc;
use vstd::prelude::*;

use crate::config::ChannelConfig;
use crate::error::{BridgeError, ErrorView};
use crate::schema::{SchemaData, SchemaDataView};

verus! {

/// `foxglove::Context`, the registry of channels and sinks.
#[verifier::external_type_specification]
#[verifier::external_body]
pub struct ExContext(foxglove::Context);

/// `foxglove::RawChannel`, a channel that logs pre-serialized messages.
#[verifier::external_type_specification]
#[verifier::external_body]
pub struct ExRawChannel(foxglove::RawChannel);

/// Everything a raw Foxglove channel is registered with.
pub struct ChannelRequest {
    pub topic: String,
    pub message_encoding: String,
    pub metadata: BTreeMap<String, String>,
    pub schema: Option<SchemaData>,
}

pub struct RequestView {
    pub topic: Seq<char>,
    pub message_encoding: Seq<char>,
    pub metadata: Map<String, String>,
    pub schema: Option<SchemaDataView>,
}

pub open spec fn opt_schema(o: Option<SchemaData>) -> Option<SchemaDataView> {
    match o {
        Some(s) => Some(s@),
        None => None,
    }
}

impl View for ChannelRequest {
    type V = RequestView;

    open spec fn view(&self) -> RequestView {
        RequestView {
            topic: self.topic@,
            message_encoding: self.message_encoding@,
            metadata: self.metadata@,
            schema: opt_schema(self.schema),
        }
    }
}

/// The request that registers `channel`: its topic, its message encoding,
/// its metadata and `schema`.
pub fn channel_request(channel: &ChannelConfig, schema: Option<SchemaData>) -> (req: ChannelRequest)
    ensures
        req@ == (RequestView {
            topic: channel.topic@,
            message_encoding: channel.message_encoding@,
            metadata: channel.metadata@,
            schema: opt_schema(schema),
        }),
{
    ChannelRequest {
        topic: channel.topic.clone(),
        message_encoding: channel.message_encoding.clone(),
        metadata: channel.metadata.clone(),
        schema,
    }
}

/// A raw Foxglove channel together with the request it was registered
/// with. Only registration makes one.
pub struct RegisteredChannel {
    raw: Arc<foxglove::RawChannel>,
    request: Ghost<RequestView>,
}

impl RegisteredChannel {
    /// The request this channel was registered with.
    pub closed spec fn request(&self) -> RequestView {
        self.request@
    }

    /// The registered Foxglove channel.
    pub fn raw(&self) -> &Arc<foxglove::RawChannel> {
        &self.raw
    }
}

/// Registers a raw channel in `context`: converts `request` into a
/// `foxglove::ChannelBuilder` (`Context::channel_builder` with the topic,
/// then `message_encoding`, `metadata` and `schema`, the schema made by
/// `foxglove::Schema::new` from the request's name, encoding and data) and
/// calls `ChannelBuilder::build_raw`. The channel it returns is registered
/// with exactly that topic, encoding, metadata and schema, and is recorded
/// with the request. `build_raw` fails only when no message encoding was set
/// (foxglove 0.21.0, `channel_builder.rs`), and the request always sets one,
/// so it succeeds.
#[verifier::external_body]
fn register_channel(
    context: &Arc<foxglove::Context>,
    request: ChannelRequest,
) -> (res: Result<RegisteredChannel, foxglove::FoxgloveError>)
    ensures
        res is Ok,
        res is Ok ==> res->Ok_0.request() == request@,
{
    let recorded = Ghost(request@);
    context
        .channel_builder(request.topic)
        .message_encoding(request.message_encoding)
        .metadata(request.metadata)
        .schema(request.schema.map(|s| foxglove::Schema::new(s.name, s.encoding, s.data)))
        .build_raw()
        .map(|raw| RegisteredChannel { raw, request: recorded })
}

/// Registers `channel`'s raw Foxglove channel in `context` with its topic,
/// its message encoding, its metadata and `schema`. Registration succeeds.
pub fn build_channel(
    context: &Arc<foxglove::Context>,
    channel: &ChannelConfig,
    schema: Option<SchemaData>,
) -> (res: Result<RegisteredChannel, BridgeError>)
    ensures
        res matches Ok(ch) && ch.request() == (RequestView {
            topic: channel.topic@,
            message_encoding: channel.message_encoding@,
            metadata: channel.metadata@,
            schema: opt_schema(schema),
        }),
{
    let request = channel_request(channel, schema);
    channel_from_build(register_channel(context, request))
}

/// What registering a channel gives, from what Foxglove's `build_raw`
/// returned: the channel itself, or its error as [`BridgeError::Foxglove`].
pub fn channel_from_build(built: Result<RegisteredChannel, foxglove::FoxgloveError>) -> (res: Result<
    RegisteredChannel,
    BridgeError,
>)
    ensures
        built is Ok <==> res is Ok,
        built matches Ok(ch) ==> res == Ok::<RegisteredChannel, BridgeError>(ch),
        res matches Err(e) ==> e@ == ErrorView::Foxglove,
{
    match built {
        Ok(ch) => Ok(ch),
        Err(e) => Err(BridgeError::Foxglove(e)),
    }
}

} // verus!
