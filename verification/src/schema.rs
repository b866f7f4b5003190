use vstd::prelude::*;

use crate::config::{opt_text, ChannelConfig};
use crate::error::{BridgeError, ErrorView};

verus! {

/// Where a channel's schema comes from and how it is advertised.
pub struct SchemaSource {
    pub name: String,
    pub encoding: String,
    pub path: String,
}

pub struct SourceView {
    pub name: Seq<char>,
    pub encoding: Seq<char>,
    pub path: Seq<char>,
}

impl View for SchemaSource {
    type V = SourceView;

    open spec fn view(&self) -> SourceView {
        SourceView { name: self.name@, encoding: self.encoding@, path: self.path@ }
    }
}

/// The schema a channel asks for: none without a schema path; otherwise its
/// schema name, its schema encoding (or else its message encoding) and the
/// path. A schema path without a schema name is an error.
pub open spec fn schema_source_spec(
    topic: Seq<char>,
    schema_path: Option<Seq<char>>,
    schema_name: Option<Seq<char>>,
    schema_encoding: Option<Seq<char>>,
    message_encoding: Seq<char>,
) -> Result<Option<SourceView>, ErrorView> {
    match schema_path {
        None => Ok(None),
        Some(path) => match schema_name {
            None => Err(ErrorView::MissingSchemaName(topic)),
            Some(name) => Ok(
                Some(
                    SourceView {
                        name,
                        encoding: match schema_encoding {
                            Some(e) => e,
                            None => message_encoding,
                        },
                        path,
                    },
                ),
            ),
        },
    }
}

pub open spec fn source_outcome(r: Result<Option<SchemaSource>, BridgeError>) -> Result<Option<SourceView>, ErrorView> {
    match r {
        Ok(Some(s)) => Ok(Some(s@)),
        Ok(None) => Ok(None),
        Err(e) => Err(e@),
    }
}

fn text_of(s: &String) -> (r: String)
    ensures
        r@ == s@,
{
    s.clone()
}

/// The schema `channel` asks for, before its file is read.
pub fn schema_source(channel: &ChannelConfig) -> (res: Result<Option<SchemaSource>, BridgeError>)
    ensures
        source_outcome(res) == schema_source_spec(
            channel.topic@,
            opt_text(channel.schema_path),
            opt_text(channel.schema_name),
            opt_text(channel.schema_encoding),
            channel.message_encoding@,
        ),
{
    let path = match &channel.schema_path {
        None => return Ok(None),
        Some(p) => text_of(p),
    };
    let name = match &channel.schema_name {
        None => return Err(BridgeError::MissingSchemaName { channel: text_of(&channel.topic) }),
        Some(n) => text_of(n),
    };
    let encoding = match &channel.schema_encoding {
        Some(e) => text_of(e),
        None => text_of(&channel.message_encoding),
    };
    Ok(Some(SchemaSource { name, encoding, path }))
}

/// A schema as a channel advertises it: its name, the encoding of its data,
/// and the data, the bytes of the schema file.
pub struct SchemaData {
    pub name: String,
    pub encoding: String,
    pub data: Vec<u8>,
}

pub struct SchemaDataView {
    pub name: Seq<char>,
    pub encoding: Seq<char>,
    pub data: Seq<u8>,
}

impl View for SchemaData {
    type V = SchemaDataView;

    open spec fn view(&self) -> SchemaDataView {
        SchemaDataView { name: self.name@, encoding: self.encoding@, data: self.data@ }
    }
}

/// Builds the schema of `channel` from `source` and what reading the schema
/// file gave: the file's bytes with the source's name and encoding make the
/// schema, and a read error becomes [`BridgeError::SchemaRead`] naming the
/// channel's topic and the path, with the read's own error as its source.
pub fn schema_from_read(
    channel: &ChannelConfig,
    source: SchemaSource,
    read: Result<Vec<u8>, std::io::Error>,
) -> (res: Result<SchemaData, BridgeError>)
    ensures
        read is Ok <==> res is Ok,
        read matches Ok(data) ==> res matches Ok(s) && s@ == (SchemaDataView {
            name: source.name@,
            encoding: source.encoding@,
            data: data@,
        }),
        read matches Err(e) ==> res matches Err(BridgeError::SchemaRead { channel: topic, path, source: err })
            && topic@ == channel.topic@ && path@ == source.path@ && err == e,
{
    match read {
        Ok(data) => Ok(SchemaData { name: source.name, encoding: source.encoding, data }),
        Err(e) => Err(BridgeError::SchemaRead { channel: text_of(&channel.topic), path: source.path, source: e }),
    }
}

/// A channel with a schema name and a schema path describes its schema by
/// that name and path, in its own schema encoding when it sets one and
/// otherwise in its message encoding, whatever that encoding is.
pub proof fn law_schema_encoding_falls_back(
    topic: Seq<char>,
    path: Seq<char>,
    name: Seq<char>,
    schema_encoding: Option<Seq<char>>,
    message_encoding: Seq<char>,
)
    ensures
        schema_source_spec(topic, Some(path), Some(name), schema_encoding, message_encoding) == Ok::<
            Option<SourceView>,
            ErrorView,
        >(
            Some(
                SourceView {
                    name,
                    encoding: match schema_encoding {
                        Some(e) => e,
                        None => message_encoding,
                    },
                    path,
                },
            ),
        ),
{
}

/// Without a schema path a channel has no schema, and with a path but no
/// name it is an error naming the channel's topic.
pub proof fn law_schema_needs_path_then_name(
    topic: Seq<char>,
    path: Option<Seq<char>>,
    schema_encoding: Option<Seq<char>>,
    message_encoding: Seq<char>,
    name: Option<Seq<char>>,
)
    ensures
        path is None ==> schema_source_spec(topic, path, name, schema_encoding, message_encoding) == Ok::<
            Option<SourceView>,
            ErrorView,
        >(None),
        path is Some && name is None ==> schema_source_spec(topic, path, name, schema_encoding, message_encoding)
            == Err::<Option<SourceView>, ErrorView>(ErrorView::MissingSchemaName(topic)),
{
}

} // verus!
