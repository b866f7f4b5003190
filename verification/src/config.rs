use std::collections::BTreeMap;
use vstd::prelude::*;
use vstd::string::StringExecFns;

use crate::error::{BridgeError, ErrorView};
use crate::paths::{is_relative_path, join_paths, joined_path, path_is_absolute, path_is_file, FileAnswer};
use crate::rate::{rate_is_usable, Hertz};
use crate::text::{is_blank, trims_to_empty};

verus! {

/// The WebSocket server's address, advertised name and message backlog.
#[derive(Debug)]
pub struct ServerConfig {
    pub host: String,
    pub port: u16,
    pub name: String,
    pub message_backlog_size: usize,
}

/// Bridge-wide defaults: the publish rate of channels that set none, and the
/// delay before a missing or failing source is opened again.
#[derive(Debug)]
pub struct BridgeOptions {
    pub default_publish_hz: Hertz,
    pub open_retry_ms: u64,
}

/// One TISM shared-memory address mapped to one Foxglove topic.
#[derive(Debug)]
pub struct ChannelConfig {
    pub tism_address: String,
    pub topic: String,
    pub publish_hz: Option<Hertz>,
    pub on_change_only: bool,
    pub message_encoding: String,
    pub schema_name: Option<String>,
    pub schema_encoding: Option<String>,
    pub schema_path: Option<String>,
    pub max_message_bytes: Option<usize>,
    pub metadata: BTreeMap<String, String>,
}

/// A whole configuration: server, defaults and channels.
#[derive(Debug)]
pub struct BridgeConfig {
    pub server: ServerConfig,
    pub bridge: BridgeOptions,
    pub channels: Vec<ChannelConfig>,
}

pub struct ServerView {
    pub host: Seq<char>,
    pub port: u16,
    pub name: Seq<char>,
    pub message_backlog_size: usize,
}

pub struct OptionsView {
    pub default_publish_hz: (u64, Seq<char>),
    pub open_retry_ms: u64,
}

pub struct ChannelView {
    pub tism_address: Seq<char>,
    pub topic: Seq<char>,
    pub publish_hz: Option<(u64, Seq<char>)>,
    pub on_change_only: bool,
    pub message_encoding: Seq<char>,
    pub schema_name: Option<Seq<char>>,
    pub schema_encoding: Option<Seq<char>>,
    pub schema_path: Option<Seq<char>>,
    pub max_message_bytes: Option<usize>,
    pub metadata: Map<String, String>,
}

pub struct ConfigView {
    pub server: ServerView,
    pub bridge: OptionsView,
    pub channels: Seq<ChannelView>,
}

pub open spec fn opt_text(o: Option<String>) -> Option<Seq<char>> {
    match o {
        Some(s) => Some(s@),
        None => None,
    }
}

pub open spec fn opt_rate(o: Option<Hertz>) -> Option<(u64, Seq<char>)> {
    match o {
        Some(h) => Some(h@),
        None => None,
    }
}

impl View for ServerConfig {
    type V = ServerView;

    open spec fn view(&self) -> ServerView {
        ServerView {
            host: self.host@,
            port: self.port,
            name: self.name@,
            message_backlog_size: self.message_backlog_size,
        }
    }
}

impl View for BridgeOptions {
    type V = OptionsView;

    open spec fn view(&self) -> OptionsView {
        OptionsView { default_publish_hz: self.default_publish_hz@, open_retry_ms: self.open_retry_ms }
    }
}

impl View for ChannelConfig {
    type V = ChannelView;

    open spec fn view(&self) -> ChannelView {
        ChannelView {
            tism_address: self.tism_address@,
            topic: self.topic@,
            publish_hz: opt_rate(self.publish_hz),
            on_change_only: self.on_change_only,
            message_encoding: self.message_encoding@,
            schema_name: opt_text(self.schema_name),
            schema_encoding: opt_text(self.schema_encoding),
            schema_path: opt_text(self.schema_path),
            max_message_bytes: self.max_message_bytes,
            metadata: self.metadata@,
        }
    }
}

pub open spec fn channel_views(chs: Seq<ChannelConfig>) -> Seq<ChannelView> {
    chs.map_values(|c: ChannelConfig| c@)
}

impl View for BridgeConfig {
    type V = ConfigView;

    open spec fn view(&self) -> ConfigView {
        ConfigView { server: self.server@, bridge: self.bridge@, channels: channel_views(self.channels@) }
    }
}

fn copy_opt_text(o: &Option<String>) -> (r: Option<String>)
    ensures
        opt_text(r) == opt_text(*o),
{
    match o {
        Some(s) => Some(s.clone()),
        None => None,
    }
}

impl Clone for ServerConfig {
    fn clone(&self) -> (r: Self)
        ensures
            r@ == self@,
    {
        ServerConfig {
            host: self.host.clone(),
            port: self.port,
            name: self.name.clone(),
            message_backlog_size: self.message_backlog_size,
        }
    }
}

impl Clone for BridgeOptions {
    fn clone(&self) -> (r: Self)
        ensures
            r@ == self@,
    {
        BridgeOptions { default_publish_hz: self.default_publish_hz.clone(), open_retry_ms: self.open_retry_ms }
    }
}

impl Clone for ChannelConfig {
    fn clone(&self) -> (r: Self)
        ensures
            r@ == self@,
    {
        let publish_hz = match &self.publish_hz {
            Some(h) => Some(h.clone()),
            None => None,
        };
        ChannelConfig {
            tism_address: self.tism_address.clone(),
            topic: self.topic.clone(),
            publish_hz,
            on_change_only: self.on_change_only,
            message_encoding: self.message_encoding.clone(),
            schema_name: copy_opt_text(&self.schema_name),
            schema_encoding: copy_opt_text(&self.schema_encoding),
            schema_path: copy_opt_text(&self.schema_path),
            max_message_bytes: self.max_message_bytes,
            metadata: self.metadata.clone(),
        }
    }
}

impl Clone for BridgeConfig {
    fn clone(&self) -> (r: Self)
        ensures
            r@ == self@,
    {
        let mut channels: Vec<ChannelConfig> = Vec::new();
        let n = self.channels.len();
        for i in 0..n
            invariant
                n == self.channels.len(),
                channels.len() == i,
                forall|j: int| 0 <= j < i ==> #[trigger] channels@[j]@ == self.channels@[j]@,
        {
            channels.push(self.channels[i].clone());
        }
        proof {
            assert(channel_views(channels@) =~= channel_views(self.channels@));
        }
        BridgeConfig { server: self.server.clone(), bridge: self.bridge.clone(), channels }
    }
}

// ---------------------------------------------------------------------------
// Defaults
// ---------------------------------------------------------------------------

pub fn default_host() -> (s: String)
    ensures
        s@ == "127.0.0.1"@,
{
    String::from_str("127.0.0.1")
}

pub fn default_port() -> (p: u16)
    ensures
        p == 8765,
{
    8765
}

pub fn default_server_name() -> (s: String)
    ensures
        s@ == "tism-bridge"@,
{
    String::from_str("tism-bridge")
}

pub fn default_message_backlog_size() -> (n: usize)
    ensures
        n == 1024,
{
    1024
}

/// The bit pattern of the binary64 value 30.0.
pub const THIRTY_HERTZ_BITS: u64 = 0x403E_0000_0000_0000;

/// Thirty hertz.
pub fn default_publish_hz() -> (h: Hertz)
    ensures
        h.bits == THIRTY_HERTZ_BITS,
        h.text@ == "30"@,
{
    Hertz::new(THIRTY_HERTZ_BITS, String::from_str("30"))
}

pub fn default_open_retry_ms() -> (ms: u64)
    ensures
        ms == 250,
{
    250
}

pub fn default_message_encoding() -> (s: String)
    ensures
        s@ == "flatbuffer"@,
{
    String::from_str("flatbuffer")
}

impl Default for ServerConfig {
    fn default() -> (c: Self)
        ensures
            c.host@ == "127.0.0.1"@,
            c.port == 8765,
            c.name@ == "tism-bridge"@,
            c.message_backlog_size == 1024,
    {
        ServerConfig {
            host: default_host(),
            port: default_port(),
            name: default_server_name(),
            message_backlog_size: default_message_backlog_size(),
        }
    }
}

impl Default for BridgeOptions {
    fn default() -> (o: Self)
        ensures
            o.default_publish_hz.bits == THIRTY_HERTZ_BITS,
            o.default_publish_hz.text@ == "30"@,
            o.open_retry_ms == 250,
    {
        BridgeOptions { default_publish_hz: default_publish_hz(), open_retry_ms: default_open_retry_ms() }
    }
}

// ---------------------------------------------------------------------------
// Channel normalisation
// ---------------------------------------------------------------------------

/// The rate a channel publishes at: its own, or the bridge default.
pub open spec fn effective_rate(c: ChannelView, d: OptionsView) -> (u64, Seq<char>) {
    match c.publish_hz {
        Some(h) => h,
        None => d.default_publish_hz,
    }
}

pub open spec fn is_flatbuffer(c: ChannelView) -> bool {
    c.message_encoding == "flatbuffer"@
}

pub open spec fn invalid_rate_message(topic: Seq<char>, rate_text: Seq<char>) -> Seq<char> {
    "channel `"@ + topic + "` has invalid publish_hz `"@ + rate_text + "`"@
}

pub open spec fn missing_file_message(topic: Seq<char>, path: Seq<char>) -> Seq<char> {
    "schema file for channel `"@ + topic + "` does not exist: "@ + path
}

/// The checks of a channel that come before its schema encoding is filled
/// in: non-blank address and topic, a usable rate, and for FlatBuffer
/// channels both a schema name and a schema path.
pub open spec fn early_channel_error(c: ChannelView, d: OptionsView) -> Option<ErrorView> {
    if is_blank(c.tism_address) {
        Some(ErrorView::Configuration("channel `tism_address` cannot be empty"@))
    } else if is_blank(c.topic) {
        Some(ErrorView::Configuration("channel `topic` cannot be empty"@))
    } else if !rate_is_usable(effective_rate(c, d).0) {
        Some(ErrorView::Configuration(invalid_rate_message(c.topic, effective_rate(c, d).1)))
    } else if is_flatbuffer(c) && c.schema_name is None {
        Some(ErrorView::MissingSchemaName(c.topic))
    } else if is_flatbuffer(c) && c.schema_path is None {
        Some(ErrorView::MissingSchemaPath(c.topic))
    } else {
        None
    }
}

/// A FlatBuffer channel without a schema encoding gets `flatbuffer`; nothing
/// else changes.
pub open spec fn filled_channel(c: ChannelView) -> ChannelView {
    if is_flatbuffer(c) && c.schema_encoding is None {
        ChannelView { schema_encoding: Some("flatbuffer"@), ..c }
    } else {
        c
    }
}

/// What normalising a channel gives, where `file_present` says whether its
/// schema path names an existing file.
pub open spec fn channel_outcome(c: ChannelView, d: OptionsView, file_present: bool) -> Result<
    ChannelView,
    ErrorView,
> {
    match early_channel_error(c, d) {
        Some(e) => Err(e),
        None => if c.schema_path is Some && c.schema_name is None {
            Err(ErrorView::MissingSchemaName(c.topic))
        } else if c.schema_name is Some && c.schema_path is None {
            Err(ErrorView::MissingSchemaPath(c.topic))
        } else if c.schema_path is Some && !file_present {
            Err(ErrorView::Configuration(missing_file_message(c.topic, c.schema_path->0)))
        } else {
            Ok(filled_channel(c))
        },
    }
}

pub open spec fn unit_outcome(r: Result<(), BridgeError>) -> Result<(), ErrorView> {
    match r {
        Ok(()) => Ok(()),
        Err(e) => Err(e@),
    }
}

pub open spec fn as_unit(r: Result<ChannelView, ErrorView>) -> Result<(), ErrorView> {
    match r {
        Ok(_) => Ok(()),
        Err(e) => Err(e),
    }
}

fn configuration_error(text: &str) -> (e: BridgeError)
    ensures
        e@ == ErrorView::Configuration(text@),
{
    BridgeError::Configuration(String::from_str(text))
}

fn encoding_is_flatbuffer(s: &String) -> (b: bool)
    ensures
        b == (s@ == "flatbuffer"@),
{
    let flatbuffer = String::from_str("flatbuffer");
    *s == flatbuffer
}

fn clone_text(s: &String) -> (r: String)
    ensures
        r@ == s@,
{
    s.clone()
}

impl ChannelConfig {
    /// The rate this channel publishes at: its own, or the bridge default.
    pub fn effective_publish_hz(&self, defaults: &BridgeOptions) -> (h: Hertz)
        ensures
            h@ == effective_rate(self@, defaults@),
    {
        match &self.publish_hz {
            Some(h) => h.clone(),
            None => defaults.default_publish_hz.clone(),
        }
    }

    /// Checks the channel and fills in a FlatBuffer channel's schema
    /// encoding. `schema_file_present` is whether the schema path names an
    /// existing file; it is consulted only when every other check passes.
    pub fn normalize_with(&mut self, defaults: &BridgeOptions, schema_file_present: bool) -> (res:
        Result<(), BridgeError>)
        ensures
            unit_outcome(res) == as_unit(channel_outcome(old(self)@, defaults@, schema_file_present)),
            final(self)@ == (if early_channel_error(old(self)@, defaults@) is None {
                filled_channel(old(self)@)
            } else {
                old(self)@
            }),
    {
        if trims_to_empty(self.tism_address.as_str()) {
            return Err(configuration_error("channel `tism_address` cannot be empty"));
        }
        if trims_to_empty(self.topic.as_str()) {
            return Err(configuration_error("channel `topic` cannot be empty"));
        }
        let publish_hz = self.effective_publish_hz(defaults);
        if !publish_hz.is_usable() {
            let message = String::from_str("channel `").concat(self.topic.as_str()).concat(
                "` has invalid publish_hz `",
            ).concat(publish_hz.text.as_str()).concat("`");
            return Err(BridgeError::Configuration(message));
        }
        if encoding_is_flatbuffer(&self.message_encoding) {
            if self.schema_name.is_none() {
                return Err(BridgeError::MissingSchemaName { channel: clone_text(&self.topic) });
            }
            if self.schema_path.is_none() {
                return Err(BridgeError::MissingSchemaPath { channel: clone_text(&self.topic) });
            }
            if self.schema_encoding.is_none() {
                self.schema_encoding = Some(String::from_str("flatbuffer"));
            }
        }
        if self.schema_path.is_some() && self.schema_name.is_none() {
            return Err(BridgeError::MissingSchemaName { channel: clone_text(&self.topic) });
        }
        if self.schema_name.is_some() && self.schema_path.is_none() {
            return Err(BridgeError::MissingSchemaPath { channel: clone_text(&self.topic) });
        }
        if let Some(schema_path) = &self.schema_path {
            if !schema_file_present {
                let message = String::from_str("schema file for channel `").concat(
                    self.topic.as_str(),
                ).concat("` does not exist: ").concat(schema_path.as_str());
                return Err(BridgeError::Configuration(message));
            }
        }
        Ok(())
    }

    /// Asks the file system whether this channel's schema path names an
    /// existing file; nothing is asked when it has none.
    pub fn schema_file_present(&self) -> (answer: Option<FileAnswer>)
        ensures
            asked_path(answer) == opt_text(self.schema_path),
    {
        match &self.schema_path {
            Some(p) => Some(path_is_file(p.as_str())),
            None => None,
        }
    }
}


// ---------------------------------------------------------------------------
// Whole-configuration validation
// ---------------------------------------------------------------------------

pub open spec fn duplicate_topic_message(topic: Seq<char>) -> Seq<char> {
    "duplicate channel topic `"@ + topic + "`"@
}

pub open spec fn duplicate_address_message(address: Seq<char>) -> Seq<char> {
    "duplicate TISM address `"@ + address + "`"@
}

/// Some channel before position `i` has the same topic as channel `i`.
pub open spec fn earlier_topic(chs: Seq<ChannelView>, i: int) -> bool {
    exists|j: int| 0 <= j < i && chs[j].topic == chs[i].topic
}

/// Some channel before position `i` has the same TISM address as channel `i`.
pub open spec fn earlier_address(chs: Seq<ChannelView>, i: int) -> bool {
    exists|j: int| 0 <= j < i && chs[j].tism_address == chs[i].tism_address
}

/// The outcome of checking the first `n` channels in order: each is
/// normalised, then its topic and its address are compared with those of the
/// channels before it. The first failure is the outcome.
pub open spec fn scan_channels(
    chs: Seq<ChannelView>,
    d: OptionsView,
    present: Seq<bool>,
    n: nat,
) -> Result<Seq<ChannelView>, ErrorView>
    decreases n,
{
    if n == 0 {
        Ok(Seq::empty())
    } else {
        let i = n - 1;
        match scan_channels(chs, d, present, (n - 1) as nat) {
            Err(e) => Err(e),
            Ok(done) => match channel_outcome(chs[i], d, present[i]) {
                Err(e) => Err(e),
                Ok(c) => if earlier_topic(chs, i) {
                    Err(ErrorView::Configuration(duplicate_topic_message(chs[i].topic)))
                } else if earlier_address(chs, i) {
                    Err(ErrorView::Configuration(duplicate_address_message(chs[i].tism_address)))
                } else {
                    Ok(done.push(c))
                },
            },
        }
    }
}

pub open spec fn no_channels_message() -> Seq<char> {
    "at least one channel must be configured"@
}

/// The outcome of validating `cfg`, where `present[i]` says whether channel
/// `i`'s schema path names an existing file.
pub open spec fn validate_outcome(cfg: ConfigView, present: Seq<bool>) -> Result<ConfigView, ErrorView> {
    if cfg.channels.len() == 0 {
        Err(ErrorView::Configuration(no_channels_message()))
    } else {
        match scan_channels(cfg.channels, cfg.bridge, present, cfg.channels.len()) {
            Ok(chs) => Ok(ConfigView { channels: chs, ..cfg }),
            Err(e) => Err(e),
        }
    }
}

/// The path a file-system answer was asked about, if one was asked.
pub open spec fn asked_path(a: Option<FileAnswer>) -> Option<Seq<char>> {
    match a {
        Some(f) => Some(f.asked()),
        None => None,
    }
}

/// Whether a file was found: the answer, when one was asked.
pub open spec fn answer_of(a: Option<FileAnswer>) -> bool {
    match a {
        Some(f) => f.answer(),
        None => false,
    }
}

pub open spec fn answers(checks: Seq<Option<FileAnswer>>) -> Seq<bool> {
    checks.map_values(|a: Option<FileAnswer>| answer_of(a))
}

/// One check per channel, each about that channel's schema path, and none
/// for a channel without one.
pub open spec fn checks_fit(chs: Seq<ChannelView>, checks: Seq<Option<FileAnswer>>) -> bool {
    &&& checks.len() == chs.len()
    &&& forall|i: int| 0 <= i < chs.len() ==> asked_path(#[trigger] checks[i]) == chs[i].schema_path
}

pub open spec fn config_outcome(r: Result<BridgeConfig, BridgeError>) -> Result<ConfigView, ErrorView> {
    match r {
        Ok(c) => Ok(c@),
        Err(e) => Err(e@),
    }
}

/// Once the scan has failed, scanning further channels gives the same error.
pub proof fn lemma_scan_error_persists(
    chs: Seq<ChannelView>,
    d: OptionsView,
    present: Seq<bool>,
    k: nat,
    n: nat,
)
    requires
        k <= n,
        scan_channels(chs, d, present, k) is Err,
    ensures
        scan_channels(chs, d, present, n) == scan_channels(chs, d, present, k),
    decreases n - k,
{
    if k < n {
        lemma_scan_error_persists(chs, d, present, k, (n - 1) as nat);
    }
}

fn same_text(a: &String, b: &String) -> (r: bool)
    ensures
        r == (a@ == b@),
{
    *a == *b
}

impl BridgeConfig {
    /// Validates the configuration, where `present[i]` says whether channel
    /// `i`'s schema path names an existing file.
    pub fn validate_with(self, present: &Vec<bool>) -> (res: Result<BridgeConfig, BridgeError>)
        requires
            present.len() == self.channels.len(),
        ensures
            config_outcome(res) == validate_outcome(self@, present@),
    {
        let ghost cfg = self@;
        let BridgeConfig { server, bridge, channels } = self;
        let mut channels = channels;
        if channels.len() == 0 {
            return Err(configuration_error("at least one channel must be configured"));
        }
        let n = channels.len();
        let ghost orig = cfg.channels;
        let mut i: usize = 0;
        proof {
            assert(channel_views(channels@).take(0) =~= Seq::<ChannelView>::empty());
        }
        while i < n
            invariant
                n == channels.len(),
                n == orig.len(),
                n == present.len(),
                orig == cfg.channels,
                cfg == self@,
                bridge@ == cfg.bridge,
                i <= n,
                forall|j: int| i <= j < n ==> #[trigger] channels@[j]@ == orig[j],
                forall|j: int| 0 <= j < i ==> #[trigger] channels@[j]@.topic == orig[j].topic,
                forall|j: int| 0 <= j < i ==> #[trigger] channels@[j]@.tism_address == orig[j].tism_address,
                scan_channels(orig, cfg.bridge, present@, i as nat) == Ok::<Seq<ChannelView>, ErrorView>(
                    channel_views(channels@).take(i as int),
                ),
            decreases n - i,
        {
            let ghost before = channels@;
            let r = channels[i].normalize_with(&bridge, present[i]);
            proof {
                assert(channels@[i as int]@ == if early_channel_error(orig[i as int], cfg.bridge) is None {
                    filled_channel(orig[i as int])
                } else {
                    orig[i as int]
                });
                assert(forall|j: int| 0 <= j < n && j != i ==> channels@[j] == before[j]);
            }
            match r {
                Err(e) => {
                    proof {
                        assert(scan_channels(orig, cfg.bridge, present@, (i + 1) as nat) == Err::<Seq<ChannelView>, ErrorView>(e@));
                        lemma_scan_error_persists(orig, cfg.bridge, present@, (i + 1) as nat, n as nat);
                        assert(validate_outcome(cfg, present@) == Err::<ConfigView, ErrorView>(e@));
                    }
                    return Err(e);
                },
                Ok(()) => {},
            }
            let mut j: usize = 0;
            #[verifier::loop_isolation(false)]
            while j < i
                invariant
                    j <= i,
                    i < n,
                    n == channels.len(),
                    forall|k: int| 0 <= k < j ==> channels@[k]@.topic != channels@[i as int]@.topic,
                decreases i - j,
            {
                if same_text(&channels[j].topic, &channels[i].topic) {
                    let message = String::from_str("duplicate channel topic `").concat(
                        channels[i].topic.as_str(),
                    ).concat("`");
                    proof {
                        assert(channels@[j as int]@.topic == orig[j as int].topic);
                        assert(channels@[i as int]@.topic == orig[i as int].topic);
                        assert(orig[j as int].topic == orig[i as int].topic);
                        assert(earlier_topic(orig, i as int));
                        lemma_scan_error_persists(orig, cfg.bridge, present@, (i + 1) as nat, n as nat);
                    }
                    return Err(BridgeError::Configuration(message));
                }
                j = j + 1;
            }
            proof {
                assert forall|k: int| 0 <= k < i implies orig[k].topic != orig[i as int].topic by {
                    assert(channels@[k]@.topic != channels@[i as int]@.topic);
                }
                assert(!earlier_topic(orig, i as int));
            }
            let mut j: usize = 0;
            #[verifier::loop_isolation(false)]
            while j < i
                invariant
                    j <= i,
                    i < n,
                    n == channels.len(),
                    forall|k: int| 0 <= k < j ==> channels@[k]@.tism_address != channels@[i as int]@.tism_address,
                decreases i - j,
            {
                if same_text(&channels[j].tism_address, &channels[i].tism_address) {
                    let message = String::from_str("duplicate TISM address `").concat(
                        channels[i].tism_address.as_str(),
                    ).concat("`");
                    proof {
                        assert(!earlier_topic(orig, i as int));
                        assert(channels@[j as int]@.tism_address == orig[j as int].tism_address);
                        assert(channels@[i as int]@.tism_address == orig[i as int].tism_address);
                        assert(orig[j as int].tism_address == orig[i as int].tism_address);
                        assert(earlier_address(orig, i as int));
                        lemma_scan_error_persists(orig, cfg.bridge, present@, (i + 1) as nat, n as nat);
                    }
                    return Err(BridgeError::Configuration(message));
                }
                j = j + 1;
            }
            proof {
                assert forall|k: int| 0 <= k < i implies orig[k].tism_address != orig[i as int].tism_address by {
                    assert(channels@[k]@.tism_address != channels@[i as int]@.tism_address);
                }
                assert(!earlier_topic(orig, i as int));
                assert(!earlier_address(orig, i as int));
                assert(channel_views(channels@).take((i + 1) as int) =~= channel_views(before).take(
                    i as int,
                ).push(channels@[i as int]@));
            }
            i = i + 1;
        }
        proof {
            assert(channel_views(channels@).take(n as int) =~= channel_views(channels@));
        }
        Ok(BridgeConfig { server, bridge, channels })
    }

    /// Whether each channel's schema path names an existing file.
    pub fn schema_files_present(&self) -> (checks: Vec<Option<FileAnswer>>)
        ensures
            checks_fit(channel_views(self.channels@), checks@),
    {
        let mut checks: Vec<Option<FileAnswer>> = Vec::new();
        let n = self.channels.len();
        for i in 0..n
            invariant
                n == self.channels.len(),
                checks.len() == i,
                forall|j: int| 0 <= j < i ==> asked_path(#[trigger] checks@[j]) == self.channels@[j]@.schema_path,
        {
            checks.push(self.channels[i].schema_file_present());
        }
        checks
    }

    /// Checks that at least one channel is configured, normalises every
    /// channel, and rejects repeated topics and repeated TISM addresses. The
    /// outcome is [`validate_outcome`] for what the file system said of each
    /// channel's schema path.
    pub fn validate(self) -> (res: Result<BridgeConfig, BridgeError>)
        ensures
            exists|checks: Seq<Option<FileAnswer>>|
                checks_fit(channel_views(self.channels@), checks) && config_outcome(res) == validate_outcome(
                    self@,
                    answers(checks),
                ),
    {
        let checks = self.schema_files_present();
        let mut present: Vec<bool> = Vec::new();
        let n = checks.len();
        for i in 0..n
            invariant
                n == checks.len(),
                present.len() == i,
                forall|j: int| 0 <= j < i ==> present@[j] == answer_of(#[trigger] checks@[j]),
        {
            let p = match &checks[i] {
                Some(a) => a.is_present(),
                None => false,
            };
            present.push(p);
        }
        assert(present@ =~= answers(checks@));
        self.validate_with(&present)
    }

    /// Joins every relative schema path onto `base_dir`.
    pub fn resolve_schema_paths(&mut self, base_dir: &str)
        ensures
            final(self).server@ == old(self).server@,
            final(self).bridge@ == old(self).bridge@,
            channel_views(final(self).channels@) == channel_views(old(self).channels@).map_values(
                |c: ChannelView| resolved_channel(c, base_dir@),
            ),
    {
        let n = self.channels.len();
        let ghost before = channel_views(self.channels@);
        for i in 0..n
            invariant
                n == self.channels.len(),
                before.len() == n,
                self.server@ == old(self).server@,
                self.bridge@ == old(self).bridge@,
                before == channel_views(old(self).channels@),
                forall|j: int| 0 <= j < i ==> #[trigger] self.channels@[j]@ == resolved_channel(before[j], base_dir@),
                forall|j: int| i <= j < n ==> #[trigger] self.channels@[j]@ == before[j],
        {
            let joined = match &self.channels[i].schema_path {
                Some(p) => if is_relative_path(p.as_str()) {
                    Some(join_paths(base_dir, p.as_str()))
                } else {
                    None
                },
                None => None,
            };
            let ghost prev = self.channels@;
            if let Some(j) = joined {
                self.channels[i].schema_path = Some(j);
            }
            proof {
                assert(forall|k: int| 0 <= k < n && k != i ==> self.channels@[k] == prev[k]);
                assert(prev[i as int]@ == before[i as int]);
                if before[i as int].schema_path is Some {
                    let p = before[i as int].schema_path->0;
                    if p.len() > 0 && p[0] == '/' {
                        assert(joined is None);
                        assert(self.channels@[i as int]@ == before[i as int]);
                    } else {
                        assert(joined is Some);
                        assert(self.channels@[i as int]@.schema_path == Some(joined_path(base_dir@, p)));
                        assert(self.channels@[i as int]@.topic == before[i as int].topic);
                    }
                }
                assert(self.channels@[i as int]@ == resolved_channel(before[i as int], base_dir@));
            }
        }
        proof {
            assert(channel_views(self.channels@) =~= before.map_values(
                |c: ChannelView| resolved_channel(c, base_dir@),
            ));
        }
    }
}

/// A schema path as read relative to `base`: relative paths are joined onto
/// it, absolute ones are kept.
pub open spec fn resolved_path(p: Seq<char>, base: Seq<char>) -> Seq<char> {
    if path_is_absolute(p) {
        p
    } else {
        joined_path(base, p)
    }
}

pub open spec fn resolved_channel(c: ChannelView, base: Seq<char>) -> ChannelView {
    match c.schema_path {
        Some(p) => ChannelView { schema_path: Some(resolved_path(p, base)), ..c },
        None => c,
    }
}

pub open spec fn resolved_config(cfg: ConfigView, base: Option<Seq<char>>) -> ConfigView {
    match base {
        Some(b) => ConfigView { channels: cfg.channels.map_values(|c: ChannelView| resolved_channel(c, b)), ..cfg },
        None => cfg,
    }
}

pub open spec fn opt_str_view(o: Option<&str>) -> Option<Seq<char>> {
    match o {
        Some(s) => Some(s@),
        None => None,
    }
}

/// Finishes a freshly read configuration: relative schema paths are resolved
/// against `base_dir` (the directory of the configuration file, when there is
/// one), then the result is validated.
pub fn resolve_and_validate(config: BridgeConfig, base_dir: Option<&str>) -> (res: Result<BridgeConfig, BridgeError>)
    ensures
        exists|checks: Seq<Option<FileAnswer>>|
            checks_fit(resolved_config(config@, opt_str_view(base_dir)).channels, checks)
                && config_outcome(res) == validate_outcome(
                resolved_config(config@, opt_str_view(base_dir)),
                answers(checks),
            ),
{
    let ghost original = config@;
    let mut config = config;
    if let Some(base) = base_dir {
        config.resolve_schema_paths(base);
    }
    let ghost resolved = config@;
    assert(resolved == resolved_config(original, opt_str_view(base_dir)));
    config.validate()
}

} // verus!
