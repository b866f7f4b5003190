use vstd::prelude::*;

use crate::config::ChannelConfig;

verus! {

/// How a failed read of a TISM source is classified: the publisher is not
/// live (`NotFound`), or anything else went wrong.
#[derive(PartialEq, Eq, Structural, Clone, Copy, Debug)]
pub enum ReadFailure {
    NotFound,
    Other,
}

/// What a channel worker does with a payload it has read.
#[derive(PartialEq, Eq, Structural, Clone, Copy, Debug)]
pub enum PayloadAction {
    /// Log the payload on the channel, then wait out the publish period.
    /// `newly_connected` asks for the "connected" notice.
    Publish { newly_connected: bool },
    /// The payload equals the last one and the channel publishes changes
    /// only: publish nothing, wait out the publish period.
    SkipUnchanged { newly_connected: bool },
    /// The payload is longer than the channel's byte limit: warn, publish
    /// nothing, wait out the publish period.
    SkipOversized { newly_connected: bool },
}

/// What a channel worker does after a read of its source failed.
#[derive(PartialEq, Eq, Structural, Clone, Copy, Debug)]
pub enum FailureAction {
    /// The publisher is not live: sleep the retry interval and read again.
    /// `announce` asks for the "waiting for publisher" notice.
    AwaitPublisher { announce: bool },
    /// Reading failed otherwise: warn, sleep the retry interval, read again.
    RetryAfterFailure,
}

/// The per-channel state that a worker carries from one read to the next.
pub struct WorkerState {
    channel: ChannelConfig,
    last_payload: Option<Vec<u8>>,
    source_connected: bool,
    waiting_for_publisher: bool,
}

pub struct WorkerView {
    pub on_change_only: bool,
    pub max_message_bytes: Option<usize>,
    pub last_payload: Option<Seq<u8>>,
    pub source_connected: bool,
    pub waiting_for_publisher: bool,
}

pub open spec fn opt_bytes(o: Option<Vec<u8>>) -> Option<Seq<u8>> {
    match o {
        Some(v) => Some(v@),
        None => None,
    }
}

impl View for WorkerState {
    type V = WorkerView;

    closed spec fn view(&self) -> WorkerView {
        WorkerView {
            on_change_only: self.channel.on_change_only,
            max_message_bytes: self.channel.max_message_bytes,
            last_payload: opt_bytes(self.last_payload),
            source_connected: self.source_connected,
            waiting_for_publisher: self.waiting_for_publisher,
        }
    }
}

/// A worker is never both connected and waiting for its publisher, and it
/// remembers a payload only when its channel publishes changes only.
pub open spec fn worker_well_formed(s: WorkerView) -> bool {
    &&& !(s.source_connected && s.waiting_for_publisher)
    &&& !s.on_change_only ==> s.last_payload is None
}

/// The payload equals the last one remembered, on a changes-only channel.
pub open spec fn is_unchanged(s: WorkerView, p: Seq<u8>) -> bool {
    s.on_change_only && s.last_payload == Some(p)
}

/// The payload is longer than the channel's byte limit, if it has one.
pub open spec fn is_oversized(s: WorkerView, len: int) -> bool {
    match s.max_message_bytes {
        Some(limit) => len > limit,
        None => false,
    }
}

/// The action after reading payload `p`.
pub open spec fn payload_action(s: WorkerView, p: Seq<u8>) -> PayloadAction {
    let newly_connected = !s.source_connected;
    if is_unchanged(s, p) {
        PayloadAction::SkipUnchanged { newly_connected }
    } else if is_oversized(s, p.len() as int) {
        PayloadAction::SkipOversized { newly_connected }
    } else {
        PayloadAction::Publish { newly_connected }
    }
}

/// The state after reading payload `p`: connected, not waiting, and on a
/// changes-only channel `p` is remembered.
pub open spec fn after_payload(s: WorkerView, p: Seq<u8>) -> WorkerView {
    WorkerView {
        last_payload: if s.on_change_only {
            Some(p)
        } else {
            s.last_payload
        },
        source_connected: true,
        waiting_for_publisher: false,
        ..s
    }
}

/// The action after a failed read.
pub open spec fn failure_action(s: WorkerView, f: ReadFailure) -> FailureAction {
    match f {
        ReadFailure::NotFound => FailureAction::AwaitPublisher {
            announce: s.source_connected || !s.waiting_for_publisher,
        },
        ReadFailure::Other => FailureAction::RetryAfterFailure,
    }
}

/// The state after a failed read: nothing remembered, not connected, and
/// waiting exactly when the publisher is not live.
pub open spec fn after_failure(s: WorkerView, f: ReadFailure) -> WorkerView {
    WorkerView {
        last_payload: None,
        source_connected: false,
        waiting_for_publisher: f == ReadFailure::NotFound,
        ..s
    }
}

/// Whether `channel` publishes changes only and `payload` equals the last
/// payload.
pub fn should_skip_publish(channel: &ChannelConfig, payload: &[u8], last_payload: Option<&[u8]>) -> (b: bool)
    ensures
        b == (channel.on_change_only && match last_payload {
            Some(last) => last@ == payload@,
            None => false,
        }),
{
    channel.on_change_only && match last_payload {
        Some(last) => bytes_equal(last, payload),
        None => false,
    }
}

/// Whether a payload of `payload_len` bytes is over `channel`'s byte limit.
pub fn exceeds_max_size(channel: &ChannelConfig, payload_len: usize) -> (b: bool)
    ensures
        b == match channel.max_message_bytes {
            Some(limit) => payload_len > limit,
            None => false,
        },
{
    match channel.max_message_bytes {
        Some(limit) => payload_len > limit,
        None => false,
    }
}

/// Whether two byte strings are equal.
pub fn bytes_equal(a: &[u8], b: &[u8]) -> (r: bool)
    ensures
        r == (a@ == b@),
{
    if a.len() != b.len() {
        return false;
    }
    let n = a.len();
    for i in 0..n
        invariant
            n == a@.len(),
            n == b@.len(),
            forall|j: int| 0 <= j < i ==> a@[j] == b@[j],
    {
        if a[i] != b[i] {
            return false;
        }
    }
    assert(a@ =~= b@);
    true
}

fn copy_bytes(v: &Vec<u8>) -> (r: Vec<u8>)
    ensures
        r@ == v@,
{
    let r = v.clone();
    assert(r@ =~= v@);
    r
}

impl WorkerState {
    /// Every worker is well formed: never both connected and waiting, and
    /// remembering a payload only on a changes-only channel.
    #[verifier::type_invariant]
    closed spec fn well_formed(self) -> bool {
        worker_well_formed(self@)
    }

    /// A fresh worker for `channel`: nothing remembered, not connected, not
    /// waiting.
    pub fn new(channel: &ChannelConfig) -> (s: WorkerState)
        ensures
            s@ == (WorkerView {
                on_change_only: channel.on_change_only,
                max_message_bytes: channel.max_message_bytes,
                last_payload: None,
                source_connected: false,
                waiting_for_publisher: false,
            }),
            worker_well_formed(s@),
    {
        WorkerState {
            channel: channel.clone(),
            last_payload: None,
            source_connected: false,
            waiting_for_publisher: false,
        }
    }

    /// Decides what to do with a payload that was read successfully.
    pub fn on_payload(&mut self, payload: &Vec<u8>) -> (action: PayloadAction)
        ensures
            action == payload_action(old(self)@, payload@),
            final(self)@ == after_payload(old(self)@, payload@),
            worker_well_formed(final(self)@),
    {
        let newly_connected = !self.source_connected;
        proof {
            use_type_invariant(&*self);
        }
        self.waiting_for_publisher = false;
        self.source_connected = true;
        let unchanged = match &self.last_payload {
            Some(last) => should_skip_publish(&self.channel, payload.as_slice(), Some(last.as_slice())),
            None => should_skip_publish(&self.channel, payload.as_slice(), None),
        };
        if unchanged {
            return PayloadAction::SkipUnchanged { newly_connected };
        }
        let oversized = exceeds_max_size(&self.channel, payload.len());
        if self.channel.on_change_only {
            self.last_payload = Some(copy_bytes(payload));
        }
        if oversized {
            PayloadAction::SkipOversized { newly_connected }
        } else {
            PayloadAction::Publish { newly_connected }
        }
    }

    /// Decides what to do after a read failed.
    pub fn on_read_failure(&mut self, failure: ReadFailure) -> (action: FailureAction)
        ensures
            action == failure_action(old(self)@, failure),
            final(self)@ == after_failure(old(self)@, failure),
            worker_well_formed(final(self)@),
    {
        proof {
            use_type_invariant(&*self);
        }
        self.last_payload = None;
        match failure {
            ReadFailure::NotFound => {
                let announce = self.source_connected || !self.waiting_for_publisher;
                self.source_connected = false;
                self.waiting_for_publisher = true;
                FailureAction::AwaitPublisher { announce }
            },
            ReadFailure::Other => {
                self.waiting_for_publisher = false;
                self.source_connected = false;
                FailureAction::RetryAfterFailure
            },
        }
    }
}

// ---------------------------------------------------------------------------
// Laws of the worker
// ---------------------------------------------------------------------------

/// A payload over the channel's byte limit is never published.
pub proof fn law_oversized_never_published(s: WorkerView, p: Seq<u8>)
    requires
        is_oversized(s, p.len() as int),
    ensures
        !(payload_action(s, p) is Publish),
{
}

/// On a channel that publishes every payload, each payload within the byte
/// limit is published.
pub proof fn law_every_payload_published_without_change_filter(s: WorkerView, p: Seq<u8>)
    requires
        !s.on_change_only,
        !is_oversized(s, p.len() as int),
    ensures
        payload_action(s, p) is Publish,
{
}

/// On a changes-only channel, a payload read again right after itself is
/// not published again.
pub proof fn law_repeated_payload_suppressed(s: WorkerView, p: Seq<u8>)
    requires
        s.on_change_only,
    ensures
        payload_action(after_payload(s, p), p) is SkipUnchanged,
{
}

/// After a failed read nothing is remembered, so the next payload, whatever
/// it is, is not suppressed as unchanged: a restarted publisher's first
/// frame is published again. The worker also announces the new connection.
pub proof fn law_failure_forgets_last_payload(s: WorkerView, f: ReadFailure, p: Seq<u8>)
    ensures
        !(payload_action(after_failure(s, f), p) is SkipUnchanged),
        payload_action(after_failure(s, f), p) matches PayloadAction::Publish { newly_connected }
            ==> newly_connected,
{
}

/// Waiting for the publisher is announced once: a second consecutive
/// `NotFound` asks for no notice.
pub proof fn law_waiting_announced_once(s: WorkerView)
    ensures
        failure_action(after_failure(s, ReadFailure::NotFound), ReadFailure::NotFound)
            == (FailureAction::AwaitPublisher { announce: false }),
{
}

/// Losing a connected publisher is announced.
pub proof fn law_lost_publisher_announced(s: WorkerView)
    requires
        s.source_connected,
    ensures
        failure_action(s, ReadFailure::NotFound) == (FailureAction::AwaitPublisher { announce: true }),
{
}

/// A connection is announced once: after one payload, the next one asks for
/// no notice.
pub proof fn law_connection_announced_once(s: WorkerView, p: Seq<u8>, q: Seq<u8>)
    ensures
        match payload_action(after_payload(s, p), q) {
            PayloadAction::Publish { newly_connected } => !newly_connected,
            PayloadAction::SkipUnchanged { newly_connected } => !newly_connected,
            PayloadAction::SkipOversized { newly_connected } => !newly_connected,
        },
{
}

// ---------------------------------------------------------------------------
// A worker over a sequence of reads
// ---------------------------------------------------------------------------

/// What one read of a source gave: a payload, or a failure.
pub enum ReadView {
    Payload(Seq<u8>),
    Failed(ReadFailure),
}

/// The state after one read.
pub open spec fn after_read(s: WorkerView, r: ReadView) -> WorkerView {
    match r {
        ReadView::Payload(p) => after_payload(s, p),
        ReadView::Failed(f) => after_failure(s, f),
    }
}

/// What one read logs on the channel: the payload when it is published.
pub open spec fn published_by(s: WorkerView, r: ReadView) -> Seq<Seq<u8>> {
    match r {
        ReadView::Payload(p) => if payload_action(s, p) is Publish {
            seq![p]
        } else {
            Seq::empty()
        },
        ReadView::Failed(_) => Seq::empty(),
    }
}

/// The state after `reads`, one after another, and the payloads logged on
/// the channel, in order.
pub open spec fn run_reads(s: WorkerView, reads: Seq<ReadView>) -> (WorkerView, Seq<Seq<u8>>)
    decreases reads.len(),
{
    if reads.len() == 0 {
        (s, Seq::empty())
    } else {
        let before = run_reads(s, reads.drop_last());
        (after_read(before.0, reads.last()), before.1 + published_by(before.0, reads.last()))
    }
}

/// Read `i` of `reads` is published: it gave a payload within the byte limit
/// that, on a changes-only channel, is not the payload the read before it
/// gave.
pub open spec fn read_is_published(s: WorkerView, reads: Seq<ReadView>, i: int) -> bool {
    &&& reads[i] is Payload
    &&& !is_oversized(s, reads[i]->Payload_0.len() as int)
    &&& !(s.on_change_only && i > 0 && reads[i - 1] == reads[i])
}

/// The payloads of the published reads among `reads`, in order.
pub open spec fn published_reads(s: WorkerView, reads: Seq<ReadView>) -> Seq<Seq<u8>>
    decreases reads.len(),
{
    if reads.len() == 0 {
        Seq::empty()
    } else {
        let i = reads.len() - 1;
        published_reads(s, reads.drop_last()) + if read_is_published(s, reads, i) {
            seq![reads[i]->Payload_0]
        } else {
            Seq::empty()
        }
    }
}

proof fn lemma_run_reads(s: WorkerView, reads: Seq<ReadView>)
    requires
        s.last_payload is None,
    ensures
        run_reads(s, reads).0.on_change_only == s.on_change_only,
        run_reads(s, reads).0.max_message_bytes == s.max_message_bytes,
        run_reads(s, reads).0.last_payload == (if s.on_change_only && reads.len() > 0
            && reads.last() is Payload {
            Some(reads.last()->Payload_0)
        } else {
            None::<Seq<u8>>
        }),
        run_reads(s, reads).1 == published_reads(s, reads),
    decreases reads.len(),
{
    if reads.len() > 0 {
        let prefix = reads.drop_last();
        lemma_run_reads(s, prefix);
        let i = reads.len() - 1;
        if i > 0 {
            assert(prefix.last() == reads[i - 1]);
        }
        let t = run_reads(s, prefix).0;
        if reads.last() is Payload {
            let p = reads.last()->Payload_0;
            assert(is_unchanged(t, p) <==> (s.on_change_only && i > 0 && reads[i - 1] == reads[i]));
        }
    }
}

/// From a fresh worker, the payloads logged over a sequence of reads are, in
/// order, exactly those of the reads that gave a payload within the byte
/// limit which, on a changes-only channel, differs from what the read just
/// before it gave (a failed read in between counts as a difference).
pub proof fn law_published_payloads(s: WorkerView, reads: Seq<ReadView>)
    requires
        s.last_payload is None,
    ensures
        run_reads(s, reads).1 == published_reads(s, reads),
{
    lemma_run_reads(s, reads);
}

} // verus!
