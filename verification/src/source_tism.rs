use vstd::prelude::*;
use vstd::string::StringSliceAdditionalSpecFns;

use crate::worker::ReadFailure;

verus! {

/// The TISM shared-memory layout version this reader understands.
pub const TISM_MAJOR_VERSION: u8 = 2;

/// The byte of `/`.
pub const SLASH: u8 = 0x2F;

/// Why reading a TISM allocation failed.
#[derive(PartialEq, Eq, Structural, Clone, Copy, Debug)]
pub enum TismError {
    /// An operating-system call failed with this error number.
    Os(i32),
    /// The allocation was written by another TISM major version.
    VersionMismatch,
    /// The allocation's publisher has gone; it is a zombie.
    Zombie,
    /// The allocation's size does not fit in the address space.
    SizeOverflow,
}

/// How a worker takes a failed read: a zombie allocation, or a name that
/// names no shared-memory object (error number `enoent`, the platform's
/// `ENOENT`), means the publisher is not live; anything else is a failure.
pub fn read_failure(err: TismError, enoent: i32) -> (f: ReadFailure)
    ensures
        f == (if err == TismError::Zombie || err == TismError::Os(enoent) {
            ReadFailure::NotFound
        } else {
            ReadFailure::Other
        }),
{
    match err {
        TismError::Zombie => ReadFailure::NotFound,
        TismError::Os(code) => if code == enoent {
            ReadFailure::NotFound
        } else {
            ReadFailure::Other
        },
        _ => ReadFailure::Other,
    }
}

/// What the reader asks its caller to do next.
pub enum TismAction {
    /// Open the shared-memory object with this NUL-terminated name,
    /// read-write.
    Open { name: Vec<u8> },
    /// Map the first word of `fd`, read the data size stored there, unmap it.
    MapHeader { fd: i32 },
    /// Map `len` bytes of `fd`, shared, readable and writable.
    MapAllocation { fd: i32, len: usize },
    /// Read the mapped header's major version and zombie flag.
    Inspect,
    /// Take the allocation's read lock.
    Lock,
    /// Copy the payload out under the read lock, then release the lock.
    CopyAndUnlock,
    /// Unmap `unmap_len` bytes of the mapped allocation, if given, and close
    /// `close_fd`, if given; the read is over with `result`.
    Finish { close_fd: Option<i32>, unmap_len: Option<usize>, result: Result<Vec<u8>, TismError> },
}

/// What came of the action the reader asked for.
pub enum TismEvent {
    /// The result of opening: a descriptor, or (when `fd` is negative) the
    /// error number of the failure.
    Opened { fd: i32, errno: i32 },
    /// The data size read from the header, or the error number of mapping it.
    HeaderRead(Result<usize, i32>),
    /// Whether the allocation was mapped, or the error number of mapping it.
    AllocationMapped(Result<(), i32>),
    /// The header's major version and zombie flag.
    Inspected { major_version: u8, is_zombie: bool },
    /// The return code of taking the read lock.
    Locked { code: i32 },
    /// The copied payload and the return code of releasing the read lock.
    Copied { payload: Vec<u8>, unlock_code: i32 },
}

/// Where a read of a TISM allocation stands.
#[derive(PartialEq, Eq, Structural, Clone, Copy, Debug)]
pub enum TismPhase {
    AwaitOpen,
    AwaitHeader { fd: i32 },
    AwaitMapping { fd: i32, len: usize },
    AwaitInspection { fd: i32, len: usize },
    AwaitLock { fd: i32, len: usize },
    AwaitCopy { fd: i32, len: usize },
    Done,
}

/// One read of one TISM allocation, driven by its caller one action at a
/// time.
pub struct TismRead {
    pub phase: TismPhase,
    pub overhead: usize,
}

pub enum EventView {
    Opened { fd: i32, errno: i32 },
    HeaderRead(Result<usize, i32>),
    AllocationMapped(Result<(), i32>),
    Inspected { major_version: u8, is_zombie: bool },
    Locked { code: i32 },
    Copied { payload: Seq<u8>, unlock_code: i32 },
}

pub enum ActionView {
    Open { name: Seq<u8> },
    MapHeader { fd: i32 },
    MapAllocation { fd: i32, len: usize },
    Inspect,
    Lock,
    CopyAndUnlock,
    Finish { close_fd: Option<i32>, unmap_len: Option<usize>, result: Result<Seq<u8>, TismError> },
}

impl View for TismEvent {
    type V = EventView;

    open spec fn view(&self) -> EventView {
        match self {
            TismEvent::Opened { fd, errno } => EventView::Opened { fd: *fd, errno: *errno },
            TismEvent::HeaderRead(r) => EventView::HeaderRead(*r),
            TismEvent::AllocationMapped(r) => EventView::AllocationMapped(*r),
            TismEvent::Inspected { major_version, is_zombie } => EventView::Inspected {
                major_version: *major_version,
                is_zombie: *is_zombie,
            },
            TismEvent::Locked { code } => EventView::Locked { code: *code },
            TismEvent::Copied { payload, unlock_code } => EventView::Copied {
                payload: payload@,
                unlock_code: *unlock_code,
            },
        }
    }
}

pub open spec fn result_bytes(r: Result<Vec<u8>, TismError>) -> Result<Seq<u8>, TismError> {
    match r {
        Ok(v) => Ok(v@),
        Err(e) => Err(e),
    }
}

impl View for TismAction {
    type V = ActionView;

    open spec fn view(&self) -> ActionView {
        match self {
            TismAction::Open { name } => ActionView::Open { name: name@ },
            TismAction::MapHeader { fd } => ActionView::MapHeader { fd: *fd },
            TismAction::MapAllocation { fd, len } => ActionView::MapAllocation { fd: *fd, len: *len },
            TismAction::Inspect => ActionView::Inspect,
            TismAction::Lock => ActionView::Lock,
            TismAction::CopyAndUnlock => ActionView::CopyAndUnlock,
            TismAction::Finish { close_fd, unmap_len, result } => ActionView::Finish {
                close_fd: *close_fd,
                unmap_len: *unmap_len,
                result: result_bytes(*result),
            },
        }
    }
}

/// The descriptor a phase holds open.
pub open spec fn held_fd(p: TismPhase) -> Option<i32> {
    match p {
        TismPhase::AwaitHeader { fd } => Some(fd),
        TismPhase::AwaitMapping { fd, .. } => Some(fd),
        TismPhase::AwaitInspection { fd, .. } => Some(fd),
        TismPhase::AwaitLock { fd, .. } => Some(fd),
        TismPhase::AwaitCopy { fd, .. } => Some(fd),
        _ => None,
    }
}

/// The length of the allocation mapping a phase holds.
pub open spec fn held_mapping(p: TismPhase) -> Option<usize> {
    match p {
        TismPhase::AwaitInspection { len, .. } => Some(len),
        TismPhase::AwaitLock { len, .. } => Some(len),
        TismPhase::AwaitCopy { len, .. } => Some(len),
        _ => None,
    }
}

/// Whether `e` is the outcome of the action that phase `p` waits for.
pub open spec fn event_fits(p: TismPhase, e: EventView) -> bool {
    match p {
        TismPhase::AwaitOpen => e is Opened,
        TismPhase::AwaitHeader { .. } => e is HeaderRead,
        TismPhase::AwaitMapping { .. } => e is AllocationMapped,
        TismPhase::AwaitInspection { .. } => e is Inspected,
        TismPhase::AwaitLock { .. } => e is Locked,
        TismPhase::AwaitCopy { .. } => e is Copied,
        TismPhase::Done => false,
    }
}

/// Ending the read with `result`, releasing whatever phase `p` holds.
pub open spec fn finish_from(p: TismPhase, result: Result<Seq<u8>, TismError>) -> ActionView {
    ActionView::Finish { close_fd: held_fd(p), unmap_len: held_mapping(p), result }
}

/// The next phase and action after event `e` in phase `p`, for a layout
/// whose header takes `overhead` bytes before the data.
pub open spec fn advance_spec(p: TismPhase, overhead: usize, e: EventView) -> (TismPhase, ActionView) {
    match (p, e) {
        (TismPhase::AwaitOpen, EventView::Opened { fd, errno }) => if fd < 0 {
            (TismPhase::Done, finish_from(p, Err(TismError::Os(errno))))
        } else {
            (TismPhase::AwaitHeader { fd }, ActionView::MapHeader { fd })
        },
        (TismPhase::AwaitHeader { fd }, EventView::HeaderRead(r)) => match r {
            Err(errno) => (TismPhase::Done, finish_from(p, Err(TismError::Os(errno)))),
            Ok(data_size) => if overhead + data_size > usize::MAX {
                (TismPhase::Done, finish_from(p, Err(TismError::SizeOverflow)))
            } else {
                let len = (overhead + data_size) as usize;
                (TismPhase::AwaitMapping { fd, len }, ActionView::MapAllocation { fd, len })
            },
        },
        (TismPhase::AwaitMapping { fd, len }, EventView::AllocationMapped(r)) => match r {
            Err(errno) => (TismPhase::Done, finish_from(p, Err(TismError::Os(errno)))),
            Ok(()) => (TismPhase::AwaitInspection { fd, len }, ActionView::Inspect),
        },
        (TismPhase::AwaitInspection { fd, len }, EventView::Inspected { major_version, is_zombie }) => {
            if major_version != TISM_MAJOR_VERSION {
                (TismPhase::Done, finish_from(p, Err(TismError::VersionMismatch)))
            } else if is_zombie {
                (TismPhase::Done, finish_from(p, Err(TismError::Zombie)))
            } else {
                (TismPhase::AwaitLock { fd, len }, ActionView::Lock)
            }
        },
        (TismPhase::AwaitLock { fd, len }, EventView::Locked { code }) => if code != 0 {
            (TismPhase::Done, finish_from(p, Err(TismError::Os(code))))
        } else {
            (TismPhase::AwaitCopy { fd, len }, ActionView::CopyAndUnlock)
        },
        (TismPhase::AwaitCopy { .. }, EventView::Copied { payload, unlock_code }) => if unlock_code != 0 {
            (TismPhase::Done, finish_from(p, Err(TismError::Os(unlock_code))))
        } else {
            (TismPhase::Done, finish_from(p, Ok(payload)))
        },
        _ => (p, finish_from(p, Err(TismError::Os(0)))),
    }
}

/// The shared-memory object name for `address`: its bytes, prefixed with `/`
/// where the platform wants that, and terminated by NUL.
pub open spec fn shm_name(address: Seq<u8>, leading_slash: bool) -> Seq<u8> {
    (if leading_slash { seq![SLASH] } else { Seq::empty() }) + address + seq![0u8]
}

/// Starts reading the TISM allocation at `address` once. `overhead` is the
/// number of header bytes that precede the data in the allocation, and
/// `leading_slash` says whether the platform's shared-memory names begin
/// with `/`. The caller performs each action the reader asks for and hands
/// back what came of it, until the reader says `Finish`.
pub fn read_once(address: &str, overhead: usize, leading_slash: bool) -> (r: (TismRead, TismAction))
    ensures
        r.0.phase == TismPhase::AwaitOpen,
        r.0.overhead == overhead,
        r.1@ == (ActionView::Open { name: shm_name(address.spec_bytes(), leading_slash) }),
{
    let bytes = address.as_bytes();
    let mut name: Vec<u8> = Vec::new();
    if leading_slash {
        name.push(SLASH);
    }
    let n = bytes.len();
    for i in 0..n
        invariant
            n == bytes@.len(),
            bytes@ == address.spec_bytes(),
            name@ == (if leading_slash { seq![SLASH] } else { Seq::<u8>::empty() }) + bytes@.take(i as int),
    {
        name.push(bytes[i]);
        proof {
            assert(bytes@.take(i + 1) =~= bytes@.take(i as int).push(bytes@[i as int]));
        }
    }
    name.push(0u8);
    proof {
        assert(bytes@.take(n as int) =~= bytes@);
        assert(name@ =~= shm_name(address.spec_bytes(), leading_slash));
    }
    (TismRead { phase: TismPhase::AwaitOpen, overhead }, TismAction::Open { name })
}

fn finish(p: TismPhase, result: Result<Vec<u8>, TismError>) -> (a: TismAction)
    ensures
        a@ == finish_from(p, result_bytes(result)),
{
    let (close_fd, unmap_len) = match p {
        TismPhase::AwaitHeader { fd } => (Some(fd), None),
        TismPhase::AwaitMapping { fd, .. } => (Some(fd), None),
        TismPhase::AwaitInspection { fd, len } => (Some(fd), Some(len)),
        TismPhase::AwaitLock { fd, len } => (Some(fd), Some(len)),
        TismPhase::AwaitCopy { fd, len } => (Some(fd), Some(len)),
        _ => (None, None),
    };
    TismAction::Finish { close_fd, unmap_len, result }
}

impl TismRead {
    /// Takes the outcome of the last action and says what to do next.
    pub fn advance(&mut self, event: TismEvent) -> (a: TismAction)
        requires
            event_fits(old(self).phase, event@),
        ensures
            final(self).overhead == old(self).overhead,
            (final(self).phase, a@) == advance_spec(old(self).phase, old(self).overhead, event@),
    {
        let p = self.phase;
        match event {
            TismEvent::Opened { fd, errno } => {
                if fd < 0 {
                    self.phase = TismPhase::Done;
                    finish(p, Err(TismError::Os(errno)))
                } else {
                    self.phase = TismPhase::AwaitHeader { fd };
                    TismAction::MapHeader { fd }
                }
            },
            TismEvent::HeaderRead(r) => {
                let fd = match p {
                    TismPhase::AwaitHeader { fd } => fd,
                    _ => 0,
                };
                match r {
                    Err(errno) => {
                        self.phase = TismPhase::Done;
                        finish(p, Err(TismError::Os(errno)))
                    },
                    Ok(data_size) => match self.overhead.checked_add(data_size) {
                        None => {
                            self.phase = TismPhase::Done;
                            finish(p, Err(TismError::SizeOverflow))
                        },
                        Some(len) => {
                            self.phase = TismPhase::AwaitMapping { fd, len };
                            TismAction::MapAllocation { fd, len }
                        },
                    },
                }
            },
            TismEvent::AllocationMapped(r) => {
                let (fd, len) = match p {
                    TismPhase::AwaitMapping { fd, len } => (fd, len),
                    _ => (0, 0),
                };
                match r {
                    Err(errno) => {
                        self.phase = TismPhase::Done;
                        finish(p, Err(TismError::Os(errno)))
                    },
                    Ok(()) => {
                        self.phase = TismPhase::AwaitInspection { fd, len };
                        TismAction::Inspect
                    },
                }
            },
            TismEvent::Inspected { major_version, is_zombie } => {
                let (fd, len) = match p {
                    TismPhase::AwaitInspection { fd, len } => (fd, len),
                    _ => (0, 0),
                };
                if major_version != TISM_MAJOR_VERSION {
                    self.phase = TismPhase::Done;
                    finish(p, Err(TismError::VersionMismatch))
                } else if is_zombie {
                    self.phase = TismPhase::Done;
                    finish(p, Err(TismError::Zombie))
                } else {
                    self.phase = TismPhase::AwaitLock { fd, len };
                    TismAction::Lock
                }
            },
            TismEvent::Locked { code } => {
                let (fd, len) = match p {
                    TismPhase::AwaitLock { fd, len } => (fd, len),
                    _ => (0, 0),
                };
                if code != 0 {
                    self.phase = TismPhase::Done;
                    finish(p, Err(TismError::Os(code)))
                } else {
                    self.phase = TismPhase::AwaitCopy { fd, len };
                    TismAction::CopyAndUnlock
                }
            },
            TismEvent::Copied { payload, unlock_code } => {
                self.phase = TismPhase::Done;
                if unlock_code != 0 {
                    finish(p, Err(TismError::Os(unlock_code)))
                } else {
                    finish(p, Ok(payload))
                }
            },
        }
    }
}

// ---------------------------------------------------------------------------
// Laws of the reader
// ---------------------------------------------------------------------------

/// When a read ends, it releases exactly what it holds: it closes the
/// descriptor it opened, if any, unmaps the allocation it mapped, if any, and
/// afterwards holds nothing.
pub proof fn law_finish_releases_everything(p: TismPhase, overhead: usize, e: EventView)
    requires
        event_fits(p, e),
    ensures
        advance_spec(p, overhead, e).1 matches ActionView::Finish { close_fd, unmap_len, .. } ==> {
            &&& close_fd == held_fd(p)
            &&& unmap_len == held_mapping(p)
            &&& advance_spec(p, overhead, e).0 == TismPhase::Done
        },
        held_fd(TismPhase::Done) is None,
        held_mapping(TismPhase::Done) is None,
{
}

/// A step that does not end the read drops nothing it holds: the descriptor
/// and the mapping stay held until the read finishes.
pub proof fn law_no_resource_dropped_midway(p: TismPhase, overhead: usize, e: EventView)
    requires
        event_fits(p, e),
        !(advance_spec(p, overhead, e).1 is Finish),
    ensures
        held_fd(p) is Some ==> held_fd(advance_spec(p, overhead, e).0) == held_fd(p),
        held_mapping(p) is Some ==> held_mapping(advance_spec(p, overhead, e).0) == held_mapping(p),
        !(advance_spec(p, overhead, e).0 is Done),
{
}

/// The read lock is only taken on an allocation of the expected major
/// version whose publisher is alive.
pub proof fn law_lock_only_after_checks(p: TismPhase, overhead: usize, e: EventView)
    requires
        event_fits(p, e),
        advance_spec(p, overhead, e).1 is Lock,
    ensures
        e matches EventView::Inspected { major_version, is_zombie } && major_version == TISM_MAJOR_VERSION
            && !is_zombie,
{
}

/// A read succeeds only with the payload copied under a lock that was both
/// taken and released without error.
pub proof fn law_success_only_from_clean_copy(p: TismPhase, overhead: usize, e: EventView)
    requires
        event_fits(p, e),
        advance_spec(p, overhead, e).1 matches ActionView::Finish { result, .. } && result is Ok,
    ensures
        p is AwaitCopy,
        e matches EventView::Copied { payload, unlock_code } && unlock_code == 0
            && advance_spec(p, overhead, e).1 == finish_from(p, Ok(payload)),
{
}

/// The allocation is mapped with the header overhead plus the advertised
/// data size, never with a length that overflowed.
pub proof fn law_mapping_covers_data(p: TismPhase, overhead: usize, e: EventView)
    requires
        event_fits(p, e),
        advance_spec(p, overhead, e).1 is MapAllocation,
    ensures
        e matches EventView::HeaderRead(r) && r matches Ok(data_size) && advance_spec(p, overhead, e).1
            == (ActionView::MapAllocation { fd: held_fd(p)->0, len: (overhead + data_size) as usize })
            && overhead + data_size <= usize::MAX,
{
}

/// Reading the header maps the allocation whenever its length fits: after
/// the data size `d` is read, the allocation of `overhead + d` bytes is
/// mapped from the same descriptor, for every `d` with `overhead + d` within
/// `usize`, large payloads included. The read fails for its size only when
/// that length does not fit.
pub proof fn law_header_maps_allocation(fd: i32, overhead: usize, d: usize)
    ensures
        overhead + d <= usize::MAX ==> advance_spec(
            TismPhase::AwaitHeader { fd },
            overhead,
            EventView::HeaderRead(Ok(d)),
        ) == (
            TismPhase::AwaitMapping { fd, len: (overhead + d) as usize },
            ActionView::MapAllocation { fd, len: (overhead + d) as usize },
        ),
        overhead + d > usize::MAX ==> advance_spec(
            TismPhase::AwaitHeader { fd },
            overhead,
            EventView::HeaderRead(Ok(d)),
        ).1 == (ActionView::Finish { close_fd: Some(fd), unmap_len: None, result: Err(TismError::SizeOverflow) }),
{
}

/// A size error comes only from a header whose data size does not fit in
/// the address space together with the overhead.
pub proof fn law_size_error_only_on_overflow(p: TismPhase, overhead: usize, e: EventView)
    requires
        event_fits(p, e),
        advance_spec(p, overhead, e).1 matches ActionView::Finish { result, .. } && result == Err::<Seq<u8>, TismError>(
            TismError::SizeOverflow,
        ),
    ensures
        e matches EventView::HeaderRead(r) && r matches Ok(d) && overhead + d > usize::MAX,
{
}

/// A read in which every step succeeds returns the payload copied under the
/// lock, closes the descriptor it opened and unmaps the `overhead + d` bytes
/// it mapped, whatever the payload's size `d`, as long as the mapping's
/// length fits.
pub proof fn law_clean_read_returns_payload(
    fd: i32,
    overhead: usize,
    d: usize,
    payload: Seq<u8>,
)
    requires
        fd >= 0,
        overhead + d <= usize::MAX,
    ensures
        ({
            let len = (overhead + d) as usize;
            let s1 = advance_spec(TismPhase::AwaitOpen, overhead, EventView::Opened { fd, errno: 0 });
            let s2 = advance_spec(s1.0, overhead, EventView::HeaderRead(Ok(d)));
            let s3 = advance_spec(s2.0, overhead, EventView::AllocationMapped(Ok(())));
            let s4 = advance_spec(
                s3.0,
                overhead,
                EventView::Inspected { major_version: TISM_MAJOR_VERSION, is_zombie: false },
            );
            let s5 = advance_spec(s4.0, overhead, EventView::Locked { code: 0 });
            let s6 = advance_spec(s5.0, overhead, EventView::Copied { payload, unlock_code: 0 });
            &&& s1.1 == ActionView::MapHeader { fd }
            &&& s2.1 == ActionView::MapAllocation { fd, len }
            &&& s3.1 == ActionView::Inspect
            &&& s4.1 == ActionView::Lock
            &&& s5.1 == ActionView::CopyAndUnlock
            &&& s6.1 == (ActionView::Finish { close_fd: Some(fd), unmap_len: Some(len), result: Ok(payload) })
            &&& s6.0 == TismPhase::Done
        }),
{
}

} // verus!
