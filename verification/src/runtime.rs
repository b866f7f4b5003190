use vstd::prelude::*;

use crate::error::{BridgeError, ErrorView};

verus! {

/// How the bridge stopped running: on Ctrl-C, or because a channel worker
/// ended with this result.
pub enum BridgeOutcome {
    Shutdown,
    Worker(Result<(), BridgeError>),
}

pub open spec fn unit_view(r: Result<(), BridgeError>) -> Result<(), ErrorView> {
    match r {
        Ok(()) => Ok(()),
        Err(e) => Err(e@),
    }
}

/// The outcome when Ctrl-C was awaited first: a failure to listen for the
/// signal is returned at once as [`BridgeError::Io`].
pub fn outcome_from_signal(signal: Result<(), std::io::Error>) -> (res: Result<BridgeOutcome, BridgeError>)
    ensures
        signal is Ok <==> res matches Ok(BridgeOutcome::Shutdown),
        signal is Err <==> (res matches Err(e) && e@ == ErrorView::Io),
{
    match signal {
        Ok(()) => Ok(BridgeOutcome::Shutdown),
        Err(e) => Err(BridgeError::Io(e)),
    }
}

/// The outcome when a worker finished first: its result, a failure to join
/// it returned at once as [`BridgeError::Join`], or success when no worker
/// was left.
pub fn outcome_from_join(joined: Option<Result<Result<(), BridgeError>, tokio::task::JoinError>>) -> (res: Result<
    BridgeOutcome,
    BridgeError,
>)
    ensures
        match joined {
            None => res matches Ok(BridgeOutcome::Worker(r)) && r is Ok,
            Some(Ok(worker)) => res matches Ok(BridgeOutcome::Worker(r)) && unit_view(r) == unit_view(worker),
            Some(Err(_)) => res matches Err(e) && e@ == ErrorView::Join,
        },
{
    match joined {
        None => Ok(BridgeOutcome::Worker(Ok(()))),
        Some(Ok(worker)) => Ok(BridgeOutcome::Worker(worker)),
        Some(Err(e)) => Err(BridgeError::Join(e)),
    }
}

/// What the bridge returns once it has stopped: success after Ctrl-C, the
/// worker's result otherwise.
pub fn bridge_result(outcome: BridgeOutcome) -> (res: Result<(), BridgeError>)
    ensures
        match outcome {
            BridgeOutcome::Shutdown => res is Ok,
            BridgeOutcome::Worker(r) => unit_view(res) == unit_view(r),
        },
{
    match outcome {
        BridgeOutcome::Shutdown => Ok(()),
        BridgeOutcome::Worker(r) => r,
    }
}

/// The longest single sleep, in nanoseconds (fifty milliseconds), between
/// two looks at the shutdown flag.
pub const SLEEP_SLICE_NANOS: u64 = 50_000_000;

/// A sleep cut into slices so that a shutdown is noticed within one slice.
pub struct SleepPlan {
    pub remaining_nanos: u128,
}

impl SleepPlan {
    /// A plan to sleep `nanos` nanoseconds.
    pub fn new(nanos: u128) -> (p: SleepPlan)
        ensures
            p.remaining_nanos == nanos,
    {
        SleepPlan { remaining_nanos: nanos }
    }

    /// The next slice to sleep, if any time is left: the remaining time, but
    /// at most [`SLEEP_SLICE_NANOS`].
    pub fn next_slice(&mut self) -> (step: Option<u64>)
        ensures
            old(self).remaining_nanos == 0 <==> step is None,
            step matches Some(n) ==> 0 < n <= SLEEP_SLICE_NANOS && n <= old(self).remaining_nanos
                && final(self).remaining_nanos == old(self).remaining_nanos - n
                && (n == SLEEP_SLICE_NANOS || n == old(self).remaining_nanos),
            step is None ==> final(self).remaining_nanos == 0,
            final(self).remaining_nanos == (if old(self).remaining_nanos < SLEEP_SLICE_NANOS {
                0
            } else {
                old(self).remaining_nanos - SLEEP_SLICE_NANOS
            }),
    {
        if self.remaining_nanos == 0 {
            return None;
        }
        let step: u64 = if self.remaining_nanos < SLEEP_SLICE_NANOS as u128 {
            self.remaining_nanos as u64
        } else {
            SLEEP_SLICE_NANOS
        };
        self.remaining_nanos = self.remaining_nanos - step as u128;
        Some(step)
    }
}

/// The time left after sleeping `k` slices of a sleep of `total`
/// nanoseconds, slice by slice as [`SleepPlan::next_slice`] takes them.
pub open spec fn left_after(total: int, k: nat) -> int
    decreases k,
{
    if k == 0 {
        total
    } else {
        let r = left_after(total, (k - 1) as nat);
        if r < SLEEP_SLICE_NANOS { 0 } else { r - SLEEP_SLICE_NANOS }
    }
}

/// A sleep cut into slices sleeps exactly as long as asked, unless a
/// shutdown cuts it short: after `k` slices, `k` full slices have been slept
/// or the whole sleep is over.
pub proof fn law_slices_add_up(total: int, k: nat)
    requires
        total >= 0,
    ensures
        left_after(total, k) == (if total - k * SLEEP_SLICE_NANOS > 0 { total - k * SLEEP_SLICE_NANOS } else { 0 }),
    decreases k,
{
    if k > 0 {
        law_slices_add_up(total, (k - 1) as nat);
        assert(k * SLEEP_SLICE_NANOS == (k - 1) * SLEEP_SLICE_NANOS + SLEEP_SLICE_NANOS) by (nonlinear_arith);
    }
}

} // verus!
