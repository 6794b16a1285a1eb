//! Lifecycle state machine around the worker handle.
//!
//! The controller owns the worker handle exclusively.  Every operation that
//! hands the handle into a blocking or fallible engine call first moves it out
//! of the externally visible slot, leaving the `Empty` placeholder, and
//! restores a well-defined state (`Running` or `Finished`) on every exit path.
//! The transition relations below state, per operation, exactly which states
//! and results can come out of which states; the public lemmas at the end
//! prove the cross-operation laws (one extraction per job, abort always
//! settles the job, polling a settled job changes nothing).

use vstd::prelude::*;

use crate::engine;
use crate::engine::WaitOutcome;
use crate::error::ControlError;
use crate::progress::ProgressType;
use crate::settings::{PyNutsSettings, Settings};

verus! {

/// Milliseconds one `is_finished` poll blocks for.
pub const POLL_SLICE_MS: u64 = 1;

/// Milliseconds of one bounded `wait` slice; the interrupt flag is re-checked
/// between slices.
pub const WAIT_SLICE_MS: u64 = 100;

/// The lifecycle states of one sampling job.
pub enum SamplerState {
    /// The worker runs; the controller exclusively owns its handle.
    Running(nuts_rs::Sampler),
    /// The worker's threads have joined; `Some` holds the per-chain outputs in
    /// chain start order, `None` means the job failed before producing output.
    Finished(Option<Vec<nuts_rs::ChainOutput>>),
    /// Placeholder while an operation holds the handle, and after extraction.
    Empty,
}

/// An externally set cancellation signal, polled between `wait` slices.
/// Cloning shares the flag, so another part of the host can raise it while a
/// `wait` is in progress.
#[derive(Clone)]
pub struct InterruptFlag {
    flag: std::sync::Arc<core::sync::atomic::AtomicBool>,
}

impl InterruptFlag {
    /// A fresh, unraised flag.
    pub fn new() -> InterruptFlag {
        InterruptFlag {
            flag: std::sync::Arc::new(core::sync::atomic::AtomicBool::new(false)),
        }
    }

    /// Raise the flag; a `wait` observing it fails with an interruption error.
    pub fn raise(&self) {
        self.flag.store(true, core::sync::atomic::Ordering::Relaxed);
    }

    /// Lower the flag again.
    pub fn clear(&self) {
        self.flag.store(false, core::sync::atomic::Ordering::Relaxed);
    }

    /// Whether the flag is currently raised.  The flag is shared, so nothing
    /// is promised of the value: a `wait` states only what it does for either
    /// answer.
    pub fn is_raised(&self) -> bool {
        self.flag.load(core::sync::atomic::Ordering::Relaxed)
    }
}

/// The sampler controller: one background job and its lifecycle state.
pub struct PySampler {
    pub state: SamplerState,
}

/// What `is_finished` (a bounded poll) may do: a settled or empty controller
/// is left untouched and reports `true`; a running one either finishes with a
/// trace (`true`), stays running (`false`), or surfaces a worker failure and
/// settles with whatever was salvaged.
pub open spec fn poll_transition(
    pre: SamplerState,
    post: SamplerState,
    r: Result<bool, ControlError>,
) -> bool {
    if !(pre is Running) {
        &&& post == pre
        &&& r == Ok::<bool, ControlError>(true)
    } else {
        match r {
            Ok(true) => post matches SamplerState::Finished(t) && t is Some,
            Ok(false) => post is Running,
            Err(e) => e matches ControlError::Worker(_) && post is Finished,
        }
    }
}

/// What `wait` may do: a settled or empty controller is left untouched and the
/// call succeeds; a running one either finishes with a trace, stays running
/// under a timeout (only if one was given) or an interruption, or surfaces a
/// worker failure and settles with whatever was salvaged.
pub open spec fn wait_transition(
    pre: SamplerState,
    post: SamplerState,
    timeout_ms: Option<u64>,
    r: Result<(), ControlError>,
) -> bool {
    if !(pre is Running) {
        &&& post == pre
        &&& r == Ok::<(), ControlError>(())
    } else {
        match r {
            Ok(_) => post matches SamplerState::Finished(t) && t is Some,
            Err(ControlError::Timeout) => post is Running && timeout_ms is Some,
            Err(ControlError::Interrupted) => post is Running,
            Err(ControlError::Worker(_)) => post is Finished,
            Err(_) => false,
        }
    }
}

/// What `abort` may do: a settled or empty controller is left untouched and
/// the call succeeds; a running job always settles to `Finished`, carrying the
/// worker's own stop result.
pub open spec fn abort_transition(
    pre: SamplerState,
    post: SamplerState,
    r: Result<(), ControlError>,
) -> bool {
    if !(pre is Running) {
        &&& post == pre
        &&& r == Ok::<(), ControlError>(())
    } else {
        &&& post is Finished
        &&& (r is Ok || r matches Err(ControlError::Worker(_)))
    }
}

/// What `pause` and `resume` may do: a running job stays running and the
/// worker may reject the request; anything else is an untouched no-op.
pub open spec fn pause_resume_transition(
    pre: SamplerState,
    post: SamplerState,
    r: Result<(), ControlError>,
) -> bool {
    if !(pre is Running) {
        &&& post == pre
        &&& r == Ok::<(), ControlError>(())
    } else {
        &&& post is Running
        &&& (r is Ok || r matches Err(ControlError::Worker(_)))
    }
}

/// What `extract_results` does, exactly: a finished job with a trace hands the
/// trace over (in chain start order, unchanged) and leaves nothing behind; a
/// finished job without a trace reports that and likewise leaves nothing; any
/// other state is untouched and refused.
pub open spec fn extract_transition(
    pre: SamplerState,
    post: SamplerState,
    r: Result<Vec<nuts_rs::ChainOutput>, ControlError>,
) -> bool {
    match pre {
        SamplerState::Finished(Some(chains)) => {
            &&& r == Ok::<Vec<nuts_rs::ChainOutput>, ControlError>(chains)
            &&& post is Empty
        },
        SamplerState::Finished(None) => {
            &&& r == Err::<Vec<nuts_rs::ChainOutput>, ControlError>(ControlError::NoTrace)
            &&& post is Empty
        },
        _ => {
            &&& post == pre
            &&& r == Err::<Vec<nuts_rs::ChainOutput>, ControlError>(ControlError::NotFinished)
        },
    }
}

/// What `inspect` may do: a running job stays running and yields a snapshot
/// unless the worker fails to answer; anything else is untouched and refused.
pub open spec fn inspect_transition(
    pre: SamplerState,
    post: SamplerState,
    r: Result<Vec<nuts_rs::ChainOutput>, ControlError>,
) -> bool {
    if !(pre is Running) {
        &&& post == pre
        &&& r == Err::<Vec<nuts_rs::ChainOutput>, ControlError>(ControlError::NotRunning)
    } else {
        &&& post is Running
        &&& (r is Ok || r matches Err(ControlError::Worker(_)))
    }
}

/// Move the state out of the slot, leaving the `Empty` placeholder.
fn take_state(slot: &mut SamplerState) -> (r: SamplerState)
    ensures
        r == *old(slot),
        *final(slot) is Empty,
{
    let mut taken = SamplerState::Empty;
    core::mem::swap(&mut taken, slot);
    taken
}

impl PySampler {
    /// Start a sampling job: convert the progress strategy into the engine's
    /// callback, start the worker with `cores` threads, and enter `Running`.
    /// Fails only if the engine refuses to start; a startup failure the engine
    /// detects asynchronously surfaces through the first poll, wait or abort.
    pub fn from_model<M: nuts_rs::Model>(
        settings: &PyNutsSettings,
        cores: usize,
        model: M,
        progress_type: ProgressType,
    ) -> (r: Result<PySampler, ControlError>)
        ensures
            match r {
                Ok(s) => s.state is Running,
                Err(e) => e matches ControlError::Start(_),
            },
    {
        let callback = progress_type.into_callback();
        let started: Result<nuts_rs::Sampler, String> = match &settings.inner {
            Settings::Diag(opts) => {
                let mut engine_settings = engine::diag_engine_settings(opts);
                engine::diag_engine_adapt(&mut engine_settings, opts);
                engine::spawn_sampler(model, engine_settings, cores, callback)
            },
            Settings::LowRank(opts) => {
                let mut engine_settings = engine::low_rank_engine_settings(opts);
                engine::low_rank_engine_adapt(&mut engine_settings, opts);
                engine::spawn_sampler(model, engine_settings, cores, callback)
            },
            Settings::Transforming(opts) => {
                let engine_settings = engine::transform_engine_settings(opts);
                engine::spawn_sampler(model, engine_settings, cores, callback)
            },
        };
        match started {
            Ok(sampler) => Ok(PySampler { state: SamplerState::Running(sampler) }),
            Err(msg) => Err(ControlError::Start(msg)),
        }
    }

    /// True only in the transient placeholder state (or after extraction);
    /// false while `Running` or `Finished`.
    pub fn is_empty(&self) -> (r: bool)
        ensures
            r == (self.state is Empty),
    {
        match self.state {
            SamplerState::Empty => true,
            _ => false,
        }
    }

    /// Poll for completion: settled and empty jobs report `true` immediately
    /// and are untouched; a running job is checked for one short slice.
    pub fn is_finished(&mut self) -> (r: Result<bool, ControlError>)
        ensures
            poll_transition(old(self).state, final(self).state, r),
    {
        let state = take_state(&mut self.state);
        let control = match state {
            SamplerState::Running(control) => control,
            other => {
                self.state = other;
                return Ok(true);
            },
        };
        match engine::engine_wait_timeout(control, POLL_SLICE_MS) {
            WaitOutcome::Completed(chains) => {
                self.state = SamplerState::Finished(Some(chains));
                Ok(true)
            },
            WaitOutcome::TimedOut(control) => {
                self.state = SamplerState::Running(control);
                Ok(false)
            },
            WaitOutcome::Failed(msg, chains) => {
                self.state = SamplerState::Finished(chains);
                Err(ControlError::Worker(msg))
            },
        }
    }

    /// Ask the worker to pause a running job; a no-op on anything else.
    pub fn pause(&mut self) -> (r: Result<(), ControlError>)
        ensures
            pause_resume_transition(old(self).state, final(self).state, r),
    {
        let state = take_state(&mut self.state);
        match state {
            SamplerState::Running(mut control) => {
                let res = engine::engine_pause(&mut control);
                self.state = SamplerState::Running(control);
                match res {
                    Ok(_) => Ok(()),
                    Err(msg) => Err(ControlError::Worker(msg)),
                }
            },
            other => {
                self.state = other;
                Ok(())
            },
        }
    }

    /// Ask the worker to resume a paused job; a no-op on anything else.
    pub fn resume(&mut self) -> (r: Result<(), ControlError>)
        ensures
            pause_resume_transition(old(self).state, final(self).state, r),
    {
        let state = take_state(&mut self.state);
        match state {
            SamplerState::Running(mut control) => {
                let res = engine::engine_resume(&mut control);
                self.state = SamplerState::Running(control);
                match res {
                    Ok(_) => Ok(()),
                    Err(msg) => Err(ControlError::Worker(msg)),
                }
            },
            other => {
                self.state = other;
                Ok(())
            },
        }
    }

    /// Wait until the job completes, the optional timeout elapses, or the
    /// interrupt flag is observed between bounded slices.  Timeout and
    /// interruption leave the job running; they stop only this wait.  The wait
    /// makes a bounded (astronomically large) number of slice attempts; if
    /// they are ever exhausted it likewise stops only itself, reporting an
    /// interruption.
    pub fn wait(&mut self, timeout_ms: Option<u64>, interrupt: &InterruptFlag) -> (r: Result<
        (),
        ControlError,
    >)
        ensures
            wait_transition(old(self).state, final(self).state, timeout_ms, r),
    {
        let state = take_state(&mut self.state);
        let mut control = match state {
            SamplerState::Running(control) => control,
            other => {
                self.state = other;
                return Ok(());
            },
        };
        let start = engine::clock_now();
        let mut fuel: u64 = u64::MAX;
        loop
            invariant
                old(self).state is Running,
            decreases fuel,
        {
            if fuel == 0 {
                self.state = SamplerState::Running(control);
                return Err(ControlError::Interrupted);
            }
            fuel = fuel - 1;
            let elapsed = engine::elapsed_ms(&start);
            let slice: u64 = match timeout_ms {
                Some(budget) => {
                    if elapsed > budget {
                        self.state = SamplerState::Running(control);
                        return Err(ControlError::Timeout);
                    }
                    let remaining = budget - elapsed;
                    if remaining < WAIT_SLICE_MS {
                        remaining
                    } else {
                        WAIT_SLICE_MS
                    }
                },
                None => WAIT_SLICE_MS,
            };
            match engine::engine_wait_timeout(control, slice) {
                WaitOutcome::Completed(chains) => {
                    self.state = SamplerState::Finished(Some(chains));
                    return Ok(());
                },
                WaitOutcome::TimedOut(still_running) => {
                    control = still_running;
                },
                WaitOutcome::Failed(msg, chains) => {
                    self.state = SamplerState::Finished(chains);
                    return Err(ControlError::Worker(msg));
                },
            }
            if interrupt.is_raised() {
                self.state = SamplerState::Running(control);
                return Err(ControlError::Interrupted);
            }
        }
    }

    /// Stop a running job: request the stop, join the worker's threads, settle
    /// to `Finished` with whatever the worker produced, and report the
    /// worker's own stop result.  A no-op on anything else.
    pub fn abort(&mut self) -> (r: Result<(), ControlError>)
        ensures
            abort_transition(old(self).state, final(self).state, r),
    {
        let state = take_state(&mut self.state);
        let control = match state {
            SamplerState::Running(control) => control,
            other => {
                self.state = other;
                return Ok(());
            },
        };
        let (result, chains) = engine::engine_abort(control);
        self.state = SamplerState::Finished(chains);
        match result {
            Ok(_) => Ok(()),
            Err(msg) => Err(ControlError::Worker(msg)),
        }
    }

    /// Hand the finished job's per-chain outputs to the caller, once: fails
    /// with a state mismatch while running or after a previous extraction, and
    /// with a no-output error if the job failed before producing a trace.
    pub fn extract_results(&mut self) -> (r: Result<Vec<nuts_rs::ChainOutput>, ControlError>)
        ensures
            extract_transition(old(self).state, final(self).state, r),
    {
        let state = take_state(&mut self.state);
        match state {
            SamplerState::Finished(Some(chains)) => Ok(chains),
            SamplerState::Finished(None) => Err(ControlError::NoTrace),
            other => {
                self.state = other;
                Err(ControlError::NotFinished)
            },
        }
    }

    /// Take a momentary, non-destructive snapshot of the running job's
    /// in-progress chains; fails on a job that is not running.
    pub fn inspect(&mut self) -> (r: Result<Vec<nuts_rs::ChainOutput>, ControlError>)
        ensures
            inspect_transition(old(self).state, final(self).state, r),
    {
        let state = take_state(&mut self.state);
        match state {
            SamplerState::Running(mut control) => {
                let res = engine::engine_inspect(&mut control);
                self.state = SamplerState::Running(control);
                match res {
                    Ok(chains) => Ok(chains),
                    Err(msg) => Err(ControlError::Worker(msg)),
                }
            },
            other => {
                self.state = other;
                Err(ControlError::NotRunning)
            },
        }
    }
}

/// Extraction succeeds at most once: after an extraction attempt on a finished
/// job (successful or not), nothing is left, and any further extraction fails
/// with the state-mismatch error while leaving the controller unchanged.
pub proof fn lemma_extract_at_most_once(
    s1: SamplerState,
    s2: SamplerState,
    s3: SamplerState,
    r1: Result<Vec<nuts_rs::ChainOutput>, ControlError>,
    r2: Result<Vec<nuts_rs::ChainOutput>, ControlError>,
)
    requires
        s1 is Finished,
        extract_transition(s1, s2, r1),
        extract_transition(s2, s3, r2),
    ensures
        s3 == s2,
        r2 == Err::<Vec<nuts_rs::ChainOutput>, ControlError>(ControlError::NotFinished),
{
}

/// Aborting a running job always settles it, and a following extraction either
/// hands over the (possibly partial) trace or reports that no output was
/// produced — it can never report a state mismatch.
pub proof fn lemma_abort_then_extract(
    s1: SamplerState,
    s2: SamplerState,
    s3: SamplerState,
    r1: Result<(), ControlError>,
    r2: Result<Vec<nuts_rs::ChainOutput>, ControlError>,
)
    requires
        s1 is Running,
        abort_transition(s1, s2, r1),
        extract_transition(s2, s3, r2),
    ensures
        s2 is Finished,
        r2 is Ok || r2 == Err::<Vec<nuts_rs::ChainOutput>, ControlError>(ControlError::NoTrace),
{
}

/// Polling is idempotent on a settled or never-started job: any number of
/// repeated polls keeps answering `true` without ever changing the state.
pub proof fn lemma_poll_idempotent_when_settled(
    s1: SamplerState,
    s2: SamplerState,
    s3: SamplerState,
    r1: Result<bool, ControlError>,
    r2: Result<bool, ControlError>,
)
    requires
        !(s1 is Running),
        poll_transition(s1, s2, r1),
        poll_transition(s2, s3, r2),
    ensures
        s2 == s1,
        s3 == s1,
        r1 == Ok::<bool, ControlError>(true),
        r2 == Ok::<bool, ControlError>(true),
{
}

/// A wait that completes a running job leaves a trace behind, and that trace
/// is extractable: the extraction succeeds and consumes it.
pub proof fn lemma_completed_wait_yields_extractable_trace(
    s1: SamplerState,
    s2: SamplerState,
    s3: SamplerState,
    timeout_ms: Option<u64>,
    r1: Result<(), ControlError>,
    r2: Result<Vec<nuts_rs::ChainOutput>, ControlError>,
)
    requires
        s1 is Running,
        wait_transition(s1, s2, timeout_ms, r1),
        r1 is Ok,
        extract_transition(s2, s3, r2),
    ensures
        r2 is Ok,
        s3 is Empty,
{
}

/// Extraction hands the stored per-chain outputs over exactly as they stand —
/// the same chains, in the same order.  The engine's wrappers hand chains over
/// in start order, so the order is preserved end-to-end.
pub proof fn lemma_extract_returns_stored_chains(
    chains: Vec<nuts_rs::ChainOutput>,
    s2: SamplerState,
    r: Result<Vec<nuts_rs::ChainOutput>, ControlError>,
)
    requires
        extract_transition(SamplerState::Finished(Some(chains)), s2, r),
    ensures
        r == Ok::<Vec<nuts_rs::ChainOutput>, ControlError>(chains),
        s2 is Empty,
{
}

/// A wait that fails with a timeout or an interruption leaves the job running,
/// so a later unbounded wait of the same job is still meaningful: it can only
/// end in completion with a trace or a worker failure, never a timeout.
pub proof fn lemma_failed_wait_keeps_job(
    s1: SamplerState,
    s2: SamplerState,
    s3: SamplerState,
    timeout_ms: Option<u64>,
    r1: Result<(), ControlError>,
    r2: Result<(), ControlError>,
)
    requires
        s1 is Running,
        r1 == Err::<(), ControlError>(ControlError::Timeout) || r1 == Err::<(), ControlError>(
            ControlError::Interrupted,
        ),
        wait_transition(s1, s2, timeout_ms, r1),
        wait_transition(s2, s3, None, r2),
    ensures
        s2 is Running,
        r2 != Err::<(), ControlError>(ControlError::Timeout),
        r2 is Ok ==> (s3 matches SamplerState::Finished(t) && t is Some),
{
}

} // verus!
