//! The capture worker's decisions. The worker polls its control channel once
//! per iteration, applies the signal it found, and then writes one frame,
//! skips the frame, or finalizes the artifact and exits.

use vstd::prelude::*;

verus! {

/// A control signal sent from the controller to the capture worker.
#[derive(Debug, Clone, Copy, PartialEq, Eq, Structural)]
pub enum Cmd {
    Pause,
    Resume,
    Stop,
}

/// What the worker knows of itself between iterations.
#[derive(Debug, Clone, Copy, PartialEq, Eq, Structural)]
pub struct WorkerState {
    pub paused: bool,
    pub running: bool,
}

/// What the worker does with the rest of an iteration.
#[derive(Debug, Clone, Copy, PartialEq, Eq, Structural)]
pub enum FrameAction {
    WriteFrame,
    Skip,
    Finalize,
}

/// The fixed format of every artifact.
#[derive(Debug, Clone, Copy, PartialEq, Eq, Structural)]
pub struct AudioFormat {
    pub channels: u16,
    pub sample_rate: u32,
    pub bits_per_sample: u16,
}

/// A worker that has just been spawned: running and not paused.
pub open spec fn fresh_worker() -> WorkerState {
    WorkerState { paused: false, running: true }
}

/// The worker's state once it has consumed `c`.
pub open spec fn apply_signal(w: WorkerState, c: Cmd) -> WorkerState {
    match c {
        Cmd::Pause => WorkerState { paused: true, ..w },
        Cmd::Resume => WorkerState { paused: false, ..w },
        Cmd::Stop => WorkerState { running: false, ..w },
    }
}

/// The worker's state after an iteration that polled `polled`.
pub open spec fn after_poll(w: WorkerState, polled: Option<Cmd>) -> WorkerState {
    match polled {
        Some(c) => apply_signal(w, c),
        None => w,
    }
}

/// What an iteration does once the worker's state is `w`.
pub open spec fn frame_action(w: WorkerState) -> FrameAction {
    if !w.running {
        FrameAction::Finalize
    } else if w.paused {
        FrameAction::Skip
    } else {
        FrameAction::WriteFrame
    }
}

/// The worker's state after it has consumed `signals` in order; a worker that
/// has exited consumes nothing more.
pub open spec fn run_signals(w: WorkerState, signals: Seq<Cmd>) -> WorkerState
    decreases signals.len(),
{
    if signals.len() == 0 {
        w
    } else {
        let before = run_signals(w, signals.drop_last());
        if before.running {
            apply_signal(before, signals.last())
        } else {
            before
        }
    }
}

impl WorkerState {
    /// The state of a freshly spawned worker.
    pub fn new() -> (r: WorkerState)
        ensures
            r == fresh_worker(),
    {
        WorkerState { paused: false, running: true }
    }
}

/// One iteration of the worker: the signal it polled, if any, is applied, and
/// the returned action says whether to write a frame, skip it, or finalize the
/// artifact and exit.
pub fn worker_step(w: WorkerState, polled: Option<Cmd>) -> (r: (WorkerState, FrameAction))
    requires
        w.running,
    ensures
        r.0 == after_poll(w, polled),
        r.1 == frame_action(r.0),
{
    let next = match polled {
        Some(Cmd::Pause) => WorkerState { paused: true, ..w },
        Some(Cmd::Resume) => WorkerState { paused: false, ..w },
        Some(Cmd::Stop) => WorkerState { running: false, ..w },
        None => w,
    };
    let action = if !next.running {
        FrameAction::Finalize
    } else if next.paused {
        FrameAction::Skip
    } else {
        FrameAction::WriteFrame
    };
    (next, action)
}

/// The format of every artifact: one channel of 16-bit signed samples at
/// 16 kHz.
pub fn artifact_format() -> (r: AudioFormat)
    ensures
        r.channels == 1,
        r.sample_rate == 16000,
        r.bits_per_sample == 16,
{
    AudioFormat { channels: 1, sample_rate: 16000, bits_per_sample: 16 }
}

/// A worker keeps running exactly until it has consumed a `Stop`: signals sent
/// before the first `Stop` are all applied while it runs.
pub proof fn lemma_runs_until_stop(signals: Seq<Cmd>)
    ensures
        run_signals(fresh_worker(), signals).running <==> !signals.contains(Cmd::Stop),
    decreases signals.len(),
{
    if signals.len() > 0 {
        let init = signals.drop_last();
        lemma_runs_until_stop(init);
        if init.contains(Cmd::Stop) {
            let i = choose|i: int| 0 <= i < init.len() && init[i] == Cmd::Stop;
            assert(signals[i] == Cmd::Stop);
        }
        if signals.contains(Cmd::Stop) && signals.last() != Cmd::Stop {
            let i = choose|i: int| 0 <= i < signals.len() && signals[i] == Cmd::Stop;
            assert(init[i] == Cmd::Stop);
        }
    }
}

/// Signals take effect in the order they were sent: after `Pause`, `Resume`,
/// `Stop` the worker was paused, then recording again, and only then exits.
pub proof fn lemma_pause_resume_stop_order()
    ensures
        run_signals(fresh_worker(), seq![Cmd::Pause]) == (WorkerState { paused: true, running: true }),
        run_signals(fresh_worker(), seq![Cmd::Pause, Cmd::Resume]) == fresh_worker(),
        run_signals(fresh_worker(), seq![Cmd::Pause, Cmd::Resume, Cmd::Stop]) == (WorkerState {
            paused: false,
            running: false,
        }),
{
    let s1 = seq![Cmd::Pause];
    let s2 = seq![Cmd::Pause, Cmd::Resume];
    let s3 = seq![Cmd::Pause, Cmd::Resume, Cmd::Stop];
    assert(s1.drop_last() =~= Seq::<Cmd>::empty());
    assert(s2.drop_last() =~= s1);
    assert(s3.drop_last() =~= s2);
    let w0 = run_signals(fresh_worker(), Seq::<Cmd>::empty());
    assert(w0 == fresh_worker());
    assert(run_signals(fresh_worker(), s1) == apply_signal(w0, Cmd::Pause));
    let w1 = run_signals(fresh_worker(), s1);
    assert(run_signals(fresh_worker(), s2) == apply_signal(w1, Cmd::Resume));
    let w2 = run_signals(fresh_worker(), s2);
    assert(run_signals(fresh_worker(), s3) == apply_signal(w2, Cmd::Stop));
}

} // verus!
