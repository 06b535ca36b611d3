use applesauce::worker::artifact_format;
use applesauce::{worker_step, Cmd, FrameAction, WorkerState};

#[test]
fn fresh_worker_writes_frames() {
    let w = WorkerState::new();
    assert!(w.running && !w.paused);
    let (w2, a) = worker_step(w, None);
    assert_eq!(w2, w);
    assert_eq!(a, FrameAction::WriteFrame);
}

#[test]
fn paused_worker_skips_frames_until_resumed() {
    let (w, a) = worker_step(WorkerState::new(), Some(Cmd::Pause));
    assert!(w.paused && w.running);
    assert_eq!(a, FrameAction::Skip);
    let (w, a) = worker_step(w, None);
    assert_eq!(a, FrameAction::Skip);
    let (w, a) = worker_step(w, Some(Cmd::Resume));
    assert!(!w.paused && w.running);
    assert_eq!(a, FrameAction::WriteFrame);
}

#[test]
fn stop_finalizes_even_when_paused() {
    let (w, _) = worker_step(WorkerState::new(), Some(Cmd::Pause));
    let (w, a) = worker_step(w, Some(Cmd::Stop));
    assert!(!w.running);
    assert_eq!(a, FrameAction::Finalize);
}

#[test]
fn pause_resume_stop_take_effect_in_order() {
    let mut w = WorkerState::new();
    let mut actions = Vec::new();
    for c in [Cmd::Pause, Cmd::Resume, Cmd::Stop] {
        let (next, a) = worker_step(w, Some(c));
        w = next;
        actions.push(a);
    }
    assert_eq!(actions, vec![FrameAction::Skip, FrameAction::WriteFrame, FrameAction::Finalize]);
}

#[test]
fn artifact_format_is_mono_16_bit_16_khz() {
    let f = artifact_format();
    assert_eq!(f.channels, 1);
    assert_eq!(f.sample_rate, 16000);
    assert_eq!(f.bits_per_sample, 16);
}
