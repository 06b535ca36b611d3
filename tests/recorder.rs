use applesauce::worker::artifact_format;
use applesauce::{
    pause_recording, resume_recording, start_recording, stop_recording, worker_step, Cmd,
    FrameAction, RecorderError, RecorderState, WorkerState,
};

/// Runs both halves of `start` and returns the session's id and path with the
/// worker's end of the channel.
fn start(
    state: &mut RecorderState,
    now_ms: u64,
    dir: &str,
) -> Result<(String, String, crossbeam_channel::Receiver<Cmd>), RecorderError> {
    let (pending, rx) = start_recording(state, now_ms, dir)?;
    let (id, path) = state.begin(pending)?;
    Ok((id, path, rx))
}

#[test]
fn start_then_stop_then_stop_again() {
    let mut st = RecorderState::new();
    let (id, path, _rx) = start(&mut st, 1700000000000, "/tmp/rec").unwrap();
    assert!(id.starts_with("sess-"));
    assert_eq!(id, "sess-1700000000000");
    assert!(path.ends_with(".wav"));
    assert_eq!(path, "/tmp/rec/sess-1700000000000.wav");
    assert!(st.is_active());
    let stopped = stop_recording(&mut st).unwrap();
    assert_eq!(stopped, path);
    assert!(!st.is_active());
    assert_eq!(stop_recording(&mut st), Err(RecorderError::NoActiveSession));
}

#[test]
fn pause_before_any_start_fails() {
    let mut st = RecorderState::new();
    assert_eq!(pause_recording(&mut st), Err(RecorderError::NoActiveSession));
}

#[test]
fn signals_without_a_session_fail() {
    let mut st = RecorderState::new();
    assert_eq!(resume_recording(&mut st), Err(RecorderError::NoActiveSession));
    assert_eq!(stop_recording(&mut st), Err(RecorderError::NoActiveSession));
    assert!(!st.is_active());
}

#[test]
fn second_start_is_refused_while_active() {
    let mut st = RecorderState::new();
    let (id, path, _rx) = start(&mut st, 10, "/d").unwrap();
    assert_eq!(start_recording(&mut st, 20, "/d").err(), Some(RecorderError::AlreadyActive));
    // the active session is untouched
    assert!(st.is_active());
    assert_eq!(stop_recording(&mut st).unwrap(), path);
    assert_eq!(id, "sess-10");
}

#[test]
fn begin_is_refused_while_active() {
    let mut st = RecorderState::new();
    let (p1, _rx1) = start_recording(&mut st, 10, "/d").unwrap();
    let (p2, _rx2) = start_recording(&mut st, 10, "/d").unwrap();
    assert_eq!(p1.id(), "sess-10");
    assert_eq!(p2.id(), "sess-11");
    let (id, _) = st.begin(p1).unwrap();
    assert_eq!(id, "sess-10");
    assert_eq!(st.begin(p2), Err(RecorderError::AlreadyActive));
}

#[test]
fn session_ids_are_never_reused() {
    let mut st = RecorderState::new();
    let mut ids: Vec<String> = Vec::new();
    // the clock stands still, and even goes back
    for now in [5u64, 5, 5, 3, 6, 6] {
        let (id, _, _rx) = start(&mut st, now, "/d").unwrap();
        stop_recording(&mut st).unwrap();
        assert!(!ids.contains(&id));
        ids.push(id);
    }
    assert_eq!(ids, vec!["sess-5", "sess-6", "sess-7", "sess-8", "sess-9", "sess-10"]);
}

#[test]
fn restart_after_stop_gets_new_id_and_path() {
    let mut st = RecorderState::new();
    let (id1, path1, _rx1) = start(&mut st, 100, "/d").unwrap();
    stop_recording(&mut st).unwrap();
    let (id2, path2, _rx2) = start(&mut st, 100, "/d").unwrap();
    assert_ne!(id1, id2);
    assert_ne!(path1, path2);
    assert_eq!(path2, "/d/sess-101.wav");
}

#[test]
fn ids_run_out_at_the_largest_stamp() {
    let mut st = RecorderState::new();
    let (id, _, _rx) = start(&mut st, u64::MAX, "/d").unwrap();
    assert_eq!(id, "sess-18446744073709551615");
    stop_recording(&mut st).unwrap();
    assert_eq!(start_recording(&mut st, 1, "/d").err(), Some(RecorderError::IdsExhausted));
    assert!(!st.is_active());
}

#[test]
fn signals_reach_the_worker_in_send_order() {
    let mut st = RecorderState::new();
    let (_, _, rx) = start(&mut st, 1, "/d").unwrap();
    pause_recording(&mut st).unwrap();
    assert!(st.is_paused());
    resume_recording(&mut st).unwrap();
    assert!(!st.is_paused());
    stop_recording(&mut st).unwrap();
    let got: Vec<Cmd> = rx.try_iter().collect();
    assert_eq!(got, vec![Cmd::Pause, Cmd::Resume, Cmd::Stop]);
}

#[test]
fn pause_fails_when_the_worker_is_gone_but_session_stays() {
    let mut st = RecorderState::new();
    let (_, path, rx) = start(&mut st, 1, "/d").unwrap();
    drop(rx);
    match pause_recording(&mut st) {
        Err(RecorderError::IoFailure(m)) => assert_eq!(m, "sending on a disconnected channel"),
        other => panic!("unexpected {:?}", other),
    }
    assert!(st.is_active());
    assert!(!st.is_paused());
    assert!(matches!(resume_recording(&mut st), Err(RecorderError::IoFailure(_))));
    // stop still cleans up
    assert_eq!(stop_recording(&mut st).unwrap(), path);
    assert!(!st.is_active());
}

#[test]
fn error_messages() {
    assert_eq!(RecorderError::AlreadyActive.message(), "recording already in progress");
    assert_eq!(RecorderError::NoActiveSession.message(), "no active recording");
    assert_eq!(RecorderError::IoFailure("disk full".to_string()).message(), "disk full");
    assert_eq!(RecorderError::IdsExhausted.message(), "no session identifier is left");
}

#[test]
fn start_pause_resume_stop_yields_a_finalized_wav() {
    let dir = "/tmp";
    let mut st = RecorderState::new();
    let (_, path, rx) = start(&mut st, 1234567, dir).unwrap();
    pause_recording(&mut st).unwrap();
    resume_recording(&mut st).unwrap();
    let stopped = stop_recording(&mut st).unwrap();
    assert_eq!(stopped, path);

    let f = artifact_format();
    let spec = hound::WavSpec {
        channels: f.channels,
        sample_rate: f.sample_rate,
        bits_per_sample: f.bits_per_sample,
        sample_format: hound::SampleFormat::Int,
    };
    let mut writer = hound::WavWriter::create(&path, spec).unwrap();
    let mut w = WorkerState::new();
    let mut written = 0u32;
    // one frame before the signals are polled
    writer.write_sample(0i16).unwrap();
    written += 1;
    loop {
        let (next, action) = worker_step(w, rx.try_recv().ok());
        w = next;
        match action {
            FrameAction::WriteFrame => {
                writer.write_sample(0i16).unwrap();
                written += 1;
            }
            FrameAction::Skip => {}
            FrameAction::Finalize => break,
        }
    }
    writer.finalize().unwrap();

    let reader = hound::WavReader::open(&path).unwrap();
    let got = reader.spec();
    assert_eq!(got.channels, 1);
    assert_eq!(got.sample_rate, 16000);
    assert_eq!(got.bits_per_sample, 16);
    assert_eq!(got.sample_format, hound::SampleFormat::Int);
    assert_eq!(reader.len(), written);
    assert_eq!(written, 2);
}
