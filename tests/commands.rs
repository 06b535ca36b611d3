use applesauce::{
    pause_recording_cmd, resume_recording_cmd, start_recording, stop_recording_cmd, RecorderState,
};

#[test]
fn commands_answer_with_confirmations() {
    let mut st = RecorderState::new();
    assert_eq!(pause_recording_cmd(&mut st), Err("no active recording".to_string()));
    let (pending, _rx) = start_recording(&mut st, 77, "/d").unwrap();
    let (_, path) = st.begin(pending).unwrap();
    assert_eq!(pause_recording_cmd(&mut st), Ok("paused".to_string()));
    assert_eq!(resume_recording_cmd(&mut st), Ok("resumed".to_string()));
    let resp = stop_recording_cmd(&mut st).unwrap();
    assert_eq!(resp.message, "stopped");
    assert_eq!(resp.final_wav, Some(path));
    assert_eq!(stop_recording_cmd(&mut st).err(), Some("no active recording".to_string()));
}

#[test]
fn resume_without_session_is_refused() {
    let mut st = RecorderState::new();
    assert_eq!(resume_recording_cmd(&mut st), Err("no active recording".to_string()));
}

#[test]
fn commands_report_a_gone_worker() {
    let mut st = RecorderState::new();
    let (pending, rx) = start_recording(&mut st, 5, "/d").unwrap();
    let (_, path) = st.begin(pending).unwrap();
    drop(rx);
    assert_eq!(pause_recording_cmd(&mut st), Err("sending on a disconnected channel".to_string()));
    assert_eq!(resume_recording_cmd(&mut st), Err("sending on a disconnected channel".to_string()));
    let resp = stop_recording_cmd(&mut st).unwrap();
    assert_eq!(resp.final_wav, Some(path));
}
