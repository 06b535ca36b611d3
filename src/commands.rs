//! The operation surface that a user interface invokes: each command runs a
//! controller operation and answers with a confirmation or the error's
//! message.

use vstd::prelude::*;
use crate::channel::disconnected_message;
use crate::recorder::{
    after_refused_signal, after_signal, after_stop, pause_recording, resume_recording,
    stop_recording, RecorderError, RecorderState,
};
use crate::worker::Cmd;

verus! {

/// The answer to `stop`: a confirmation and the artifact's path.
pub struct StopResponse {
    pub message: String,
    pub final_wav: Option<String>,
}

/// Pauses the active session; answers `paused`, or the error's message.
pub fn pause_recording_cmd(state: &mut RecorderState) -> (r: Result<String, String>)
    ensures
        match old(state)@.active {
            None => r matches Err(m) && m@ == RecorderError::NoActiveSession.message_spec()
                && final(state)@ == old(state)@,
            Some(_) => match r {
                Ok(m) => m@ == "paused"@ && final(state)@ == after_signal(old(state)@, Cmd::Pause),
                Err(m) => m@ == disconnected_message() && final(state)@ == after_refused_signal(
                    old(state)@,
                    Cmd::Pause,
                ),
            },
        },
{
    match pause_recording(state) {
        Ok(()) => Ok(String::from_str("paused")),
        Err(e) => Err(e.message()),
    }
}

/// Resumes the active session; answers `resumed`, or the error's message.
pub fn resume_recording_cmd(state: &mut RecorderState) -> (r: Result<String, String>)
    ensures
        match old(state)@.active {
            None => r matches Err(m) && m@ == RecorderError::NoActiveSession.message_spec()
                && final(state)@ == old(state)@,
            Some(_) => match r {
                Ok(m) => m@ == "resumed"@ && final(state)@ == after_signal(
                    old(state)@,
                    Cmd::Resume,
                ),
                Err(m) => m@ == disconnected_message() && final(state)@ == after_refused_signal(
                    old(state)@,
                    Cmd::Resume,
                ),
            },
        },
{
    match resume_recording(state) {
        Ok(()) => Ok(String::from_str("resumed")),
        Err(e) => Err(e.message()),
    }
}

/// Stops the active session; answers `stopped` with the artifact's path.
pub fn stop_recording_cmd(state: &mut RecorderState) -> (r: Result<StopResponse, String>)
    ensures
        match old(state)@.active {
            None => r matches Err(m) && m@ == RecorderError::NoActiveSession.message_spec()
                && final(state)@ == old(state)@,
            Some(a) => {
                &&& r is Ok
                &&& r->Ok_0.message@ == "stopped"@
                &&& r->Ok_0.final_wav is Some
                &&& r->Ok_0.final_wav->Some_0@ == a.path
                &&& final(state)@ == after_stop(old(state)@)
            },
        },
{
    match stop_recording(state) {
        Ok(path) => Ok(StopResponse { message: String::from_str("stopped"), final_wav: Some(path) }),
        Err(e) => Err(e.message()),
    }
}

} // verus!
