//! Recording-session controller: a registry that holds at most one active
//! capture session, the controller operations that drive it, and the pure
//! decision logic of the capture worker.

pub mod channel;
pub mod commands;
pub mod ids;
pub mod paths;
pub mod recorder;
pub mod upload;
pub mod worker;

pub use commands::{pause_recording_cmd, resume_recording_cmd, stop_recording_cmd, StopResponse};
pub use ids::new_session_id;
pub use paths::storage_dir;
pub use recorder::{
    pause_recording, resume_recording, start_recording, stop_recording, PendingSession,
    RecorderError, RecorderState,
};
pub use worker::{worker_step, Cmd, FrameAction, WorkerState};
