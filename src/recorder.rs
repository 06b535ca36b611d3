//! The session registry and the controller operations on it. At most one
//! session is active; its control channel, identifier, artifact path and
//! pause flag live here, and every operation either moves the registry along
//! the session's life or fails with a typed error and changes nothing.

use vstd::prelude::*;
use crate::ids::{issued_ids, lemma_fresh_stamp, new_session_id, next_stamp, next_stamp_spec, session_id_spec};
use crate::paths::{artifact_file_name, artifact_name, ends_with, join_path, joined, lemma_artifact_suffix_unique, lemma_joined_ends_with};
use crate::channel::{control_channel, disconnected_message, ControlSender};
use crate::worker::{fresh_worker, lemma_pause_resume_stop_order, run_signals, Cmd};

verus! {

/// Why a controller operation failed.
#[derive(Debug, PartialEq, Eq)]
pub enum RecorderError {
    /// `start` while a session is active.
    AlreadyActive,
    /// `pause`, `resume` or `stop` with no active session.
    NoActiveSession,
    /// A directory could not be created, the worker could not be spawned, or
    /// a signal could not be delivered.
    IoFailure(String),
    /// Every session identifier has been handed out.
    IdsExhausted,
}

impl RecorderError {
    /// The human-readable message of the error.
    pub fn message(&self) -> (r: String)
        ensures
            r@ == self.message_spec(),
    {
        proof {
            reveal_strlit("recording already in progress");
            reveal_strlit("no active recording");
            reveal_strlit("no session identifier is left");
        }
        match self {
            RecorderError::AlreadyActive => String::from_str("recording already in progress"),
            RecorderError::NoActiveSession => String::from_str("no active recording"),
            RecorderError::IoFailure(m) => m.clone(),
            RecorderError::IdsExhausted => String::from_str("no session identifier is left"),
        }
    }

    pub open spec fn message_spec(&self) -> Seq<char> {
        match self {
            RecorderError::AlreadyActive => "recording already in progress"@,
            RecorderError::NoActiveSession => "no active recording"@,
            RecorderError::IoFailure(m) => m@,
            RecorderError::IdsExhausted => "no session identifier is left"@,
        }
    }
}

/// The active session as seen from outside.
pub struct SessionView {
    pub id: Seq<char>,
    pub path: Seq<char>,
    pub paused: bool,
}

/// The registry as seen from outside: the active session, if any; the last
/// stamp handed out; and the signals handed to the sender of the current (or,
/// once stopped, the last) session, in send order.
pub struct RecorderView {
    pub active: Option<SessionView>,
    pub last_stamp: Option<u64>,
    pub signals: Seq<Cmd>,
}

impl RecorderView {
    /// The active session, if any, has an issued identifier and an artifact
    /// path that ends with `<id>.wav`.
    pub open spec fn consistent(self) -> bool {
        self.active matches Some(a) ==> issued_ids(self.last_stamp).contains(a.id) && ends_with(
            a.path,
            artifact_name(a.id),
        )
    }
}

/// Why `start` is refused on the registry `v` at time `now_ms`, if it is:
/// while a session is active, and once every stamp has been handed out.
pub open spec fn start_refusal(v: RecorderView, now_ms: u64) -> Option<RecorderError> {
    if v.active is Some {
        Some(RecorderError::AlreadyActive)
    } else if next_stamp_spec(v.last_stamp, now_ms) is None {
        Some(RecorderError::IdsExhausted)
    } else {
        None
    }
}

/// The error of a failed signal delivery.
pub open spec fn is_delivery_failure(e: RecorderError) -> bool {
    e is IoFailure && e->IoFailure_0@ == disconnected_message()
}

/// The stamps of `later` cover those of `earlier`.
pub open spec fn stamps_grow(earlier: Option<u64>, later: Option<u64>) -> bool {
    earlier matches Some(e) ==> (later matches Some(l) && e <= l)
}

/// The larger of the last stamp and `s`.
pub open spec fn later_stamp(last: Option<u64>, s: u64) -> Option<u64> {
    match last {
        Some(l) => if l >= s {
            Some(l)
        } else {
            Some(s)
        },
        None => Some(s),
    }
}

/// The registry once `c` (`Pause` or `Resume`) has been handed to the
/// session's sender and the channel took it.
pub open spec fn after_signal(v: RecorderView, c: Cmd) -> RecorderView {
    RecorderView {
        active: match v.active {
            Some(a) => Some(SessionView { paused: c == Cmd::Pause, ..a }),
            None => None,
        },
        signals: v.signals.push(c),
        ..v
    }
}

/// The registry once `c` has been handed to the session's sender and the
/// channel refused it: the session is as it was.
pub open spec fn after_refused_signal(v: RecorderView, c: Cmd) -> RecorderView {
    RecorderView { signals: v.signals.push(c), ..v }
}

/// The registry once `Stop` has been handed to the session's sender and the
/// session has been taken out.
pub open spec fn after_stop(v: RecorderView) -> RecorderView {
    RecorderView { active: None, signals: v.signals.push(Cmd::Stop), ..v }
}

struct ActiveSession {
    tx: ControlSender,
    id: String,
    path: String,
    paused: bool,
    stamp: u64,
}

/// The session registry.
pub struct RecorderState {
    active: Option<ActiveSession>,
    last_stamp: Option<u64>,
    /// What was handed to the sender of the last stopped session.
    stopped_log: Ghost<Seq<Cmd>>,
}

/// A session that `start_recording` has prepared and that `begin` registers
/// once its worker runs.
pub struct PendingSession {
    id: String,
    path: String,
    stamp: u64,
    tx: ControlSender,
}

/// What a pending session will be registered with.
pub struct PendingView {
    pub id: Seq<char>,
    pub path: Seq<char>,
    pub stamp: u64,
}

impl View for RecorderState {
    type V = RecorderView;

    closed spec fn view(&self) -> RecorderView {
        RecorderView {
            active: match self.active {
                Some(a) => Some(SessionView { id: a.id@, path: a.path@, paused: a.paused }),
                None => None,
            },
            last_stamp: self.last_stamp,
            signals: match self.active {
                Some(a) => a.tx.handed(),
                None => self.stopped_log@,
            },
        }
    }
}

impl View for PendingSession {
    type V = PendingView;

    closed spec fn view(&self) -> PendingView {
        PendingView { id: self.id@, path: self.path@, stamp: self.stamp }
    }
}

impl RecorderState {
    #[verifier::type_invariant]
    spec fn well_formed(&self) -> bool {
        self.active matches Some(a) ==> {
            &&& self.last_stamp matches Some(l) && a.stamp <= l
            &&& a.id@ == session_id_spec(a.stamp as nat)
            &&& ends_with(a.path@, artifact_name(a.id@))
        }
    }

    proof fn lemma_consistent(&self)
        requires
            self.well_formed(),
        ensures
            self@.consistent(),
    {
        if let Some(a) = self.active {
            assert(issued_ids(self.last_stamp).contains(a.id@)) by {
                assert(session_id_spec(a.stamp as nat) == a.id@);
            }
        }
    }

    /// An empty registry.
    pub fn new() -> (r: RecorderState)
        ensures
            r@.active is None,
            r@.last_stamp is None,
            r@.signals == Seq::<Cmd>::empty(),
    {
        RecorderState { active: None, last_stamp: None, stopped_log: Ghost(Seq::empty()) }
    }

    /// Whether a session is active.
    pub fn is_active(&self) -> (r: bool)
        ensures
            r == self@.active is Some,
    {
        self.active.is_some()
    }

    /// Whether the active session is paused; `false` with no active session.
    pub fn is_paused(&self) -> (r: bool)
        ensures
            r == (self@.active matches Some(a) && a.paused),
    {
        match &self.active {
            Some(a) => a.paused,
            None => false,
        }
    }
}

impl PendingSession {
    #[verifier::type_invariant]
    spec fn well_formed(&self) -> bool {
        &&& self.id@ == session_id_spec(self.stamp as nat)
        &&& ends_with(self.path@, artifact_name(self.id@))
        &&& self.tx.handed() == Seq::<Cmd>::empty()
    }

    /// The identifier the session will have.
    pub fn id(&self) -> (r: &str)
        ensures
            r@ == self@.id,
    {
        self.id.as_str()
    }

    /// The path of the session's artifact, which its worker writes.
    pub fn path(&self) -> (r: &str)
        ensures
            r@ == self@.path,
    {
        self.path.as_str()
    }
}

/// The first half of `start`: refuses while a session is active, else gives
/// the next session a fresh identifier and stamp, its artifact path
/// `<dir>/<id>.wav`, and a new control channel. The receiver is for the
/// worker; once it runs, `begin` registers the returned session. No session is
/// registered here, so a failure to spawn the worker leaves none behind.
pub fn start_recording(state: &mut RecorderState, now_ms: u64, dir: &str) -> (r: Result<
    (PendingSession, crossbeam_channel::Receiver<Cmd>),
    RecorderError,
>)
    ensures
        match r {
            Ok((p, _rx)) => {
                &&& start_refusal(old(state)@, now_ms) is None
                &&& next_stamp_spec(old(state)@.last_stamp, now_ms) == Some(p@.stamp)
                &&& p@.id == session_id_spec(p@.stamp as nat)
                &&& p@.path == joined(dir@, artifact_name(p@.id))
                &&& !issued_ids(old(state)@.last_stamp).contains(p@.id)
                &&& issued_ids(final(state)@.last_stamp).contains(p@.id)
                &&& final(state)@ == (RecorderView { last_stamp: Some(p@.stamp), ..old(state)@ })
            },
            Err(e) => {
                &&& start_refusal(old(state)@, now_ms) == Some(e)
                &&& final(state)@ == old(state)@
            },
        },
        stamps_grow(old(state)@.last_stamp, final(state)@.last_stamp),
        final(state)@.consistent(),
{
    proof {
        use_type_invariant(&*state);
    }
    if state.active.is_some() {
        proof {
            state.lemma_consistent();
        }
        return Err(RecorderError::AlreadyActive);
    }
    let stamp = match next_stamp(state.last_stamp, now_ms) {
        Some(s) => s,
        None => {
            proof {
                state.lemma_consistent();
            }
            return Err(RecorderError::IdsExhausted);
        },
    };
    proof {
        lemma_fresh_stamp(state.last_stamp, stamp);
    }
    let id = new_session_id(stamp);
    let name = artifact_file_name(id.as_str());
    let path = join_path(dir, name.as_str());
    proof {
        lemma_joined_ends_with(dir@, name@);
    }
    let (tx, rx) = control_channel();
    state.last_stamp = Some(stamp);
    assert(issued_ids(state.last_stamp).contains(id@)) by {
        assert(session_id_spec(stamp as nat) == id@);
    }
    proof {
        state.lemma_consistent();
    }
    Ok((PendingSession { id, path, stamp, tx }, rx))
}

impl RecorderState {
    /// The second half of `start`: registers the pending session as active and
    /// recording, and returns its identifier and artifact path. Refuses, and
    /// changes nothing, while another session is active.
    pub fn begin(&mut self, pending: PendingSession) -> (r: Result<(String, String), RecorderError>)
        ensures
            match r {
                Ok((id, path)) => {
                    &&& old(self)@.active is None
                    &&& id@ == pending@.id
                    &&& path@ == pending@.path
                    &&& final(self)@ == (RecorderView {
                        active: Some(SessionView { id: id@, path: path@, paused: false }),
                        last_stamp: later_stamp(old(self)@.last_stamp, pending@.stamp),
                        signals: Seq::empty(),
                    })
                },
                Err(e) => {
                    &&& e == RecorderError::AlreadyActive
                    &&& old(self)@.active is Some
                    &&& final(self)@ == old(self)@
                },
            },
            stamps_grow(old(self)@.last_stamp, final(self)@.last_stamp),
            final(self)@.consistent(),
    {
        proof {
            use_type_invariant(&*self);
            use_type_invariant(&pending);
        }
        if self.active.is_some() {
            proof {
                self.lemma_consistent();
            }
            return Err(RecorderError::AlreadyActive);
        }
        let PendingSession { id, path, stamp, tx } = pending;
        let last = match self.last_stamp {
            Some(l) => if l >= stamp {
                l
            } else {
                stamp
            },
            None => stamp,
        };
        let r_id = id.clone();
        let r_path = path.clone();
        *self = RecorderState {
            active: Some(ActiveSession { tx, id, path, paused: false, stamp }),
            last_stamp: Some(last),
            stopped_log: Ghost(Seq::empty()),
        };
        proof {
            self.lemma_consistent();
        }
        Ok((r_id, r_path))
    }
}

/// Moves the registry out of `state`, leaving an empty one in its place.
fn take_state(state: &mut RecorderState) -> (r: RecorderState)
    ensures
        r == *old(state),
        r@ == old(state)@,
{
    let mut taken = RecorderState::new();
    std::mem::swap(state, &mut taken);
    proof {
        use_type_invariant(&taken);
    }
    taken
}

/// Hands `c` (`Pause` or `Resume`) to the active session's sender and, when
/// the channel takes it, records the new pause flag. With no active session
/// it fails with `NoActiveSession` and sends nothing; when the worker is gone
/// it fails with `IoFailure` and leaves the session registered.
fn deliver(state: &mut RecorderState, c: Cmd) -> (r: Result<(), RecorderError>)
    requires
        c != Cmd::Stop,
    ensures
        match old(state)@.active {
            None => r == Err::<(), RecorderError>(RecorderError::NoActiveSession) && final(state)@
                == old(state)@,
            Some(_) => match r {
                Ok(()) => final(state)@ == after_signal(old(state)@, c),
                Err(e) => is_delivery_failure(e) && final(state)@ == after_refused_signal(
                    old(state)@,
                    c,
                ),
            },
        },
        final(state)@.consistent(),
{
    proof {
        use_type_invariant(&*state);
    }
    if state.active.is_none() {
        proof {
            state.lemma_consistent();
        }
        return Err(RecorderError::NoActiveSession);
    }
    let RecorderState { active, last_stamp, stopped_log } = take_state(state);
    let ActiveSession { mut tx, id, path, paused, stamp } = active.unwrap();
    let sent = tx.send(c);
    let paused = match sent {
        Ok(()) => match c {
            Cmd::Pause => true,
            _ => false,
        },
        Err(_) => paused,
    };
    *state = RecorderState {
        active: Some(ActiveSession { tx, id, path, paused, stamp }),
        last_stamp,
        stopped_log,
    };
    proof {
        state.lemma_consistent();
    }
    match sent {
        Ok(()) => Ok(()),
        Err(m) => Err(RecorderError::IoFailure(m)),
    }
}

/// Hands `Pause` to the active session's sender, asking its worker to stop
/// writing frames. Fails with `NoActiveSession` when no session is active,
/// and with `IoFailure`, the session staying registered and unpaused, when
/// the worker is gone.
pub fn pause_recording(state: &mut RecorderState) -> (r: Result<(), RecorderError>)
    ensures
        match old(state)@.active {
            None => r == Err::<(), RecorderError>(RecorderError::NoActiveSession) && final(state)@
                == old(state)@,
            Some(_) => match r {
                Ok(()) => final(state)@ == after_signal(old(state)@, Cmd::Pause),
                Err(e) => is_delivery_failure(e) && final(state)@ == after_refused_signal(
                    old(state)@,
                    Cmd::Pause,
                ),
            },
        },
        final(state)@.consistent(),
{
    deliver(state, Cmd::Pause)
}

/// Hands `Resume` to the active session's sender, asking its worker to write
/// frames again. Fails as `pause_recording` does.
pub fn resume_recording(state: &mut RecorderState) -> (r: Result<(), RecorderError>)
    ensures
        match old(state)@.active {
            None => r == Err::<(), RecorderError>(RecorderError::NoActiveSession) && final(state)@
                == old(state)@,
            Some(_) => match r {
                Ok(()) => final(state)@ == after_signal(old(state)@, Cmd::Resume),
                Err(e) => is_delivery_failure(e) && final(state)@ == after_refused_signal(
                    old(state)@,
                    Cmd::Resume,
                ),
            },
        },
        final(state)@.consistent(),
{
    deliver(state, Cmd::Resume)
}

/// Hands `Stop` to the active session's sender, takes the session out of the
/// registry and returns its artifact path. It does not wait for the worker to
/// finalize the file, and a worker that is already gone does not make it
/// fail. With no active session it fails with `NoActiveSession`.
pub fn stop_recording(state: &mut RecorderState) -> (r: Result<String, RecorderError>)
    ensures
        match old(state)@.active {
            None => r == Err::<String, RecorderError>(RecorderError::NoActiveSession)
                && final(state)@ == old(state)@,
            Some(a) => r matches Ok(p) && p@ == a.path && final(state)@ == after_stop(old(state)@),
        },
        final(state)@.consistent(),
{
    proof {
        use_type_invariant(&*state);
    }
    if state.active.is_none() {
        proof {
            state.lemma_consistent();
        }
        return Err(RecorderError::NoActiveSession);
    }
    let RecorderState { active, last_stamp, stopped_log: _ } = take_state(state);
    let ActiveSession { mut tx, path, .. } = active.unwrap();
    // a worker that has already exited needs no Stop
    let _ = tx.send(Cmd::Stop);
    let ghost log = tx.handed();
    *state = RecorderState { active: None, last_stamp, stopped_log: Ghost(log) };
    proof {
        state.lemma_consistent();
    }
    Ok(path)
}

/// An identifier handed out once is never handed out again: whatever the
/// registry went through since (its stamps only grow), the next `start`
/// produces a different identifier.
pub proof fn lemma_ids_never_reused(
    old_id: Seq<char>,
    earlier: Option<u64>,
    later: Option<u64>,
    now_ms: u64,
)
    requires
        issued_ids(earlier).contains(old_id),
        stamps_grow(earlier, later),
        next_stamp_spec(later, now_ms) is Some,
    ensures
        session_id_spec(next_stamp_spec(later, now_ms).unwrap() as nat) != old_id,
{
    let s = next_stamp_spec(later, now_ms).unwrap();
    lemma_fresh_stamp(later, s);
    let t = choose|t: u64| #[trigger]
        session_id_spec(t as nat) == old_id && (earlier matches Some(l) && t <= l);
    assert(issued_ids(later).contains(old_id)) by {
        assert(session_id_spec(t as nat) == old_id);
    }
}

/// After a session is stopped, the next `start` is admitted, and the session
/// it prepares has an identifier and an artifact path that differ from the
/// stopped session's.
pub proof fn lemma_restart_after_stop(v: RecorderView, now_ms: u64, dir: Seq<char>)
    requires
        v.consistent(),
        v.active is Some,
        next_stamp_spec(v.last_stamp, now_ms) is Some,
    ensures
        ({
            let w = after_stop(v);
            let s = next_stamp_spec(w.last_stamp, now_ms).unwrap();
            let old_session = v.active.unwrap();
            &&& w.active is None
            &&& start_refusal(w, now_ms) is None
            &&& session_id_spec(s as nat) != old_session.id
            &&& joined(dir, artifact_name(session_id_spec(s as nat))) != old_session.path
        }),
{
    let a = v.active.unwrap();
    let s = next_stamp_spec(v.last_stamp, now_ms).unwrap();
    lemma_fresh_stamp(v.last_stamp, s);
    let t = choose|t: u64| #[trigger]
        session_id_spec(t as nat) == a.id && (v.last_stamp matches Some(l) && t <= l);
    let new_path = joined(dir, artifact_name(session_id_spec(s as nat)));
    lemma_joined_ends_with(dir, artifact_name(session_id_spec(s as nat)));
    if new_path == a.path {
        lemma_artifact_suffix_unique(a.path, t as nat, s as nat);
    }
}

/// `pause`, `resume` and `stop` that succeed on a session that has just begun
/// hand its sender exactly `Pause`, `Resume`, `Stop`, in that order; a worker
/// that takes them in that order pauses, then records again, and exits only
/// on the `Stop`.
pub proof fn lemma_signal_order(v: RecorderView)
    requires
        v.active is Some,
        v.signals == Seq::<Cmd>::empty(),
    ensures
        ({
            let w = after_stop(after_signal(after_signal(v, Cmd::Pause), Cmd::Resume));
            &&& w.signals == seq![Cmd::Pause, Cmd::Resume, Cmd::Stop]
            &&& run_signals(fresh_worker(), w.signals.take(1)).paused
            &&& run_signals(fresh_worker(), w.signals.take(2)) == fresh_worker()
            &&& !run_signals(fresh_worker(), w.signals).running
        }),
{
    let w = after_stop(after_signal(after_signal(v, Cmd::Pause), Cmd::Resume));
    assert(w.signals =~= seq![Cmd::Pause, Cmd::Resume, Cmd::Stop]);
    assert(w.signals.take(1) =~= seq![Cmd::Pause]);
    assert(w.signals.take(2) =~= seq![Cmd::Pause, Cmd::Resume]);
    lemma_pause_resume_stop_order();
}

/// While a session is active, `start` is refused with `AlreadyActive`, and
/// pausing or resuming it (whether the channel takes the signal or not) keeps
/// it active, so it stays refused until `stop` takes it out.
pub proof fn lemma_single_session(v: RecorderView, c: Cmd, now_ms: u64)
    requires
        v.active is Some,
    ensures
        start_refusal(v, now_ms) == Some(RecorderError::AlreadyActive),
        start_refusal(after_signal(v, c), now_ms) == Some(RecorderError::AlreadyActive),
        start_refusal(after_refused_signal(v, c), now_ms) == Some(RecorderError::AlreadyActive),
        after_stop(v).active is None,
{
}

} // verus!
