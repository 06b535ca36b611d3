//! The controller's end of a session's control channel. Besides the sender it
//! records, as ghost state, every signal handed to it, in order; only `send`
//! extends that record.

use vstd::prelude::*;
use crate::worker::Cmd;

verus! {

#[verifier::external_type_specification]
#[verifier::external_body]
#[verifier::reject_recursive_types(T)]
pub struct ExSender<T>(crossbeam_channel::Sender<T>);

#[verifier::external_type_specification]
#[verifier::external_body]
#[verifier::reject_recursive_types(T)]
pub struct ExReceiver<T>(crossbeam_channel::Receiver<T>);

/// The message of `crossbeam_channel::SendError`.
pub open spec fn disconnected_message() -> Seq<char> {
    "sending on a disconnected channel"@
}

/// Relies on `crossbeam_channel::unbounded`: a new channel, whose sender and
/// receiver are returned as a pair.
#[verifier::external_body]
fn unbounded_channel() -> (r: (crossbeam_channel::Sender<Cmd>, crossbeam_channel::Receiver<Cmd>)) {
    crossbeam_channel::unbounded()
}

/// A session's sender, with the signals handed to it so far.
pub struct ControlSender {
    tx: crossbeam_channel::Sender<Cmd>,
    handed: Ghost<Seq<Cmd>>,
}

impl ControlSender {
    /// The signals handed to this sender, oldest first.
    pub closed spec fn handed(&self) -> Seq<Cmd> {
        self.handed@
    }

    /// Relies on `crossbeam_channel::Sender::send`: `c` is handed to the
    /// channel, which queues it behind the signals sent before it, or fails,
    /// with the error's fixed message, once the receiver is gone.
    #[verifier::external_body]
    pub fn send(&mut self, c: Cmd) -> (r: Result<(), String>)
        ensures
            final(self).handed() == old(self).handed().push(c),
            r matches Err(m) ==> m@ == disconnected_message(),
    {
        self.tx.send(c).map_err(|e| e.to_string())
    }
}

/// A new control channel: the sender, to which nothing has been handed yet,
/// and the receiver, for the worker.
pub fn control_channel() -> (r: (ControlSender, crossbeam_channel::Receiver<Cmd>))
    ensures
        r.0.handed() == Seq::<Cmd>::empty(),
{
    let (tx, rx) = unbounded_channel();
    (ControlSender { tx, handed: Ghost(Seq::empty()) }, rx)
}

} // verus!
