//! The driver handle and its stop signal.
//!
//! [`ZmqDriver::new`] pairs a driver with a [`Stop`] handle. The stop signal
//! is a single-shot, multi-sender notification: any clone of the handle, on
//! any thread, may call [`Stop::stop`] any number of times, before or after
//! the dispatch loop has exited, and the call never blocks and never panics.
//! The dispatch loop's shell observes the signal by polling the receiving
//! end between iterations.

use vstd::prelude::*;

use crate::engine::Update;
use crate::errors::Error;
use crate::ports::UpdateSink;

verus! {

/// Declares `std::sync::mpsc::Sender`, the sending end of a std channel,
/// which carries the stop signal; opaque to verification.
#[verifier::external_type_specification]
#[verifier::external_body]
#[verifier::reject_recursive_types(T)]
pub struct ExSender<T>(std::sync::mpsc::Sender<T>);

/// Declares `std::sync::mpsc::Receiver`, the receiving end of a std channel,
/// which the loop shell polls for the stop signal; opaque to verification.
#[verifier::external_type_specification]
#[verifier::external_body]
#[verifier::reject_recursive_types(T)]
pub struct ExReceiver<T>(std::sync::mpsc::Receiver<T>);

/// Relies on `std::sync::mpsc::channel`: returns the two ends of one
/// asynchronous channel.
#[verifier::external_body]
fn stop_channel() -> (std::sync::mpsc::Sender<()>, std::sync::mpsc::Receiver<()>) {
    std::sync::mpsc::channel()
}

/// Relies on `std::sync::mpsc::Sender::send`, which never blocks and, once
/// the receiver is gone, merely returns an error, here discarded: a stop
/// request after the loop has exited is tolerated silently.
#[verifier::external_body]
fn send_stop_signal(sender: &std::sync::mpsc::Sender<()>) {
    let _ = sender.send(());
}

/// Relies on `std::sync::mpsc::Sender::clone`: the clone feeds the same
/// channel.
#[verifier::external_body]
fn clone_stop_sender(sender: &std::sync::mpsc::Sender<()>) -> std::sync::mpsc::Sender<()> {
    sender.clone()
}

/// Relies on `std::sync::mpsc::Sender::send`, which never blocks and returns
/// an error exactly when the receiving end is gone; the error is folded into
/// the library's send-error kind.
#[verifier::external_body]
fn send_update_on_channel(
    sender: &std::sync::mpsc::Sender<Update>,
    update: Update,
) -> (r: Result<(), Error>)
    ensures
        r matches Err(e) ==> e matches Error::SendError(_),
{
    sender.send(update).map_err(|e| Error::SendError(format!("{}", e)))
}

/// The event channel's sending end, as the dispatch step uses it: updates
/// queued here travel, in order, to the engine logic that owns the receiving
/// end.
pub struct ChannelUpdateSink {
    sender: std::sync::mpsc::Sender<Update>,
    history: Ghost<Seq<Update>>,
}

impl ChannelUpdateSink {
    /// Wrap the sending end of the event channel.
    pub fn new(sender: std::sync::mpsc::Sender<Update>) -> (r: ChannelUpdateSink)
        ensures
            r.queued() == Seq::<Update>::empty(),
    {
        ChannelUpdateSink { sender, history: Ghost(Seq::empty()) }
    }
}

impl UpdateSink for ChannelUpdateSink {
    closed spec fn queued(&self) -> Seq<Update> {
        self.history@
    }

    fn send_update(&mut self, update: Update) -> (r: Result<(), Error>) {
        let ghost sent = update;
        match send_update_on_channel(&self.sender, update) {
            Ok(()) => {
                proof {
                    self.history@ = self.history@.push(sent);
                }
                Ok(())
            },
            Err(e) => Err(e),
        }
    }
}

/// Handle for signaling that the driver should shut down.
pub struct Stop {
    sender: std::sync::mpsc::Sender<()>,
}

impl Stop {
    /// Request that the dispatch loop terminate at its next poll, within one
    /// polling interval. Idempotent in intent: any number of calls, from any
    /// thread, even after the loop has already exited, and none of them
    /// blocks.
    pub fn stop(&self) {
        send_stop_signal(&self.sender);
    }
}

impl Clone for Stop {
    /// Another handle for the same stop signal.
    fn clone(&self) -> Stop {
        Stop { sender: clone_stop_sender(&self.sender) }
    }
}

/// The driver's own end of the stop signal, created by [`ZmqDriver::new`]
/// and consumed by the shell that runs the dispatch loop.
pub struct ZmqDriver {
    stop_receiver: std::sync::mpsc::Receiver<()>,
}

impl ZmqDriver {
    /// Create a driver and the handle for stopping it.
    pub fn new() -> (ZmqDriver, Stop) {
        let (stop_sender, stop_receiver) = stop_channel();
        let stop = Stop { sender: stop_sender };
        let driver = ZmqDriver { stop_receiver };
        (driver, stop)
    }

    /// Hand the receiving end of the stop signal to the loop shell.
    pub fn into_stop_receiver(self) -> std::sync::mpsc::Receiver<()> {
        self.stop_receiver
    }
}

} // verus!
