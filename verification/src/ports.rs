//! The ports through which the verified core touches the outside world.
//!
//! The message connection and the event channel perform I/O, so the core
//! never owns them: callers hand in implementations of these traits. Each
//! trait carries a spec view of what has been handed to it, and its methods
//! promise only how one call moves that view: an accepted reply or update is
//! appended, a refused one changes nothing. Whether a call is accepted
//! depends on the network and on the peer thread, so nothing promises
//! success; every function of the core states what it hands to the ports and
//! what holds of its result either way. These promises bind the unverified
//! implementations outside the library, which are plain forwarders to the
//! transport and to a channel.

use vstd::prelude::*;

use crate::engine::Update;
use crate::errors::Error;
use crate::messages::{Message, MessageType, Payload};

verus! {

/// The outbound half of the message connection. Cloneable and thread-safe by
/// the transport's own contract; safe to drive from two threads at once.
pub trait MessageSender {
    /// The replies handed to the transport so far, in order: message type,
    /// correlation id, payload.
    spec fn replied(&self) -> Seq<(MessageType, Seq<char>, Payload)>;

    /// Send a request tagged with `correlation_id` and block for the
    /// correlated reply, up to `timeout_ms` milliseconds. Sending a request
    /// hands the transport no reply.
    fn send(
        &mut self,
        message_type: MessageType,
        correlation_id: String,
        content: Payload,
        timeout_ms: u64,
    ) -> (r: Result<Message, Error>)
        ensures
            final(self).replied() == old(self).replied(),
    ;

    /// Fire-and-forget reply on an existing correlation id. A refused reply
    /// is a transport-level send failure and hands the transport nothing.
    fn reply(
        &mut self,
        message_type: MessageType,
        correlation_id: String,
        content: Payload,
    ) -> (r: Result<(), Error>)
        ensures
            r matches Ok(()) ==> final(self).replied() == old(self).replied().push(
                (message_type, correlation_id@, content),
            ),
            r matches Err(e) ==> e matches Error::SendError(_) && final(self).replied() == old(
                self,
            ).replied(),
    ;
}

/// The sending end of the ordered event channel to engine logic.
pub trait UpdateSink {
    /// The updates queued so far, in order.
    spec fn queued(&self) -> Seq<Update>;

    /// Queue one update; the channel preserves the order of queued updates.
    /// A refused update is a send failure (the receiving end is gone) and
    /// queues nothing.
    fn send_update(&mut self, update: Update) -> (r: Result<(), Error>)
        ensures
            r matches Ok(()) ==> final(self).queued() == old(self).queued().push(update),
            r matches Err(e) ==> e matches Error::SendError(_) && final(self).queued() == old(
                self,
            ).queued(),
    ;
}

/// An in-memory update sink: collects the queued updates in order. When
/// `refuse` is set it refuses every update with a send error, the behavior
/// of a channel whose receiving end is gone.
pub struct CollectingSink {
    pub updates: Vec<Update>,
    pub refuse: bool,
}

impl CollectingSink {
    /// An empty, accepting sink.
    pub fn new() -> (r: CollectingSink)
        ensures
            r.queued() == Seq::<Update>::empty(),
            r.refuse == false,
    {
        CollectingSink { updates: Vec::new(), refuse: false }
    }
}

impl UpdateSink for CollectingSink {
    open spec fn queued(&self) -> Seq<Update> {
        self.updates@
    }

    fn send_update(&mut self, update: Update) -> (r: Result<(), Error>) {
        if self.refuse {
            Err(Error::SendError("the receiving end is gone".to_owned()))
        } else {
            self.updates.push(update);
            Ok(())
        }
    }
}

/// An in-memory message sender: records every reply in order and answers
/// each send from a scripted list of responses, in order, failing with a
/// receive error once the script runs out. When `refuse_replies` is set it
/// refuses every reply with a send error, the behavior of a transport whose
/// connection is gone.
pub struct RecordingSender {
    pub replies: Vec<(MessageType, String, Payload)>,
    pub responses: Vec<Message>,
    pub refuse_replies: bool,
}

impl RecordingSender {
    /// A sender with no scripted responses that accepts every reply.
    pub fn new() -> (r: RecordingSender)
        ensures
            r.replied() == Seq::<(MessageType, Seq<char>, Payload)>::empty(),
            r.refuse_replies == false,
            r.responses@ == Seq::<Message>::empty(),
    {
        RecordingSender { replies: Vec::new(), responses: Vec::new(), refuse_replies: false }
    }
}

impl MessageSender for RecordingSender {
    open spec fn replied(&self) -> Seq<(MessageType, Seq<char>, Payload)> {
        self.replies@.map_values(|t: (MessageType, String, Payload)| (t.0, t.1@, t.2))
    }

    fn send(
        &mut self,
        _message_type: MessageType,
        _correlation_id: String,
        _content: Payload,
        _timeout_ms: u64,
    ) -> (r: Result<Message, Error>) {
        if self.responses.len() > 0 {
            Ok(self.responses.remove(0))
        } else {
            Err(Error::ReceiveError("no reply arrived".to_owned()))
        }
    }

    fn reply(
        &mut self,
        message_type: MessageType,
        correlation_id: String,
        content: Payload,
    ) -> (r: Result<(), Error>) {
        if self.refuse_replies {
            Err(Error::SendError("the connection is gone".to_owned()))
        } else {
            let ghost entry = (message_type, correlation_id, content);
            self.replies.push((message_type, correlation_id, content));
            proof {
                assert(self.replied() =~= old(self).replied().push(
                    (entry.0, entry.1@, entry.2),
                ));
            }
            Ok(())
        }
    }
}

/// What one bounded receive on the inbound message channel produced.
#[derive(Clone, Debug, PartialEq, Eq)]
pub enum RecvOutcome {
    /// A protocol message arrived.
    Received(Message),
    /// Nothing arrived within the polling interval.
    TimedOut,
    /// The transport's sending side is gone; nothing will arrive any more.
    Disconnected,
    /// The transport failed to receive or decode an envelope; the string is
    /// its diagnostic.
    Failed(String),
}

} // verus!
