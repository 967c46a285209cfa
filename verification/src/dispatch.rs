//! The steady-state dispatch step: translate one inbound message into a
//! domain event, deliver it, and acknowledge it.
//!
//! The dispatch loop itself blocks on a channel, so its shell lives with the
//! I/O code; each iteration hands the receive outcome to [`loop_iteration`],
//! which decides everything: reply to liveness probes, translate and forward
//! notifications, acknowledge them after they are queued (never before), and
//! tell the shell when to consult the stop signal.

use vstd::prelude::*;

use crate::convert::{block_of_wire, peer_info_of_wire, peer_message_of_wire};
use crate::engine::Update;
use crate::errors::Error;
use crate::messages::{Message, MessageType, Payload};
use crate::ports::{MessageSender, RecvOutcome, UpdateSink};

verus! {

/// The diagnostic carried by the fatal receive error that a disconnected
/// inbound channel causes.
pub open spec fn disconnect_diagnostic() -> Seq<char> {
    "message sender disconnected"@
}

/// What the translation step does with one inbound non-ping message.
pub enum Translation {
    /// Forward this update and acknowledge the message.
    Emit(Update),
    /// Unrecognized message type: skip it, with no update and no
    /// acknowledgment.
    Ignore,
    /// The content does not decode as the record its type tag demands.
    Unparsable,
}

/// The total mapping from wire message type and decoded content to the
/// domain event model.
pub open spec fn translate_spec(message_type: MessageType, content: Payload) -> Translation {
    match message_type {
        MessageType::NotifyPeerConnected => match content {
            Payload::PeerConnected(peer_info) => Translation::Emit(
                Update::PeerConnected(peer_info_of_wire(peer_info)),
            ),
            _ => Translation::Unparsable,
        },
        MessageType::NotifyPeerDisconnected => match content {
            Payload::PeerDisconnected(peer_id) => Translation::Emit(
                Update::PeerDisconnected(peer_id),
            ),
            _ => Translation::Unparsable,
        },
        MessageType::NotifyPeerMessage => match content {
            Payload::PeerMessage { message, header: Some(header), sender_id } => Translation::Emit(
                Update::PeerMessage(peer_message_of_wire(message, header), sender_id),
            ),
            _ => Translation::Unparsable,
        },
        MessageType::NotifyBlockNew => match content {
            Payload::BlockNew(block) => Translation::Emit(Update::BlockNew(block_of_wire(block))),
            _ => Translation::Unparsable,
        },
        MessageType::NotifyBlockValid => match content {
            Payload::BlockValid(block_id) => Translation::Emit(Update::BlockValid(block_id)),
            _ => Translation::Unparsable,
        },
        MessageType::NotifyBlockInvalid => match content {
            Payload::BlockInvalid(block_id) => Translation::Emit(Update::BlockInvalid(block_id)),
            _ => Translation::Unparsable,
        },
        MessageType::NotifyBlockCommit => match content {
            Payload::BlockCommit(block_id) => Translation::Emit(Update::BlockCommit(block_id)),
            _ => Translation::Unparsable,
        },
        MessageType::NotifyEngineDeactivated => Translation::Emit(Update::Shutdown),
        _ => Translation::Ignore,
    }
}

/// Decode one inbound non-ping message into its update, `Ok(None)` for an
/// unrecognized type, or an encoding error for content that does not match
/// its type tag.
pub fn translate(message_type: MessageType, content: Payload) -> (r: Result<Option<Update>, Error>)
    ensures
        match translate_spec(message_type, content) {
            Translation::Emit(update) => r == Ok::<Option<Update>, Error>(Some(update)),
            Translation::Ignore => r == Ok::<Option<Update>, Error>(None::<Update>),
            Translation::Unparsable => r matches Err(Error::EncodingError(_)),
        },
{
    match message_type {
        MessageType::NotifyPeerConnected => match content {
            Payload::PeerConnected(peer_info) => Ok(
                Some(Update::PeerConnected(crate::engine::PeerInfo::from(peer_info))),
            ),
            _ => Err(Error::EncodingError("malformed peer-connected notification".to_owned())),
        },
        MessageType::NotifyPeerDisconnected => match content {
            Payload::PeerDisconnected(peer_id) => Ok(Some(Update::PeerDisconnected(peer_id))),
            _ => Err(Error::EncodingError("malformed peer-disconnected notification".to_owned())),
        },
        MessageType::NotifyPeerMessage => match content {
            Payload::PeerMessage { message, header: Some(header), sender_id } => Ok(
                Some(
                    Update::PeerMessage(
                        crate::convert::from_consensus_peer_message(message, header),
                        sender_id,
                    ),
                ),
            ),
            _ => Err(Error::EncodingError("malformed peer-message notification".to_owned())),
        },
        MessageType::NotifyBlockNew => match content {
            Payload::BlockNew(block) => Ok(Some(Update::BlockNew(crate::engine::Block::from(block)))),
            _ => Err(Error::EncodingError("malformed block-new notification".to_owned())),
        },
        MessageType::NotifyBlockValid => match content {
            Payload::BlockValid(block_id) => Ok(Some(Update::BlockValid(block_id))),
            _ => Err(Error::EncodingError("malformed block-valid notification".to_owned())),
        },
        MessageType::NotifyBlockInvalid => match content {
            Payload::BlockInvalid(block_id) => Ok(Some(Update::BlockInvalid(block_id))),
            _ => Err(Error::EncodingError("malformed block-invalid notification".to_owned())),
        },
        MessageType::NotifyBlockCommit => match content {
            Payload::BlockCommit(block_id) => Ok(Some(Update::BlockCommit(block_id))),
            _ => Err(Error::EncodingError("malformed block-commit notification".to_owned())),
        },
        MessageType::NotifyEngineDeactivated => Ok(Some(Update::Shutdown)),
        _ => Ok(None),
    }
}

/// Handle one inbound non-ping message: translate it, queue the update, and
/// only then acknowledge the message under its own correlation id. If
/// queuing fails, no acknowledgment is sent. An unrecognized type is skipped
/// with nothing queued and nothing acknowledged; undecodable content is an
/// encoding error with nothing queued and nothing acknowledged.
pub fn handle_update<S: MessageSender, U: UpdateSink>(
    msg: Message,
    validator_sender: &mut S,
    update_sender: &mut U,
) -> (r: Result<(), Error>)
    ensures
        translate_spec(msg.message_type, msg.content) matches Translation::Unparsable ==> r
            matches Err(Error::EncodingError(_)) && final(update_sender).queued() == old(update_sender).queued() && final(validator_sender).replied() == old(validator_sender).replied(),
        translate_spec(msg.message_type, msg.content) matches Translation::Ignore ==> r == Ok::<
            (),
            Error,
        >(()) && final(update_sender).queued() == old(update_sender).queued() && final(validator_sender).replied() == old(validator_sender).replied(),
        // Success on a forwarded notification means: exactly its update
        // queued, then exactly one acknowledgment under the message's own
        // correlation id.
        translate_spec(msg.message_type, msg.content) matches Translation::Emit(update) ==> (r
            matches Ok(()) ==> final(update_sender).queued() == old(update_sender).queued().push(
            update,
        ) && final(validator_sender).replied() == old(validator_sender).replied().push(
            (MessageType::NotifyAck, msg.correlation_id@, Payload::Empty),
        )),
        // A failure on a forwarded notification is a send failure of the
        // channel or of the transport, and never acknowledges the message.
        translate_spec(msg.message_type, msg.content) matches Translation::Emit(_) ==> (r matches
            Err(e) ==> e matches Error::SendError(_) && final(validator_sender).replied() == old(validator_sender).replied()),
        // The acknowledgment never precedes the queued update: anything
        // handed to the transport here means the update was queued first.
        translate_spec(msg.message_type, msg.content) matches Translation::Emit(update) ==> (final(update_sender).queued() != old(update_sender).queued() || final(validator_sender).replied() != old(validator_sender).replied() ==> final(update_sender).queued() == old(update_sender).queued().push(update)),
{
    let Message { message_type, correlation_id, content } = msg;
    match translate(message_type, content)? {
        None => Ok(()),
        Some(update) => {
            update_sender.send_update(update)?;
            validator_sender.reply(MessageType::NotifyAck, correlation_id, Payload::Empty)?;
            Ok(())
        },
    }
}

/// Reply to a liveness probe on the probe's own correlation id: on success,
/// exactly one liveness response under that id was handed to the transport.
pub fn send_ping_reply<S: MessageSender>(
    validator_sender: &mut S,
    correlation_id: String,
) -> (r: Result<(), Error>)
    ensures
        r matches Ok(()) ==> final(validator_sender).replied() == old(validator_sender).replied().push((MessageType::PingResponse, correlation_id@, Payload::Empty)),
        r matches Err(e) ==> e matches Error::SendError(_) && final(validator_sender).replied()
            == old(validator_sender).replied(),
{
    validator_sender.reply(MessageType::PingResponse, correlation_id, Payload::Empty)
}

/// What the shell must do after one dispatch iteration.
#[derive(Clone, Copy, Debug, PartialEq, Eq, Structural)]
pub enum LoopFlow {
    /// Loop again without consulting the stop signal.
    Continue,
    /// Consult the stop signal; if it is set, emit the terminal update with
    /// [`finish_shutdown`] and exit successfully.
    CheckStop,
}

/// One iteration of the dispatch loop, over the outcome of one bounded
/// receive. A timeout leads to the stop check; a disconnection or transport
/// failure is fatal; a liveness probe is answered on the same correlation id
/// with no update and no stop check; any other message goes through
/// [`handle_update`] and then the stop check.
pub fn loop_iteration<S: MessageSender, U: UpdateSink>(
    outcome: RecvOutcome,
    validator_sender: &mut S,
    update_sender: &mut U,
) -> (r: Result<LoopFlow, Error>)
    ensures
        match outcome {
            RecvOutcome::TimedOut => r == Ok::<LoopFlow, Error>(LoopFlow::CheckStop) && final(update_sender).queued() == old(update_sender).queued() && final(validator_sender).replied() == old(validator_sender).replied(),
            RecvOutcome::Disconnected => r matches Err(Error::ReceiveError(s)) && s@
                == disconnect_diagnostic() && final(update_sender).queued() == old(update_sender).queued() && final(validator_sender).replied() == old(validator_sender).replied(),
            RecvOutcome::Failed(d) => r == Err::<LoopFlow, Error>(Error::ReceiveError(d)) && final(update_sender).queued() == old(update_sender).queued() && final(validator_sender).replied() == old(validator_sender).replied(),
            RecvOutcome::Received(m) => if m.message_type == MessageType::PingRequest {
                // A probe is answered on its own id, emits nothing, and never
                // asks for the stop check.
                &&& (r matches Ok(flow) ==> flow == LoopFlow::Continue && final(validator_sender).replied() == old(validator_sender).replied().push(
                    (MessageType::PingResponse, m.correlation_id@, Payload::Empty),
                ))
                &&& (r matches Err(e) ==> e matches Error::SendError(_) && final(validator_sender).replied() == old(validator_sender).replied())
                &&& final(update_sender).queued() == old(update_sender).queued()
            } else {
                match translate_spec(m.message_type, m.content) {
                    Translation::Unparsable => r matches Err(Error::EncodingError(_)) && final(update_sender).queued() == old(update_sender).queued() && final(validator_sender).replied()
                        == old(validator_sender).replied(),
                    Translation::Ignore => r == Ok::<LoopFlow, Error>(LoopFlow::CheckStop)
                        && final(update_sender).queued() == old(update_sender).queued() && final(validator_sender).replied() == old(validator_sender).replied(),
                    Translation::Emit(update) => {
                        &&& (r matches Ok(flow) ==> flow == LoopFlow::CheckStop && final(update_sender).queued() == old(update_sender).queued().push(update) && final(validator_sender).replied() == old(validator_sender).replied().push(
                            (MessageType::NotifyAck, m.correlation_id@, Payload::Empty),
                        ))
                        &&& (r matches Err(e) ==> e matches Error::SendError(_) && final(validator_sender).replied() == old(validator_sender).replied())
                        &&& (final(update_sender).queued() != old(update_sender).queued() || final(validator_sender).replied() != old(validator_sender).replied() ==> final(update_sender).queued() == old(update_sender).queued().push(update))
                    },
                }
            },
        },
{
    match outcome {
        RecvOutcome::TimedOut => Ok(LoopFlow::CheckStop),
        RecvOutcome::Disconnected => Err(
            Error::ReceiveError("message sender disconnected".to_owned()),
        ),
        RecvOutcome::Failed(diagnostic) => Err(Error::ReceiveError(diagnostic)),
        RecvOutcome::Received(msg) => {
            if msg.message_type == MessageType::PingRequest {
                send_ping_reply(validator_sender, msg.correlation_id)?;
                Ok(LoopFlow::Continue)
            } else {
                handle_update(msg, validator_sender, update_sender)?;
                Ok(LoopFlow::CheckStop)
            }
        },
    }
}

/// Emit the terminal `Shutdown` update. The shell calls this once, after the
/// stop signal is observed, and exits; no update follows it.
pub fn finish_shutdown<U: UpdateSink>(update_sender: &mut U) -> (r: Result<(), Error>)
    ensures
        r matches Ok(()) ==> final(update_sender).queued() == old(update_sender).queued().push(
            Update::Shutdown,
        ),
        r matches Err(e) ==> e matches Error::SendError(_) && final(update_sender).queued() == old(update_sender).queued(),
{
    update_sender.send_update(Update::Shutdown)
}

} // verus!
