//! The activation waiter: the fallback path taken when the registration
//! response carried no startup state.
//!
//! The waiter polls the inbound channel with a short timeout, ignores
//! timeouts and every message that is not the engine-activated notification,
//! and on that notification decodes the startup state, acknowledges the
//! message under its own correlation id, and hands the state back. The
//! polling shell blocks on the transport, so it lives with the I/O code and
//! feeds each receive outcome to [`activation_step`].

use vstd::prelude::*;

use crate::convert::{block_of_wire, peer_info_of_wire};
use crate::engine::{Block, PeerInfo, StartupState};
use crate::errors::Error;
use crate::messages::{ConsensusPeerInfo, MessageType, Payload};
use crate::ports::{MessageSender, RecvOutcome};
use crate::register::peer_infos_from_wire;

verus! {

/// What one receive outcome did to the wait for activation.
pub enum ActivationFlow {
    /// Nothing decisive arrived: poll again.
    KeepWaiting,
    /// The engine-activated notification arrived and was acknowledged; here
    /// is the startup state it carried.
    Activated(StartupState),
}

/// Judge one receive outcome while waiting for activation. A timeout or a
/// message of any other type keeps the wait going, with nothing sent; a
/// disconnection or transport failure aborts it; the engine-activated
/// notification yields exactly the startup state it carries, after one
/// acknowledgment on its own correlation id, with a malformed one failing as
/// an encoding error without an acknowledgment.
pub fn activation_step<S: MessageSender>(
    outcome: RecvOutcome,
    validator_sender: &mut S,
) -> (r: Result<ActivationFlow, Error>)
    ensures
        match outcome {
            RecvOutcome::TimedOut => r matches Ok(ActivationFlow::KeepWaiting) && final(validator_sender).replied() == old(validator_sender).replied(),
            RecvOutcome::Disconnected => r matches Err(Error::ReceiveError(s)) && s@
                == crate::dispatch::disconnect_diagnostic() && final(validator_sender).replied()
                == old(validator_sender).replied(),
            RecvOutcome::Failed(d) => r == Err::<ActivationFlow, Error>(Error::ReceiveError(d))
                && final(validator_sender).replied() == old(validator_sender).replied(),
            RecvOutcome::Received(m) => if m.message_type != MessageType::NotifyEngineActivated {
                r matches Ok(ActivationFlow::KeepWaiting) && final(validator_sender).replied()
                    == old(validator_sender).replied()
            } else {
                match m.content {
                    Payload::EngineActivated(record) => {
                        // Success is never a further wait: it is the decoded
                        // state, acknowledged on the notification's own id.
                        &&& (r matches Ok(flow) ==> flow matches ActivationFlow::Activated(st)
                            && st.chain_head == block_of_wire(record.chain_head)
                            && st.local_peer_info == peer_info_of_wire(record.local_peer_info)
                            && st.peers@ == record.peers@.map_values(
                            |c: ConsensusPeerInfo| peer_info_of_wire(c),
                        ) && final(validator_sender).replied() == old(validator_sender).replied().push((MessageType::NotifyAck, m.correlation_id@, Payload::Empty)))
                        &&& (r matches Err(e) ==> e matches Error::SendError(_) && final(validator_sender).replied() == old(validator_sender).replied())
                    },
                    _ => r matches Err(Error::EncodingError(_)) && final(validator_sender).replied() == old(validator_sender).replied(),
                }
            },
        },
{
    match outcome {
        RecvOutcome::TimedOut => Ok(ActivationFlow::KeepWaiting),
        RecvOutcome::Disconnected => Err(
            Error::ReceiveError("message sender disconnected".to_owned()),
        ),
        RecvOutcome::Failed(diagnostic) => Err(Error::ReceiveError(diagnostic)),
        RecvOutcome::Received(msg) => {
            if msg.message_type == MessageType::NotifyEngineActivated {
                match msg.content {
                    Payload::EngineActivated(record) => {
                        let peers = peer_infos_from_wire(record.peers);
                        let state = StartupState {
                            chain_head: Block::from(record.chain_head),
                            peers,
                            local_peer_info: PeerInfo::from(record.local_peer_info),
                        };
                        validator_sender.reply(
                            MessageType::NotifyAck,
                            msg.correlation_id,
                            Payload::Empty,
                        )?;
                        Ok(ActivationFlow::Activated(state))
                    },
                    _ => Err(
                        Error::EncodingError("malformed engine-activated notification".to_owned()),
                    ),
                }
            } else {
                Ok(ActivationFlow::KeepWaiting)
            }
        },
    }
}

} // verus!
