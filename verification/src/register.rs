//! The registration handshake.
//!
//! The engine announces itself with a registration request and examines each
//! reply: an OK response completes the handshake (with the startup state when
//! the response carries both a chain head and the local peer info, without it
//! otherwise), a NOT_READY response asks for a resend after a backoff delay,
//! and anything else is a hard failure. The send/sleep/resend shell blocks on
//! the transport, so it lives with the I/O code; it builds each attempt with
//! [`build_register_message`], judges each reply with [`register_step`], and
//! advances the delay with [`next_delay`].

use rand::distributions::Alphanumeric;
use rand::Rng;

use vstd::prelude::*;

use crate::convert::{block_of_wire, peer_info_of_wire};
use crate::engine::{Block, PeerInfo, StartupState};
use crate::errors::Error;
use crate::messages::{
    ConsensusPeerInfo, Message, MessageType, Payload, RegisterRequest, RegisterResponse,
    RegisterStatus,
};

verus! {

/// The backoff delay before the first retry, in milliseconds.
pub const INITIAL_RETRY_DELAY_MS: u64 = 100;

/// The cap on the backoff delay, in milliseconds.
pub const MAX_RETRY_DELAY_MS: u64 = 3000;

/// The delay that follows `delay` in the backoff sequence: it doubles after
/// every retry and never passes the cap, and once at the cap it stays there.
pub open spec fn next_delay_spec(delay: int) -> int {
    if delay >= MAX_RETRY_DELAY_MS {
        delay
    } else if 2 * delay > MAX_RETRY_DELAY_MS {
        MAX_RETRY_DELAY_MS as int
    } else {
        2 * delay
    }
}

/// Advance the backoff delay after a NOT_READY response.
pub fn next_delay(delay: u64) -> (r: u64)
    ensures
        r as int == next_delay_spec(delay as int),
{
    if delay >= MAX_RETRY_DELAY_MS {
        delay
    } else if delay > MAX_RETRY_DELAY_MS / 2 {
        MAX_RETRY_DELAY_MS
    } else {
        2 * delay
    }
}

/// Whether a character is an ASCII letter or digit.
pub open spec fn is_ascii_alphanumeric_char(c: char) -> bool {
    ||| 48 <= c as u32 <= 57
    ||| 65 <= c as u32 <= 90
    ||| 97 <= c as u32 <= 122
}

/// Relies on rand's `thread_rng` and its `Alphanumeric` distribution, which
/// samples uniformly among the 62 ASCII letters and digits: sixteen sampled
/// values, each mapped through `char::from`, collect into a sixteen-character
/// alphanumeric string.
#[verifier::external_body]
fn generate_correlation_id() -> (r: String)
    ensures
        r@.len() == 16,
        forall|i: int| 0 <= i < r@.len() ==> is_ascii_alphanumeric_char(#[trigger] r@[i]),
{
    rand::thread_rng().sample_iter(&Alphanumeric).take(16).map(char::from).collect()
}

/// Assemble the registration request record from the engine's name, version
/// and additional protocols.
pub fn build_register_request(
    name: String,
    version: String,
    additional_protocols: Vec<(String, String)>,
) -> (r: RegisterRequest)
    ensures
        r.name == name,
        r.version == version,
        r.additional_protocols@.len() == additional_protocols@.len(),
        forall|i: int|
            0 <= i < additional_protocols@.len()
                ==> #[trigger] r.additional_protocols@[i] == (crate::messages::Protocol {
                name: additional_protocols@[i].0,
                version: additional_protocols@[i].1,
            }),
{
    let additional_protocols = crate::convert::protocols_from_tuples(additional_protocols);
    RegisterRequest { name, version, additional_protocols }
}

/// Wrap a registration request in an envelope under a fresh correlation id.
/// Every attempt, first send and each resend alike, gets a new id.
pub fn build_register_message(request: RegisterRequest) -> (r: Message)
    ensures
        r.message_type == MessageType::RegisterRequest,
        r.content == Payload::RegisterRequest(request),
        r.correlation_id@.len() == 16,
        forall|i: int|
            0 <= i < r.correlation_id@.len() ==> is_ascii_alphanumeric_char(
                #[trigger] r.correlation_id@[i],
            ),
{
    Message {
        message_type: MessageType::RegisterRequest,
        correlation_id: generate_correlation_id(),
        content: Payload::RegisterRequest(request),
    }
}

/// Convert the peers of a response or activation record, keeping their order.
pub fn peer_infos_from_wire(wire_peers: Vec<ConsensusPeerInfo>) -> (r: Vec<PeerInfo>)
    ensures
        r@ == wire_peers@.map_values(|c: ConsensusPeerInfo| peer_info_of_wire(c)),
{
    let ghost all = wire_peers@;
    let mut rest = wire_peers;
    let mut out: Vec<PeerInfo> = Vec::new();
    while rest.len() > 0
        invariant
            out@ + rest@.map_values(|c: ConsensusPeerInfo| peer_info_of_wire(c)) == all.map_values(
                |c: ConsensusPeerInfo| peer_info_of_wire(c),
            ),
        decreases rest.len(),
    {
        let next = rest.remove(0);
        out.push(PeerInfo { peer_id: next.peer_id });
        proof {
            assert(out@ + rest@.map_values(|c: ConsensusPeerInfo| peer_info_of_wire(c))
                =~= all.map_values(|c: ConsensusPeerInfo| peer_info_of_wire(c)));
        }
    }
    proof {
        assert(out@ =~= all.map_values(|c: ConsensusPeerInfo| peer_info_of_wire(c)));
    }
    out
}

/// The startup state a successful registration response carries: present
/// exactly when the response holds both a chain head and the local peer
/// info, absent on a response from a newer validator, which sends the state
/// with the activation notification instead.
pub fn startup_from_response(resp: RegisterResponse) -> (r: Option<StartupState>)
    ensures
        match (resp.chain_head, resp.local_peer_info) {
            (Some(chain_head), Some(local_peer_info)) => r matches Some(st) && st.chain_head
                == block_of_wire(chain_head) && st.local_peer_info == peer_info_of_wire(
                local_peer_info,
            ) && st.peers@ == resp.peers@.map_values(|c: ConsensusPeerInfo| peer_info_of_wire(c)),
            _ => r is None,
        },
{
    match (resp.chain_head, resp.local_peer_info) {
        (Some(chain_head), Some(local_peer_info)) => {
            let peers = peer_infos_from_wire(resp.peers);
            Some(
                StartupState {
                    chain_head: Block::from(chain_head),
                    peers,
                    local_peer_info: PeerInfo::from(local_peer_info),
                },
            )
        },
        _ => None,
    }
}

/// Whether a reply asks the handshake to back off and resend: a
/// registration response with status NOT_READY.
pub open spec fn reply_retries(msg: Message) -> bool {
    &&& msg.message_type == MessageType::RegisterResponse
    &&& match msg.content {
        Payload::RegisterResponse(resp) => resp.status == RegisterStatus::NotReady,
        _ => false,
    }
}

/// Whether a reply completes the handshake successfully: a registration
/// response with status OK.
pub open spec fn reply_accepts(msg: Message) -> bool {
    &&& msg.message_type == MessageType::RegisterResponse
    &&& match msg.content {
        Payload::RegisterResponse(resp) => resp.status == RegisterStatus::Okay,
        _ => false,
    }
}

/// Whether an accepting reply carries the startup state: both the chain head
/// and the local peer info are present.
pub open spec fn reply_carries_state(msg: Message) -> bool {
    &&& reply_accepts(msg)
    &&& match msg.content {
        Payload::RegisterResponse(resp) => resp.chain_head is Some && resp.local_peer_info
            is Some,
        _ => false,
    }
}

/// What one registration reply asks the handshake to do.
pub enum RegisterDecision {
    /// The handshake is over: the validator accepted the registration, with
    /// or without immediate startup state.
    Complete(Option<StartupState>),
    /// The validator is not ready: sleep for the current backoff delay and
    /// resend under a fresh correlation id.
    Retry,
    /// A hard failure; retrying would be wrong.
    Fail(Error),
}

/// Judge one reply to a registration request: an OK response completes the
/// handshake, NOT_READY asks for one retry, any other status is a
/// registration failure, a reply of the wrong type is a protocol violation,
/// and content that does not decode as a registration response is an
/// encoding error.
pub fn register_step(msg: Message) -> (r: RegisterDecision)
    ensures
        (r matches RegisterDecision::Retry) <==> reply_retries(msg),
        (r matches RegisterDecision::Complete(_)) <==> reply_accepts(msg),
        (r matches RegisterDecision::Complete(Some(_))) <==> reply_carries_state(msg),
        match msg.message_type {
            MessageType::RegisterResponse => match msg.content {
                Payload::RegisterResponse(resp) => match resp.status {
                    RegisterStatus::NotReady => r == RegisterDecision::Retry,
                    RegisterStatus::Failed | RegisterStatus::Unset => r == RegisterDecision::Fail(
                        Error::RegistrationFailure(resp.status),
                    ),
                    RegisterStatus::Okay => match (resp.chain_head, resp.local_peer_info) {
                        (Some(chain_head), Some(local_peer_info)) => r matches
                            RegisterDecision::Complete(Some(st)) && st.chain_head == block_of_wire(
                            chain_head,
                        ) && st.local_peer_info == peer_info_of_wire(local_peer_info) && st.peers@
                            == resp.peers@.map_values(
                            |c: ConsensusPeerInfo| peer_info_of_wire(c),
                        ),
                        _ => r == RegisterDecision::Complete(None::<StartupState>),
                    },
                },
                _ => r matches RegisterDecision::Fail(Error::EncodingError(_)),
            },
            _ => r == RegisterDecision::Fail(Error::UnexpectedMessageType(msg.message_type)),
        },
{
    match msg.message_type {
        MessageType::RegisterResponse => match msg.content {
            Payload::RegisterResponse(resp) => match resp.status {
                RegisterStatus::Okay => RegisterDecision::Complete(startup_from_response(resp)),
                RegisterStatus::NotReady => RegisterDecision::Retry,
                status => RegisterDecision::Fail(Error::RegistrationFailure(status)),
            },
            _ => RegisterDecision::Fail(
                Error::EncodingError("malformed registration response".to_owned()),
            ),
        },
        unexpected => RegisterDecision::Fail(Error::UnexpectedMessageType(unexpected)),
    }
}

} // verus!
