//! The protocol message vocabulary exchanged with the validator.
//!
//! A [`Message`] is the envelope the transport delivers: a type tag, a
//! correlation id used to match replies to requests, and a content payload.
//! Payload encoding is the transport's concern; here a payload is the
//! already-decoded structured record, with [`Payload::Malformed`] standing
//! for bytes that did not decode as any known record.

use vstd::prelude::*;

verus! {

/// The fixed vocabulary of wire-level message types.
#[derive(Clone, Copy, Debug, PartialEq, Eq, Structural)]
pub enum MessageType {
    RegisterRequest,
    RegisterResponse,
    NotifyEngineActivated,
    NotifyEngineDeactivated,
    NotifyAck,
    NotifyPeerConnected,
    NotifyPeerDisconnected,
    NotifyPeerMessage,
    NotifyBlockNew,
    NotifyBlockValid,
    NotifyBlockInvalid,
    NotifyBlockCommit,
    PingRequest,
    PingResponse,
    /// Any message type outside the vocabulary above.
    Other,
}

/// Status carried by a registration response.
#[derive(Clone, Copy, Debug, PartialEq, Eq, Structural)]
pub enum RegisterStatus {
    /// The validator accepted the registration.
    Okay,
    /// The validator is not ready yet; the engine should retry.
    NotReady,
    /// An explicit failure status other than not-ready.
    Failed,
    /// No status was set on the response.
    Unset,
}

/// Wire record for a block, as carried by block notifications and
/// registration/activation responses.
#[derive(Clone, Debug, PartialEq, Eq)]
pub struct ConsensusBlock {
    pub block_id: Vec<u8>,
    pub previous_id: Vec<u8>,
    pub signer_id: Vec<u8>,
    pub block_num: u64,
    pub payload: Vec<u8>,
    pub summary: Vec<u8>,
}

/// Wire record identifying a peer.
#[derive(Clone, Debug, PartialEq, Eq)]
pub struct ConsensusPeerInfo {
    pub peer_id: Vec<u8>,
}

/// Wire record for the signed header of a peer-to-peer consensus message.
#[derive(Clone, Debug, PartialEq, Eq)]
pub struct ConsensusPeerMessageHeader {
    pub signer_id: Vec<u8>,
    pub content_sha512: Vec<u8>,
    pub message_type: String,
    pub name: String,
    pub version: String,
}

/// Wire record for a peer-to-peer consensus message. `header` holds the raw
/// header bytes; their decoded form travels beside this record in
/// [`Payload::PeerMessage`].
#[derive(Clone, Debug, PartialEq, Eq)]
pub struct ConsensusPeerMessage {
    pub header: Vec<u8>,
    pub header_signature: Vec<u8>,
    pub content: Vec<u8>,
}

/// One additional protocol (name, version) declared in a registration request.
#[derive(Clone, Debug, PartialEq, Eq)]
pub struct Protocol {
    pub name: String,
    pub version: String,
}

/// Wire record for the registration request the engine sends.
#[derive(Clone, Debug, PartialEq, Eq)]
pub struct RegisterRequest {
    pub name: String,
    pub version: String,
    pub additional_protocols: Vec<Protocol>,
}

/// Wire record for the validator's registration response. A response from an
/// older validator carries the initial chain head and local peer info; a
/// newer one leaves them unset and sends an activation notification later.
#[derive(Clone, Debug, PartialEq, Eq)]
pub struct RegisterResponse {
    pub status: RegisterStatus,
    pub chain_head: Option<ConsensusBlock>,
    pub peers: Vec<ConsensusPeerInfo>,
    pub local_peer_info: Option<ConsensusPeerInfo>,
}

/// Wire record for the engine-activated notification.
#[derive(Clone, Debug, PartialEq, Eq)]
pub struct EngineActivated {
    pub chain_head: ConsensusBlock,
    pub peers: Vec<ConsensusPeerInfo>,
    pub local_peer_info: ConsensusPeerInfo,
}

/// The decoded content of a protocol message.
#[derive(Clone, Debug, PartialEq, Eq)]
pub enum Payload {
    RegisterRequest(RegisterRequest),
    RegisterResponse(RegisterResponse),
    EngineActivated(EngineActivated),
    PeerConnected(ConsensusPeerInfo),
    PeerDisconnected(Vec<u8>),
    PeerMessage {
        message: ConsensusPeerMessage,
        /// The decoded form of `message.header`; `None` when those bytes do
        /// not decode as a peer-message header.
        header: Option<ConsensusPeerMessageHeader>,
        sender_id: Vec<u8>,
    },
    BlockNew(ConsensusBlock),
    BlockValid(Vec<u8>),
    BlockInvalid(Vec<u8>),
    BlockCommit(Vec<u8>),
    /// A message whose type needs no content (acks, pings, deactivation).
    Empty,
    /// Content bytes that did not decode as the record its type tag demands.
    Malformed,
}

/// The envelope the transport delivers and accepts: a type tag, a correlation
/// id matching replies to requests, and the content payload.
#[derive(Clone, Debug, PartialEq, Eq)]
pub struct Message {
    pub message_type: MessageType,
    pub correlation_id: String,
    pub content: Payload,
}

} // verus!
