//! The domain model handed to engine logic: blocks, peers, peer messages,
//! the startup state resolved at registration or activation, and the
//! [`Update`] events the dispatch loop delivers.

use vstd::prelude::*;

verus! {

/// An opaque block identifier.
pub type BlockId = Vec<u8>;

/// An opaque peer identifier.
pub type PeerId = Vec<u8>;

/// A block, constructed from a notification payload. Immutable value.
#[derive(Clone, Debug, PartialEq, Eq)]
pub struct Block {
    pub block_id: BlockId,
    pub previous_id: BlockId,
    pub signer_id: PeerId,
    pub block_num: u64,
    pub payload: Vec<u8>,
    pub summary: Vec<u8>,
}

/// A peer known to the validator. Immutable value.
#[derive(Clone, Debug, PartialEq, Eq)]
pub struct PeerInfo {
    pub peer_id: PeerId,
}

/// The decoded header of a peer-to-peer consensus message.
#[derive(Clone, Debug, PartialEq, Eq)]
pub struct PeerMessageHeader {
    pub signer_id: Vec<u8>,
    pub content_sha512: Vec<u8>,
    pub message_type: String,
    pub name: String,
    pub version: String,
}

/// A peer-to-peer consensus message, reconstructed per received
/// peer-message notification.
#[derive(Clone, Debug, PartialEq, Eq)]
pub struct PeerMessage {
    pub header: PeerMessageHeader,
    pub header_bytes: Vec<u8>,
    pub header_signature: Vec<u8>,
    pub content: Vec<u8>,
}

/// The initial chain and peer state handed to engine logic exactly once per
/// successful driver start, either out of the registration response or out
/// of the activation notification.
#[derive(Clone, Debug, PartialEq, Eq)]
pub struct StartupState {
    pub chain_head: Block,
    pub peers: Vec<PeerInfo>,
    pub local_peer_info: PeerInfo,
}

/// A domain event delivered to engine logic, in the order the corresponding
/// protocol messages were received. `Shutdown` is terminal: no further
/// update follows it within one run.
#[derive(Clone, Debug, PartialEq, Eq)]
pub enum Update {
    PeerConnected(PeerInfo),
    PeerDisconnected(PeerId),
    PeerMessage(PeerMessage, PeerId),
    BlockNew(Block),
    BlockValid(BlockId),
    BlockInvalid(BlockId),
    BlockCommit(BlockId),
    Shutdown,
}

} // verus!
