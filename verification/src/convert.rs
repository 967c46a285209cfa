//! Conversions between wire records and the domain model.
//!
//! Each conversion is field-for-field; the round-trip lemmas at the end state
//! that converting a record to the other form and back loses and reorders
//! nothing.

use vstd::prelude::*;

use crate::engine::{Block, PeerInfo, PeerMessage, PeerMessageHeader};
use crate::messages::{
    ConsensusBlock, ConsensusPeerInfo, ConsensusPeerMessage, ConsensusPeerMessageHeader, Protocol,
};

verus! {

/// The block a wire record stands for.
pub open spec fn block_of_wire(c: ConsensusBlock) -> Block {
    Block {
        block_id: c.block_id,
        previous_id: c.previous_id,
        signer_id: c.signer_id,
        block_num: c.block_num,
        payload: c.payload,
        summary: c.summary,
    }
}

/// The wire record a block is written as.
pub open spec fn wire_of_block(b: Block) -> ConsensusBlock {
    ConsensusBlock {
        block_id: b.block_id,
        previous_id: b.previous_id,
        signer_id: b.signer_id,
        block_num: b.block_num,
        payload: b.payload,
        summary: b.summary,
    }
}

/// The peer info a wire record stands for.
pub open spec fn peer_info_of_wire(c: ConsensusPeerInfo) -> PeerInfo {
    PeerInfo { peer_id: c.peer_id }
}

/// The wire record a peer info is written as.
pub open spec fn wire_of_peer_info(p: PeerInfo) -> ConsensusPeerInfo {
    ConsensusPeerInfo { peer_id: p.peer_id }
}

/// The peer message that a wire message and its decoded header stand for.
pub open spec fn peer_message_of_wire(
    c_msg: ConsensusPeerMessage,
    c_header: ConsensusPeerMessageHeader,
) -> PeerMessage {
    PeerMessage {
        header: PeerMessageHeader {
            signer_id: c_header.signer_id,
            content_sha512: c_header.content_sha512,
            message_type: c_header.message_type,
            name: c_header.name,
            version: c_header.version,
        },
        header_bytes: c_msg.header,
        header_signature: c_msg.header_signature,
        content: c_msg.content,
    }
}

/// The wire message and header a peer message is written as.
pub open spec fn wire_of_peer_message(p: PeerMessage) -> (
    ConsensusPeerMessage,
    ConsensusPeerMessageHeader,
) {
    (
        ConsensusPeerMessage {
            header: p.header_bytes,
            header_signature: p.header_signature,
            content: p.content,
        },
        ConsensusPeerMessageHeader {
            signer_id: p.header.signer_id,
            content_sha512: p.header.content_sha512,
            message_type: p.header.message_type,
            name: p.header.name,
            version: p.header.version,
        },
    )
}

impl From<ConsensusBlock> for Block {
    fn from(c_block: ConsensusBlock) -> (r: Block) {
        Block {
            block_id: c_block.block_id,
            previous_id: c_block.previous_id,
            signer_id: c_block.signer_id,
            block_num: c_block.block_num,
            payload: c_block.payload,
            summary: c_block.summary,
        }
    }
}

impl vstd::std_specs::convert::FromSpecImpl<ConsensusBlock> for Block {
    open spec fn obeys_from_spec() -> bool {
        true
    }

    open spec fn from_spec(c_block: ConsensusBlock) -> Block {
        block_of_wire(c_block)
    }
}

impl From<Block> for ConsensusBlock {
    fn from(block: Block) -> (r: ConsensusBlock) {
        ConsensusBlock {
            block_id: block.block_id,
            previous_id: block.previous_id,
            signer_id: block.signer_id,
            block_num: block.block_num,
            payload: block.payload,
            summary: block.summary,
        }
    }
}

impl vstd::std_specs::convert::FromSpecImpl<Block> for ConsensusBlock {
    open spec fn obeys_from_spec() -> bool {
        true
    }

    open spec fn from_spec(block: Block) -> ConsensusBlock {
        wire_of_block(block)
    }
}

impl From<ConsensusPeerInfo> for PeerInfo {
    fn from(c_peer_info: ConsensusPeerInfo) -> (r: PeerInfo) {
        PeerInfo { peer_id: c_peer_info.peer_id }
    }
}

impl vstd::std_specs::convert::FromSpecImpl<ConsensusPeerInfo> for PeerInfo {
    open spec fn obeys_from_spec() -> bool {
        true
    }

    open spec fn from_spec(c_peer_info: ConsensusPeerInfo) -> PeerInfo {
        peer_info_of_wire(c_peer_info)
    }
}

impl From<PeerInfo> for ConsensusPeerInfo {
    fn from(peer_info: PeerInfo) -> (r: ConsensusPeerInfo) {
        ConsensusPeerInfo { peer_id: peer_info.peer_id }
    }
}

impl vstd::std_specs::convert::FromSpecImpl<PeerInfo> for ConsensusPeerInfo {
    open spec fn obeys_from_spec() -> bool {
        true
    }

    open spec fn from_spec(peer_info: PeerInfo) -> ConsensusPeerInfo {
        wire_of_peer_info(peer_info)
    }
}

/// Combine a peer-message wire record with its separately decoded header.
pub fn from_consensus_peer_message(
    c_msg: ConsensusPeerMessage,
    c_msg_header: ConsensusPeerMessageHeader,
) -> (r: PeerMessage)
    ensures
        r == peer_message_of_wire(c_msg, c_msg_header),
{
    PeerMessage {
        header: PeerMessageHeader {
            signer_id: c_msg_header.signer_id,
            content_sha512: c_msg_header.content_sha512,
            message_type: c_msg_header.message_type,
            name: c_msg_header.name,
            version: c_msg_header.version,
        },
        header_bytes: c_msg.header,
        header_signature: c_msg.header_signature,
        content: c_msg.content,
    }
}

/// Split a peer message back into its wire record and header.
pub fn to_consensus_peer_message(p: PeerMessage) -> (r: (
    ConsensusPeerMessage,
    ConsensusPeerMessageHeader,
))
    ensures
        r == wire_of_peer_message(p),
{
    (
        ConsensusPeerMessage {
            header: p.header_bytes,
            header_signature: p.header_signature,
            content: p.content,
        },
        ConsensusPeerMessageHeader {
            signer_id: p.header.signer_id,
            content_sha512: p.header.content_sha512,
            message_type: p.header.message_type,
            name: p.header.name,
            version: p.header.version,
        },
    )
}

/// Build the protocol records for a registration request out of
/// (name, version) pairs, in order.
pub fn protocols_from_tuples(protocols: Vec<(String, String)>) -> (r: Vec<Protocol>)
    ensures
        r@.len() == protocols@.len(),
        forall|i: int|
            0 <= i < protocols@.len() ==> #[trigger] r@[i] == (Protocol {
                name: protocols@[i].0,
                version: protocols@[i].1,
            }),
{
    let mut out: Vec<Protocol> = Vec::new();
    let mut idx: usize = 0;
    while idx < protocols.len()
        invariant
            idx <= protocols@.len(),
            out@.len() == idx,
            forall|i: int|
                0 <= i < idx ==> #[trigger] out@[i] == (Protocol {
                    name: protocols@[i].0,
                    version: protocols@[i].1,
                }),
        decreases protocols@.len() - idx,
    {
        let p_name = protocols[idx].0.clone();
        let p_version = protocols[idx].1.clone();
        out.push(Protocol { name: p_name, version: p_version });
        idx = idx + 1;
    }
    out
}

/// Converting a block to its wire form and back is the identity, in both
/// directions: no field is lost or reordered.
pub proof fn lemma_block_round_trip(c_block: ConsensusBlock, block: Block)
    ensures
        wire_of_block(block_of_wire(c_block)) == c_block,
        block_of_wire(wire_of_block(block)) == block,
{
}

/// Converting a peer info to its wire form and back is the identity, in both
/// directions.
pub proof fn lemma_peer_info_round_trip(c_peer_info: ConsensusPeerInfo, peer_info: PeerInfo)
    ensures
        wire_of_peer_info(peer_info_of_wire(c_peer_info)) == c_peer_info,
        peer_info_of_wire(wire_of_peer_info(peer_info)) == peer_info,
{
}

/// Converting a peer message to its wire form and back is the identity, in
/// both directions.
pub proof fn lemma_peer_message_round_trip(
    c_msg: ConsensusPeerMessage,
    c_header: ConsensusPeerMessageHeader,
    p: PeerMessage,
)
    ensures
        wire_of_peer_message(peer_message_of_wire(c_msg, c_header)) == (c_msg, c_header),
        peer_message_of_wire(wire_of_peer_message(p).0, wire_of_peer_message(p).1) == p,
{
}

} // verus!
