use consensus_driver::activation::{activation_step, ActivationFlow};
use consensus_driver::dispatch::{finish_shutdown, loop_iteration, LoopFlow};
use consensus_driver::engine::{PeerInfo, Update};
use consensus_driver::errors::Error;
use consensus_driver::messages::{
    ConsensusBlock, ConsensusPeerInfo, ConsensusPeerMessage, ConsensusPeerMessageHeader,
    EngineActivated, Message, MessageType, Payload, RegisterResponse, RegisterStatus,
};
use consensus_driver::ports::{CollectingSink, RecordingSender, RecvOutcome};
use consensus_driver::register::{
    build_register_message, build_register_request, register_step, RegisterDecision,
};

fn wire_block(num: u64) -> ConsensusBlock {
    ConsensusBlock {
        block_id: vec![b'B'],
        previous_id: vec![b'A'],
        signer_id: vec![1],
        block_num: num,
        payload: vec![],
        summary: vec![],
    }
}

fn msg(message_type: MessageType, correlation_id: &str, content: Payload) -> Message {
    Message { message_type, correlation_id: correlation_id.to_string(), content }
}

/// Run the dispatch loop as its shell would, over a fixed schedule of
/// receive outcomes; the stop signal becomes visible once `stop_after`
/// iterations have consulted it.
fn run_loop(
    outcomes: Vec<RecvOutcome>,
    sender: &mut RecordingSender,
    sink: &mut CollectingSink,
    stop_pending: impl Fn(usize) -> bool,
) -> Result<bool, Error> {
    let mut checks = 0usize;
    for outcome in outcomes {
        match loop_iteration(outcome, sender, sink)? {
            LoopFlow::Continue => {}
            LoopFlow::CheckStop => {
                let stop = stop_pending(checks);
                checks += 1;
                if stop {
                    finish_shutdown(sink)?;
                    return Ok(true);
                }
            }
        }
    }
    Ok(false)
}

#[test]
fn activation_waits_past_timeouts_and_foreign_messages() {
    let mut sender = RecordingSender::new();
    let r = activation_step(RecvOutcome::TimedOut, &mut sender).unwrap();
    assert!(matches!(r, ActivationFlow::KeepWaiting));
    let foreign = msg(MessageType::PingRequest, "x", Payload::Empty);
    let r = activation_step(RecvOutcome::Received(foreign), &mut sender).unwrap();
    assert!(matches!(r, ActivationFlow::KeepWaiting));
    assert!(sender.replies.is_empty());
}

#[test]
fn activation_decodes_state_and_acknowledges() {
    let mut sender = RecordingSender::new();
    let record = EngineActivated {
        chain_head: wire_block(7),
        peers: vec![ConsensusPeerInfo { peer_id: vec![2] }],
        local_peer_info: ConsensusPeerInfo { peer_id: vec![3] },
    };
    let m = msg(
        MessageType::NotifyEngineActivated,
        "act-1",
        Payload::EngineActivated(record),
    );
    let r = activation_step(RecvOutcome::Received(m), &mut sender).unwrap();
    match r {
        ActivationFlow::Activated(state) => {
            assert_eq!(state.chain_head.block_num, 7);
            assert_eq!(state.peers, vec![PeerInfo { peer_id: vec![2] }]);
            assert_eq!(state.local_peer_info, PeerInfo { peer_id: vec![3] });
        }
        ActivationFlow::KeepWaiting => panic!("activation was not recognized"),
    }
    assert_eq!(
        sender.replies,
        vec![(MessageType::NotifyAck, "act-1".to_string(), Payload::Empty)],
    );
}

#[test]
fn activation_malformed_record_fails() {
    let mut sender = RecordingSender::new();
    let m = msg(MessageType::NotifyEngineActivated, "act-2", Payload::Malformed);
    let r = activation_step(RecvOutcome::Received(m), &mut sender);
    assert!(matches!(r, Err(Error::EncodingError(_))));
    assert!(sender.replies.is_empty());
}

#[test]
fn activation_disconnection_aborts() {
    let mut sender = RecordingSender::new();
    let r = activation_step(RecvOutcome::Disconnected, &mut sender);
    assert!(matches!(r, Err(Error::ReceiveError(_))));
}

#[test]
fn updates_arrive_in_receipt_order_then_exactly_one_shutdown() {
    let mut sender = RecordingSender::new();
    let mut sink = CollectingSink::new();
    let outcomes = vec![
        RecvOutcome::Received(msg(
            MessageType::NotifyBlockNew,
            "c1",
            Payload::BlockNew(wire_block(1)),
        )),
        RecvOutcome::Received(msg(
            MessageType::NotifyBlockValid,
            "c2",
            Payload::BlockValid(vec![b'B']),
        )),
        RecvOutcome::Received(msg(
            MessageType::NotifyPeerDisconnected,
            "c3",
            Payload::PeerDisconnected(vec![5]),
        )),
        RecvOutcome::TimedOut,
    ];
    // The stop request arrives only after all three notifications were handled.
    let stopped = run_loop(outcomes, &mut sender, &mut sink, |checks| checks >= 3).unwrap();
    assert!(stopped);
    assert_eq!(sink.updates.len(), 4);
    assert!(matches!(sink.updates[0], Update::BlockNew(_)));
    assert_eq!(sink.updates[1], Update::BlockValid(vec![b'B']));
    assert_eq!(sink.updates[2], Update::PeerDisconnected(vec![5]));
    assert_eq!(sink.updates[3], Update::Shutdown);
    // One acknowledgment per forwarded notification, under its own id.
    let ack_ids: Vec<&str> = sender.replies.iter().map(|r| r.1.as_str()).collect();
    assert_eq!(ack_ids, vec!["c1", "c2", "c3"]);
}

#[test]
fn disconnection_mid_dispatch_terminates_with_receive_error() {
    let mut sender = RecordingSender::new();
    let mut sink = CollectingSink::new();
    let outcomes = vec![
        RecvOutcome::Received(msg(
            MessageType::NotifyBlockNew,
            "c1",
            Payload::BlockNew(wire_block(1)),
        )),
        RecvOutcome::Disconnected,
    ];
    let r = run_loop(outcomes, &mut sender, &mut sink, |_| false);
    assert!(matches!(r, Err(Error::ReceiveError(_))));
    assert_eq!(sink.updates.len(), 1);
}

#[test]
fn mock_engine_session_end_to_end() {
    // Registration: name "mock", version "0", additional protocol ("1", "Mock").
    let request = build_register_request(
        "mock".to_string(),
        "0".to_string(),
        vec![("1".to_string(), "Mock".to_string())],
    );
    let register_msg = build_register_message(request);
    assert_eq!(register_msg.message_type, MessageType::RegisterRequest);

    // The validator replies OK without chain head or peer info.
    let response = RegisterResponse {
        status: RegisterStatus::Okay,
        chain_head: None,
        peers: Vec::new(),
        local_peer_info: None,
    };
    let decision = register_step(msg(
        MessageType::RegisterResponse,
        "reg-1",
        Payload::RegisterResponse(response),
    ));
    assert!(matches!(decision, RegisterDecision::Complete(None)));

    // So the driver waits for activation, which carries block number 7 and
    // one peer, and acknowledges it.
    let mut sender = RecordingSender::new();
    let record = EngineActivated {
        chain_head: wire_block(7),
        peers: vec![ConsensusPeerInfo { peer_id: vec![2] }],
        local_peer_info: ConsensusPeerInfo { peer_id: vec![3] },
    };
    let flow = activation_step(
        RecvOutcome::Received(msg(
            MessageType::NotifyEngineActivated,
            "act",
            Payload::EngineActivated(record),
        )),
        &mut sender,
    )
    .unwrap();
    let state = match flow {
        ActivationFlow::Activated(state) => state,
        ActivationFlow::KeepWaiting => panic!("activation was not recognized"),
    };
    assert_eq!(state.chain_head.block_num, 7);
    assert_eq!(sender.replies.len(), 1);
    assert_eq!(sender.replies[0].1, "act");
    sender.replies.clear();

    // Steady state: every notification once, a liveness probe, then stop.
    let peer_message = ConsensusPeerMessage {
        header: vec![1],
        header_signature: vec![2],
        content: vec![3],
    };
    let peer_header = ConsensusPeerMessageHeader {
        signer_id: vec![4],
        content_sha512: vec![5],
        message_type: "t".to_string(),
        name: "mock".to_string(),
        version: "0".to_string(),
    };
    let outcomes = vec![
        RecvOutcome::Received(msg(
            MessageType::NotifyPeerConnected,
            "n1",
            Payload::PeerConnected(ConsensusPeerInfo { peer_id: vec![2] }),
        )),
        RecvOutcome::Received(msg(
            MessageType::NotifyPeerDisconnected,
            "n2",
            Payload::PeerDisconnected(vec![2]),
        )),
        RecvOutcome::Received(msg(
            MessageType::NotifyPeerMessage,
            "n3",
            Payload::PeerMessage {
                message: peer_message,
                header: Some(peer_header),
                sender_id: vec![2],
            },
        )),
        RecvOutcome::Received(msg(
            MessageType::NotifyBlockNew,
            "n4",
            Payload::BlockNew(wire_block(8)),
        )),
        RecvOutcome::Received(msg(
            MessageType::NotifyBlockValid,
            "n5",
            Payload::BlockValid(vec![b'B']),
        )),
        RecvOutcome::Received(msg(
            MessageType::NotifyBlockInvalid,
            "n6",
            Payload::BlockInvalid(vec![b'B']),
        )),
        RecvOutcome::Received(msg(
            MessageType::NotifyBlockCommit,
            "n7",
            Payload::BlockCommit(vec![b'B']),
        )),
        RecvOutcome::Received(msg(MessageType::PingRequest, "ping-1", Payload::Empty)),
        RecvOutcome::TimedOut,
    ];
    let mut sink = CollectingSink::new();
    let stopped = run_loop(outcomes, &mut sender, &mut sink, |checks| checks >= 7).unwrap();
    assert!(stopped);

    let kinds: Vec<&'static str> = sink.updates.iter().map(|u| match u {
        Update::PeerConnected(_) => "PeerConnected",
        Update::PeerDisconnected(_) => "PeerDisconnected",
        Update::PeerMessage(_, _) => "PeerMessage",
        Update::BlockNew(_) => "BlockNew",
        Update::BlockValid(_) => "BlockValid",
        Update::BlockInvalid(_) => "BlockInvalid",
        Update::BlockCommit(_) => "BlockCommit",
        Update::Shutdown => "Shutdown",
    }).collect();
    assert_eq!(
        kinds,
        vec![
            "PeerConnected",
            "PeerDisconnected",
            "PeerMessage",
            "BlockNew",
            "BlockValid",
            "BlockInvalid",
            "BlockCommit",
            "Shutdown",
        ],
    );

    // Each notification was acknowledged under its own correlation id, and
    // the probe got its liveness reply on its own id.
    let mut acks = Vec::new();
    let mut pings = Vec::new();
    for (message_type, correlation_id, _) in &sender.replies {
        match message_type {
            MessageType::NotifyAck => acks.push(correlation_id.as_str()),
            MessageType::PingResponse => pings.push(correlation_id.as_str()),
            _ => panic!("unexpected reply type"),
        }
    }
    assert_eq!(acks, vec!["n1", "n2", "n3", "n4", "n5", "n6", "n7"]);
    assert_eq!(pings, vec!["ping-1"]);
}
