//! Tests of the handshake protocol engine.

use bitcoin_node_handshake::errors::{ExpectedMessage, HandshakeError};
use bitcoin_node_handshake::machine::{
    engine_init, engine_run, next_action, outcome_of, step, EngineState, Milestone, NetAction,
    NetEvent,
};
use bitcoin_node_handshake::addr::ipv4_peer_addr;
use bitcoin_node_handshake::wire::MessagePayload;

fn success_events() -> Vec<NetEvent> {
    let local = ipv4_peer_addr(192, 168, 0, 2, 50000);
    let remote = ipv4_peer_addr(203, 0, 113, 1, 8333);
    vec![
        NetEvent::Connected { local, remote },
        NetEvent::Sent,
        NetEvent::Received(MessagePayload::Version(70015)),
        NetEvent::Sent,
        NetEvent::Received(MessagePayload::Verack),
    ]
}

#[test]
fn successful_run_yields_success_and_four_milestones_in_order() {
    let (state, milestones) = engine_run(success_events());
    assert_eq!(state, EngineState::Handshaken);
    assert_eq!(
        milestones,
        vec![
            Milestone::SentVersion,
            Milestone::GotVersion(70015),
            Milestone::SentVerack,
            Milestone::GotVerack,
        ]
    );
    assert_eq!(outcome_of(state), Some(Ok(())));
}

#[test]
fn non_version_first_reply_is_a_protocol_violation_not_a_decode_error() {
    let local = ipv4_peer_addr(192, 168, 0, 2, 50000);
    let remote = ipv4_peer_addr(203, 0, 113, 1, 8333);
    for first_reply in [MessagePayload::Verack, MessagePayload::Other] {
        let events = vec![
            NetEvent::Connected { local, remote },
            NetEvent::Sent,
            NetEvent::Received(first_reply),
        ];
        let (state, milestones) = engine_run(events);
        assert_eq!(
            state,
            EngineState::Failed(HandshakeError::UnexpectedMessage {
                expected: ExpectedMessage::Version
            })
        );
        assert_eq!(milestones, vec![Milestone::SentVersion]);
    }
}

#[test]
fn non_verack_second_reply_is_a_protocol_violation() {
    let local = ipv4_peer_addr(192, 168, 0, 2, 50000);
    let remote = ipv4_peer_addr(203, 0, 113, 1, 8333);
    let events = vec![
        NetEvent::Connected { local, remote },
        NetEvent::Sent,
        NetEvent::Received(MessagePayload::Version(70015)),
        NetEvent::Sent,
        NetEvent::Received(MessagePayload::Other),
    ];
    let (state, _) = engine_run(events);
    assert_eq!(
        state,
        EngineState::Failed(HandshakeError::UnexpectedMessage {
            expected: ExpectedMessage::Verack
        })
    );
}

#[test]
fn each_operation_failure_gets_its_own_classification() {
    let local = ipv4_peer_addr(10, 0, 0, 1, 50000);
    let remote = ipv4_peer_addr(203, 0, 113, 1, 8333);
    let connected = NetEvent::Connected { local, remote };
    let version = NetEvent::Received(MessagePayload::Version(1));
    let cause = || "boom".to_string();
    let cases: Vec<(Vec<NetEvent>, HandshakeError)> = vec![
        (
            vec![NetEvent::ConnectFailed(cause())],
            HandshakeError::ConnectionFailed(cause()),
        ),
        (
            vec![NetEvent::StreamCloneFailed(cause())],
            HandshakeError::StreamDuplicationFailed(cause()),
        ),
        (
            vec![NetEvent::EndpointFailed(cause())],
            HandshakeError::EndpointResolutionFailed(cause()),
        ),
        (
            vec![connected.clone(), NetEvent::SendFailed(cause())],
            HandshakeError::VersionSendFailed(cause()),
        ),
        (
            vec![connected.clone(), NetEvent::Sent, NetEvent::DecodeFailed(cause())],
            HandshakeError::VersionDecodeFailed(cause()),
        ),
        (
            vec![
                connected.clone(),
                NetEvent::Sent,
                version.clone(),
                NetEvent::SendFailed(cause()),
            ],
            HandshakeError::VerackSendFailed(cause()),
        ),
        (
            vec![
                connected.clone(),
                NetEvent::Sent,
                version.clone(),
                NetEvent::Sent,
                NetEvent::DecodeFailed(cause()),
            ],
            HandshakeError::VerackDecodeFailed(cause()),
        ),
    ];
    for (events, expected) in cases {
        let (state, _) = engine_run(events);
        assert_eq!(state, EngineState::Failed(expected));
    }
}

#[test]
fn the_engine_asks_for_operations_in_protocol_order() {
    let local = ipv4_peer_addr(10, 0, 0, 1, 50000);
    let remote = ipv4_peer_addr(203, 0, 113, 1, 8333);
    let mut state = engine_init();
    assert_eq!(next_action(&state), Some(NetAction::Connect));
    state = step(&state, &NetEvent::Connected { local, remote }).0;
    assert_eq!(next_action(&state), Some(NetAction::SendVersion { local, remote }));
    state = step(&state, &NetEvent::Sent).0;
    assert_eq!(next_action(&state), Some(NetAction::ReadMessage));
    state = step(&state, &NetEvent::Received(MessagePayload::Version(2))).0;
    assert_eq!(next_action(&state), Some(NetAction::SendVerack));
    state = step(&state, &NetEvent::Sent).0;
    assert_eq!(next_action(&state), Some(NetAction::ReadMessage));
    state = step(&state, &NetEvent::Received(MessagePayload::Verack)).0;
    assert_eq!(state, EngineState::Handshaken);
    assert_eq!(next_action(&state), None);
}

#[test]
fn a_run_stops_at_the_first_terminal_state() {
    let events = vec![
        NetEvent::ConnectFailed("no route to host".to_string()),
        NetEvent::Sent,
        NetEvent::Received(MessagePayload::Verack),
    ];
    let (state, milestones) = engine_run(events);
    assert_eq!(
        state,
        EngineState::Failed(HandshakeError::ConnectionFailed("no route to host".to_string()))
    );
    assert!(milestones.is_empty());
}
