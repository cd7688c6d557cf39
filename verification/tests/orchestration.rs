//! Tests of outcome classification and batch composition.

use bitcoin_node_handshake::addr::{ipv4_mapped_segments, ipv4_peer_addr, PeerAddr};
use bitcoin_node_handshake::errors::HandshakeError;
use bitcoin_node_handshake::machine::{engine_run, outcome_of, NetEvent};
use bitcoin_node_handshake::orchestrator::{
    batch_outcomes, classify_attempt, AttemptEvent, OutcomeRecord, ATTEMPT_TIMEOUT_SECS,
};
use bitcoin_node_handshake::params::{
    default_port, Network, MAGIC_MAINNET, MAGIC_TESTNET, PORT_MAINNET, PORT_TESTNET,
};

#[test]
fn a_timed_out_attempt_classifies_as_attempt_timed_out() {
    assert_eq!(classify_attempt(AttemptEvent::TimedOut), Err(HandshakeError::AttemptTimedOut));
}

#[test]
fn an_unjoinable_task_classifies_as_task_join_failure() {
    assert_eq!(
        classify_attempt(AttemptEvent::JoinFailed("task cancelled".to_string())),
        Err(HandshakeError::TaskJoinFailed("task cancelled".to_string()))
    );
}

#[test]
fn a_runtime_error_outside_the_taxonomy_gets_its_own_kind() {
    assert_eq!(
        classify_attempt(AttemptEvent::RuntimeError("worker pool gone".to_string())),
        Err(HandshakeError::OrchestrationRuntimeError("worker pool gone".to_string()))
    );
}

#[test]
fn a_completed_attempt_keeps_the_engine_outcome() {
    assert_eq!(classify_attempt(AttemptEvent::Completed(Ok(()))), Ok(()));
    let failure = HandshakeError::VersionDecodeFailed("bad checksum".to_string());
    assert_eq!(
        classify_attempt(AttemptEvent::Completed(Err(failure.clone()))),
        Err(failure)
    );
}

#[test]
fn one_record_per_address_whatever_each_attempt_did() {
    let addrs = vec![
        ipv4_peer_addr(203, 0, 113, 1, 8333),
        ipv4_peer_addr(203, 0, 113, 2, 8333),
        ipv4_peer_addr(203, 0, 113, 3, 8333),
        ipv4_peer_addr(203, 0, 113, 4, 8333),
    ];
    let events = vec![
        AttemptEvent::Completed(Ok(())),
        AttemptEvent::TimedOut,
        AttemptEvent::Completed(Err(HandshakeError::ConnectionFailed("refused".to_string()))),
        AttemptEvent::JoinFailed("panicked".to_string()),
    ];
    let records = batch_outcomes(&addrs, events);
    assert_eq!(records.len(), addrs.len());
    for (record, addr) in records.iter().zip(addrs.iter()) {
        assert_eq!(record.addr, *addr);
    }
    assert_eq!(records[0].outcome, Ok(()));
    assert_eq!(records[1].outcome, Err(HandshakeError::AttemptTimedOut));
    assert_eq!(
        records[2].outcome,
        Err(HandshakeError::ConnectionFailed("refused".to_string()))
    );
    assert_eq!(records[3].outcome, Err(HandshakeError::TaskJoinFailed("panicked".to_string())));
}

#[test]
fn a_hanging_peer_does_not_suppress_the_next_record() {
    // First address hangs (its attempt ends only by timeout); the second
    // responded immediately.  Both still get their own record, and the
    // second's success is untouched by the first's fate.
    let addrs = vec![ipv4_peer_addr(203, 0, 113, 9, 8333), ipv4_peer_addr(203, 0, 113, 10, 8333)];
    let events = vec![AttemptEvent::TimedOut, AttemptEvent::Completed(Ok(()))];
    let records = batch_outcomes(&addrs, events);
    assert_eq!(records.len(), 2);
    assert_eq!(
        records[0],
        OutcomeRecord {
            addr: ipv4_peer_addr(203, 0, 113, 9, 8333),
            outcome: Err(HandshakeError::AttemptTimedOut),
        }
    );
    assert_eq!(
        records[1],
        OutcomeRecord { addr: ipv4_peer_addr(203, 0, 113, 10, 8333), outcome: Ok(()) }
    );
}

#[test]
fn an_unreachable_mainnet_peer_is_logged_with_address_and_cause() {
    // Mainnet sweep over one unreachable address: the attempt's record names
    // the address and carries the connection error's own text.
    let addr = ipv4_peer_addr(203, 0, 113, 1, PORT_MAINNET);
    let cause = "connection timed out (os error 110)".to_string();
    let (state, milestones) = engine_run(vec![NetEvent::ConnectFailed(cause.clone())]);
    assert!(milestones.is_empty());
    let outcome = outcome_of(state).expect("a failed connection ends the attempt");
    let records = batch_outcomes(&vec![addr], vec![AttemptEvent::Completed(outcome)]);
    assert_eq!(records.len(), 1);
    assert_eq!(records[0].addr, addr);
    assert_eq!(records[0].outcome, Err(HandshakeError::ConnectionFailed(cause)));
}

#[test]
fn network_constants_match_the_protocol() {
    assert_eq!(MAGIC_MAINNET, 0xD9B4BEF9);
    assert_eq!(MAGIC_TESTNET, 0x0709110B);
    assert_eq!(PORT_MAINNET, 8333);
    assert_eq!(PORT_TESTNET, 18333);
    assert_eq!(default_port(Network::Mainnet), PORT_MAINNET);
    assert_eq!(default_port(Network::Testnet), PORT_TESTNET);
    assert_eq!(ATTEMPT_TIMEOUT_SECS, 4);
}

#[test]
fn ipv4_addresses_map_into_the_wire_address_form() {
    assert_eq!(
        ipv4_mapped_segments(203, 0, 113, 1),
        [0, 0, 0, 0, 0, 0xFFFF, 0xCB00, 0x7101]
    );
    let addr: PeerAddr = ipv4_peer_addr(127, 0, 0, 1, 8333);
    assert_eq!(addr.segments, [0, 0, 0, 0, 0, 0xFFFF, 0x7F00, 0x0001]);
    assert_eq!(addr.port, 8333);
}

#[test]
fn an_empty_address_list_yields_an_empty_log() {
    let records = batch_outcomes(&Vec::new(), Vec::new());
    assert!(records.is_empty());
}
