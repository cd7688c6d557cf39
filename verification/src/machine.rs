//! The handshake protocol engine.
//!
//! One handshake attempt is a state machine driven by network events.  The
//! engine decides, the caller performs: [`next_action`] says which network
//! operation the current state calls for, the unverified driver performs it
//! and feeds the result back as a [`NetEvent`], and [`step`] moves to the next
//! state, possibly emitting a [`Milestone`] for the attempt's log.  There is
//! no backward transition and no retry: every operation either advances the
//! protocol or ends the attempt in a terminal [`EngineState::Failed`] state.

use vstd::prelude::*;

use crate::addr::PeerAddr;
use crate::errors::ExpectedMessage;
use crate::errors::HandshakeError;
use crate::wire::MessagePayload;

verus! {

/// The states of one handshake attempt, in protocol order.
#[derive(Clone, Debug, PartialEq, Eq)]
pub enum EngineState {
    /// The transport connection is being opened.
    Connecting,
    /// The connection is up and its endpoints are known; our `version`
    /// message is about to be sent.
    Connected { local: PeerAddr, remote: PeerAddr },
    /// Our `version` message is out; the peer's `version` is awaited.
    VersionSent,
    /// The peer's `version` arrived; our `verack` is about to be sent.
    VersionReceived,
    /// Our `verack` is out; the peer's `verack` is awaited.
    VerackSent,
    /// Terminal success: both directions exchanged `version` and
    /// acknowledged.
    Handshaken,
    /// Terminal failure, with its classification.
    Failed(HandshakeError),
}

/// The result of one network operation, as the driver reports it back.
#[derive(Clone, Debug, PartialEq, Eq)]
pub enum NetEvent {
    /// The connection is open and both endpoints could be read.
    Connected { local: PeerAddr, remote: PeerAddr },
    /// Opening the connection failed.
    ConnectFailed(String),
    /// Duplicating the connection handle for reading failed.
    StreamCloneFailed(String),
    /// Reading the local or remote endpoint failed.
    EndpointFailed(String),
    /// The requested write went through.
    Sent,
    /// The requested write failed.
    SendFailed(String),
    /// One message envelope was read and decoded.
    Received(MessagePayload),
    /// Reading or decoding one message envelope failed.
    DecodeFailed(String),
}

/// The network operation a state calls for.
#[derive(Clone, Copy, Debug, PartialEq, Eq)]
pub enum NetAction {
    /// Open the transport connection to the candidate address.
    Connect,
    /// Build and send our `version` message for these endpoints.
    SendVersion { local: PeerAddr, remote: PeerAddr },
    /// Read one message envelope from the peer.
    ReadMessage,
    /// Build and send our `verack` message.
    SendVerack,
}

/// A diagnostic milestone of one attempt, emitted at each successful
/// protocol transition, in protocol order.
#[derive(Clone, Copy, Debug, PartialEq, Eq, Structural)]
pub enum Milestone {
    /// Our `version` message went out.
    SentVersion,
    /// The peer's `version` arrived; carries its announced protocol version.
    GotVersion(u32),
    /// Our `verack` went out.
    SentVerack,
    /// The peer's `verack` arrived: the handshake is complete.
    GotVerack,
}

/// Whether `e` is an event the protocol can produce in state `s`: exactly the
/// possible results of the operation [`spec_action`] calls for there.
/// Terminal states call for nothing, so no event fits them.
pub open spec fn event_fits(s: EngineState, e: NetEvent) -> bool {
    match s {
        EngineState::Connecting => e is Connected || e is ConnectFailed || e is StreamCloneFailed
            || e is EndpointFailed,
        EngineState::Connected { .. } => e is Sent || e is SendFailed,
        EngineState::VersionSent => e is Received || e is DecodeFailed,
        EngineState::VersionReceived => e is Sent || e is SendFailed,
        EngineState::VerackSent => e is Received || e is DecodeFailed,
        EngineState::Handshaken => false,
        EngineState::Failed(_) => false,
    }
}

/// The transition relation of the engine: the state after event `e` arrives
/// in state `s`.  Meaningful where `event_fits(s, e)`; elsewhere it leaves
/// the state unchanged.
pub open spec fn spec_step(s: EngineState, e: NetEvent) -> EngineState {
    match (s, e) {
        (EngineState::Connecting, NetEvent::Connected { local, remote }) => EngineState::Connected {
            local,
            remote,
        },
        (EngineState::Connecting, NetEvent::ConnectFailed(cause)) => EngineState::Failed(
            HandshakeError::ConnectionFailed(cause),
        ),
        (EngineState::Connecting, NetEvent::StreamCloneFailed(cause)) => EngineState::Failed(
            HandshakeError::StreamDuplicationFailed(cause),
        ),
        (EngineState::Connecting, NetEvent::EndpointFailed(cause)) => EngineState::Failed(
            HandshakeError::EndpointResolutionFailed(cause),
        ),
        (EngineState::Connected { .. }, NetEvent::Sent) => EngineState::VersionSent,
        (EngineState::Connected { .. }, NetEvent::SendFailed(cause)) => EngineState::Failed(
            HandshakeError::VersionSendFailed(cause),
        ),
        (
            EngineState::VersionSent,
            NetEvent::Received(MessagePayload::Version(_)),
        ) => EngineState::VersionReceived,
        (EngineState::VersionSent, NetEvent::Received(_)) => EngineState::Failed(
            HandshakeError::UnexpectedMessage { expected: ExpectedMessage::Version },
        ),
        (EngineState::VersionSent, NetEvent::DecodeFailed(cause)) => EngineState::Failed(
            HandshakeError::VersionDecodeFailed(cause),
        ),
        (EngineState::VersionReceived, NetEvent::Sent) => EngineState::VerackSent,
        (EngineState::VersionReceived, NetEvent::SendFailed(cause)) => EngineState::Failed(
            HandshakeError::VerackSendFailed(cause),
        ),
        (EngineState::VerackSent, NetEvent::Received(MessagePayload::Verack)) => (
        EngineState::Handshaken),
        (EngineState::VerackSent, NetEvent::Received(_)) => EngineState::Failed(
            HandshakeError::UnexpectedMessage { expected: ExpectedMessage::Verack },
        ),
        (EngineState::VerackSent, NetEvent::DecodeFailed(cause)) => EngineState::Failed(
            HandshakeError::VerackDecodeFailed(cause),
        ),
        (other, _) => other,
    }
}

/// The milestone the transition from `s` under `e` emits, if any: one for
/// each successful protocol step past the connection itself.
pub open spec fn spec_milestone(s: EngineState, e: NetEvent) -> Option<Milestone> {
    match (s, e) {
        (EngineState::Connected { .. }, NetEvent::Sent) => Some(Milestone::SentVersion),
        (
            EngineState::VersionSent,
            NetEvent::Received(MessagePayload::Version(v)),
        ) => Some(Milestone::GotVersion(v)),
        (EngineState::VersionReceived, NetEvent::Sent) => Some(Milestone::SentVerack),
        (EngineState::VerackSent, NetEvent::Received(MessagePayload::Verack)) => Some(
            Milestone::GotVerack,
        ),
        (_, _) => None,
    }
}

/// The operation state `s` calls for next; `None` exactly on the two
/// terminal states.
pub open spec fn spec_action(s: EngineState) -> Option<NetAction> {
    match s {
        EngineState::Connecting => Some(NetAction::Connect),
        EngineState::Connected { local, remote } => Some(NetAction::SendVersion { local, remote }),
        EngineState::VersionSent => Some(NetAction::ReadMessage),
        EngineState::VersionReceived => Some(NetAction::SendVerack),
        EngineState::VerackSent => Some(NetAction::ReadMessage),
        EngineState::Handshaken => None,
        EngineState::Failed(_) => None,
    }
}

/// The state every attempt starts in.
pub fn engine_init() -> (r: EngineState)
    ensures
        r == EngineState::Connecting,
{
    EngineState::Connecting
}

/// The network operation the driver must perform next, or `None` once the
/// attempt is over.
pub fn next_action(s: &EngineState) -> (r: Option<NetAction>)
    ensures
        r == spec_action(*s),
{
    match s {
        EngineState::Connecting => Some(NetAction::Connect),
        EngineState::Connected { local, remote } => Some(
            NetAction::SendVersion { local: *local, remote: *remote },
        ),
        EngineState::VersionSent => Some(NetAction::ReadMessage),
        EngineState::VersionReceived => Some(NetAction::SendVerack),
        EngineState::VerackSent => Some(NetAction::ReadMessage),
        EngineState::Handshaken => None,
        EngineState::Failed(_) => None,
    }
}

/// Whether `e` can answer the operation `s` calls for.
pub fn fits(s: &EngineState, e: &NetEvent) -> (r: bool)
    ensures
        r == event_fits(*s, *e),
{
    match s {
        EngineState::Connecting => matches!(
            e,
            NetEvent::Connected { .. } | NetEvent::ConnectFailed(_) | NetEvent::StreamCloneFailed(
                _,
            ) | NetEvent::EndpointFailed(_)
        ),
        EngineState::Connected { .. } => matches!(e, NetEvent::Sent | NetEvent::SendFailed(_)),
        EngineState::VersionSent => matches!(e, NetEvent::Received(_) | NetEvent::DecodeFailed(_)),
        EngineState::VersionReceived => matches!(e, NetEvent::Sent | NetEvent::SendFailed(_)),
        EngineState::VerackSent => matches!(e, NetEvent::Received(_) | NetEvent::DecodeFailed(_)),
        EngineState::Handshaken => false,
        EngineState::Failed(_) => false,
    }
}

/// Advance the attempt by one event.  Returns the next state and the
/// milestone this transition emits, if any.
pub fn step(s: &EngineState, e: &NetEvent) -> (r: (EngineState, Option<Milestone>))
    requires
        event_fits(*s, *e),
    ensures
        r.0 == spec_step(*s, *e),
        r.1 == spec_milestone(*s, *e),
{
    match (s, e) {
        (EngineState::Connecting, NetEvent::Connected { local, remote }) => (
            EngineState::Connected { local: *local, remote: *remote },
            None,
        ),
        (EngineState::Connecting, NetEvent::ConnectFailed(cause)) => (
            EngineState::Failed(HandshakeError::ConnectionFailed(cause.clone())),
            None,
        ),
        (EngineState::Connecting, NetEvent::StreamCloneFailed(cause)) => (
            EngineState::Failed(HandshakeError::StreamDuplicationFailed(cause.clone())),
            None,
        ),
        (EngineState::Connecting, NetEvent::EndpointFailed(cause)) => (
            EngineState::Failed(HandshakeError::EndpointResolutionFailed(cause.clone())),
            None,
        ),
        (EngineState::Connected { .. }, NetEvent::Sent) => (
            EngineState::VersionSent,
            Some(Milestone::SentVersion),
        ),
        (EngineState::Connected { .. }, NetEvent::SendFailed(cause)) => (
            EngineState::Failed(HandshakeError::VersionSendFailed(cause.clone())),
            None,
        ),
        (EngineState::VersionSent, NetEvent::Received(MessagePayload::Version(v))) => (
            EngineState::VersionReceived,
            Some(Milestone::GotVersion(*v)),
        ),
        (EngineState::VersionSent, NetEvent::Received(_)) => (
            EngineState::Failed(
                HandshakeError::UnexpectedMessage { expected: ExpectedMessage::Version },
            ),
            None,
        ),
        (EngineState::VersionSent, NetEvent::DecodeFailed(cause)) => (
            EngineState::Failed(HandshakeError::VersionDecodeFailed(cause.clone())),
            None,
        ),
        (EngineState::VersionReceived, NetEvent::Sent) => (
            EngineState::VerackSent,
            Some(Milestone::SentVerack),
        ),
        (EngineState::VersionReceived, NetEvent::SendFailed(cause)) => (
            EngineState::Failed(HandshakeError::VerackSendFailed(cause.clone())),
            None,
        ),
        (EngineState::VerackSent, NetEvent::Received(MessagePayload::Verack)) => (
            EngineState::Handshaken,
            Some(Milestone::GotVerack),
        ),
        (EngineState::VerackSent, NetEvent::Received(_)) => (
            EngineState::Failed(
                HandshakeError::UnexpectedMessage { expected: ExpectedMessage::Verack },
            ),
            None,
        ),
        (EngineState::VerackSent, NetEvent::DecodeFailed(cause)) => (
            EngineState::Failed(HandshakeError::VerackDecodeFailed(cause.clone())),
            None,
        ),
        (_, _) => vstd::pervasive::unreached(),
    }
}

/// The attempt's outcome once it is terminal: success after `Handshaken`,
/// the classified failure after `Failed`; `None` while it is still running.
pub open spec fn spec_outcome(s: EngineState) -> Option<Result<(), HandshakeError>> {
    match s {
        EngineState::Handshaken => Some(Ok(())),
        EngineState::Failed(e) => Some(Err(e)),
        _ => None,
    }
}

/// Extract the outcome of a finished attempt; `None` while it is still
/// running.
pub fn outcome_of(s: EngineState) -> (r: Option<Result<(), HandshakeError>>)
    ensures
        r == spec_outcome(s),
{
    match s {
        EngineState::Handshaken => Some(Ok(())),
        EngineState::Failed(e) => Some(Err(e)),
        _ => None,
    }
}

/// The state the engine reaches from `s` after the events of `events`
/// arrive in order.  The fold stops early at the first event that cannot
/// answer the pending operation; in particular it stops at a terminal state,
/// which no event fits.
pub open spec fn run_steps(s: EngineState, events: Seq<NetEvent>) -> EngineState
    decreases events.len(),
{
    if events.len() == 0 || !event_fits(s, events[0]) {
        s
    } else {
        run_steps(spec_step(s, events[0]), events.drop_first())
    }
}

/// The milestones the engine emits from `s` over `events`, in order.
pub open spec fn run_milestones(s: EngineState, events: Seq<NetEvent>) -> Seq<Milestone>
    decreases events.len(),
{
    if events.len() == 0 || !event_fits(s, events[0]) {
        Seq::empty()
    } else {
        match spec_milestone(s, events[0]) {
            Some(m) => seq![m] + run_milestones(spec_step(s, events[0]), events.drop_first()),
            None => run_milestones(spec_step(s, events[0]), events.drop_first()),
        }
    }
}

/// Run one whole attempt over a recorded event sequence: fold [`step`] from
/// [`EngineState::Connecting`] over `events`, stopping at the first event
/// that does not fit.  Returns the final state and the milestones emitted on
/// the way, in order.
pub fn engine_run(events: Vec<NetEvent>) -> (r: (EngineState, Vec<Milestone>))
    ensures
        r.0 == run_steps(EngineState::Connecting, events@),
        r.1@ == run_milestones(EngineState::Connecting, events@),
{
    let ghost all = events@;
    let mut state = EngineState::Connecting;
    let mut milestones: Vec<Milestone> = Vec::new();
    let mut i: usize = 0;
    proof {
        assert(all.skip(0) =~= all);
        assert(Seq::<Milestone>::empty() + run_milestones(EngineState::Connecting, all)
            =~= run_milestones(EngineState::Connecting, all));
    }
    while i < events.len()
        invariant
            i <= all.len(),
            events@ == all,
            run_steps(EngineState::Connecting, all) == run_steps(state, all.skip(i as int)),
            run_milestones(EngineState::Connecting, all) == milestones@ + run_milestones(
                state,
                all.skip(i as int),
            ),
        decreases all.len() - i,
    {
        let e = &events[i];
        if !fits(&state, e) {
            proof {
                assert(run_steps(state, all.skip(i as int)) == state);
                assert(run_milestones(state, all.skip(i as int)) =~= Seq::<Milestone>::empty());
                assert(run_milestones(EngineState::Connecting, all) =~= milestones@);
            }
            return (state, milestones);
        }
        let (next, milestone) = step(&state, e);
        proof {
            assert(all.skip(i as int)[0] == all[i as int]);
            assert(all.skip(i as int).drop_first() =~= all.skip(i as int + 1));
        }
        if let Some(m) = milestone {
            milestones.push(m);
        }
        proof {
            assert(run_milestones(EngineState::Connecting, all) =~= milestones@ + run_milestones(
                next,
                all.skip(i as int + 1),
            ));
        }
        state = next;
        i = i + 1;
    }
    proof {
        assert(all.skip(all.len() as int) =~= Seq::<NetEvent>::empty());
        assert(run_milestones(EngineState::Connecting, all) =~= milestones@);
    }
    (state, milestones)
}

/// The event sequence of a fully successful attempt: the connection comes
/// up, our `version` goes out, the peer answers `version` (announcing
/// protocol version `v`), our `verack` goes out, the peer answers `verack`.
pub open spec fn success_events(local: PeerAddr, remote: PeerAddr, v: u32) -> Seq<NetEvent> {
    seq![
        NetEvent::Connected { local, remote },
        NetEvent::Sent,
        NetEvent::Received(MessagePayload::Version(v)),
        NetEvent::Sent,
        NetEvent::Received(MessagePayload::Verack),
    ]
}

/// A peer that completes `version`/`verack` in both directions yields
/// success, and the attempt emits exactly the four milestones, in protocol
/// order: version sent, version received, verack sent, verack received.
pub proof fn lemma_successful_run(local: PeerAddr, remote: PeerAddr, v: u32)
    ensures
        run_steps(EngineState::Connecting, success_events(local, remote, v))
            == EngineState::Handshaken,
        run_milestones(EngineState::Connecting, success_events(local, remote, v)) == seq![
            Milestone::SentVersion,
            Milestone::GotVersion(v),
            Milestone::SentVerack,
            Milestone::GotVerack,
        ],
{
    let e = success_events(local, remote, v);
    lemma_run_unfold(EngineState::Connecting, e);
    let s1 = EngineState::Connected { local, remote };
    assert(e.drop_first() =~= e.skip(1));
    lemma_run_unfold(s1, e.skip(1));
    assert(e.skip(1).drop_first() =~= e.skip(2));
    lemma_run_unfold(EngineState::VersionSent, e.skip(2));
    assert(e.skip(2).drop_first() =~= e.skip(3));
    lemma_run_unfold(EngineState::VersionReceived, e.skip(3));
    assert(e.skip(3).drop_first() =~= e.skip(4));
    lemma_run_unfold(EngineState::VerackSent, e.skip(4));
    assert(e.skip(4).drop_first() =~= e.skip(5));
    assert(e.skip(5) =~= Seq::<NetEvent>::empty());
    assert(run_milestones(EngineState::Connecting, e) =~= seq![
        Milestone::SentVersion,
        Milestone::GotVersion(v),
        Milestone::SentVerack,
        Milestone::GotVerack,
    ]);
}

/// A peer whose first reply is a well-formed message other than `version`
/// fails as a protocol violation — `UnexpectedMessage` expecting `version` —
/// not as a decode error.
pub proof fn lemma_unexpected_first_reply(local: PeerAddr, remote: PeerAddr, p: MessagePayload)
    requires
        !(p is Version),
    ensures
        run_steps(
            EngineState::Connecting,
            seq![NetEvent::Connected { local, remote }, NetEvent::Sent, NetEvent::Received(p)],
        ) == EngineState::Failed(
            HandshakeError::UnexpectedMessage { expected: ExpectedMessage::Version },
        ),
{
    let e = seq![
        NetEvent::Connected { local, remote },
        NetEvent::Sent,
        NetEvent::Received(p),
    ];
    lemma_run_unfold(EngineState::Connecting, e);
    let s1 = EngineState::Connected { local, remote };
    assert(e.drop_first() =~= e.skip(1));
    lemma_run_unfold(s1, e.skip(1));
    assert(e.skip(1).drop_first() =~= e.skip(2));
    lemma_run_unfold(EngineState::VersionSent, e.skip(2));
    assert(e.skip(2).drop_first() =~= e.skip(3));
    assert(e.skip(3) =~= Seq::<NetEvent>::empty());
}

/// The milestones still owed between state `s` and a successful finish:
/// from the start that is all four, in order — version sent, some version
/// received, verack sent, verack received — and each state past a milestone
/// owes one fewer.  No successful finish is owed from a failed state.
pub open spec fn milestones_owed(s: EngineState, ms: Seq<Milestone>) -> bool {
    match s {
        EngineState::Connecting | EngineState::Connected { .. } => ms.len() == 4 && ms[0]
            == Milestone::SentVersion && ms[1] is GotVersion && ms[2] == Milestone::SentVerack
            && ms[3] == Milestone::GotVerack,
        EngineState::VersionSent => ms.len() == 3 && ms[0] is GotVersion && ms[1]
            == Milestone::SentVerack && ms[2] == Milestone::GotVerack,
        EngineState::VersionReceived => ms.len() == 2 && ms[0] == Milestone::SentVerack && ms[1]
            == Milestone::GotVerack,
        EngineState::VerackSent => ms.len() == 1 && ms[0] == Milestone::GotVerack,
        EngineState::Handshaken => ms.len() == 0,
        EngineState::Failed(_) => false,
    }
}

/// Whatever the events were: an attempt that starts in `s` and ends in
/// success emits exactly the milestones still owed from `s`.
pub proof fn lemma_milestones_of_success(s: EngineState, events: Seq<NetEvent>)
    requires
        run_steps(s, events) == EngineState::Handshaken,
    ensures
        milestones_owed(s, run_milestones(s, events)),
    decreases events.len(),
{
    if events.len() == 0 || !event_fits(s, events[0]) {
    } else {
        let s2 = spec_step(s, events[0]);
        let rest = events.drop_first();
        lemma_milestones_of_success(s2, rest);
        let tail = run_milestones(s2, rest);
        match spec_milestone(s, events[0]) {
            Some(m) => {
                assert(run_milestones(s, events) == seq![m] + tail);
                assert((seq![m] + tail)[0] == m);
                assert(forall|i: int| 0 <= i < tail.len() ==> (seq![m] + tail)[i + 1] == tail[i]);
            },
            None => {
                assert(run_milestones(s, events) == tail);
            },
        }
    }
}

/// An attempt that ends in success — whatever the event sequence was —
/// emitted exactly four milestones, in protocol order: our `version` went
/// out, the peer's `version` came back, our `verack` went out, the peer's
/// `verack` came back.
pub proof fn lemma_success_emits_four_milestones(events: Seq<NetEvent>)
    requires
        run_steps(EngineState::Connecting, events) == EngineState::Handshaken,
    ensures
        run_milestones(EngineState::Connecting, events).len() == 4,
        run_milestones(EngineState::Connecting, events)[0] == Milestone::SentVersion,
        run_milestones(EngineState::Connecting, events)[1] is GotVersion,
        run_milestones(EngineState::Connecting, events)[2] == Milestone::SentVerack,
        run_milestones(EngineState::Connecting, events)[3] == Milestone::GotVerack,
{
    lemma_milestones_of_success(EngineState::Connecting, events);
}

/// One unfolding of [`run_steps`] and [`run_milestones`]: on a non-empty,
/// fitting event sequence the run is one step followed by the run over the
/// rest.
pub proof fn lemma_run_unfold(s: EngineState, events: Seq<NetEvent>)
    requires
        events.len() > 0,
        event_fits(s, events[0]),
    ensures
        run_steps(s, events) == run_steps(spec_step(s, events[0]), events.drop_first()),
        run_milestones(s, events) == match spec_milestone(s, events[0]) {
            Some(m) => seq![m] + run_milestones(spec_step(s, events[0]), events.drop_first()),
            None => run_milestones(spec_step(s, events[0]), events.drop_first()),
        },
{
}

} // verus!
