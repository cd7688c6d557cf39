//! The orchestrator's logic: classifying how each attempt ended and
//! composing one outcome record per candidate address.
//!
//! The unverified binary races every attempt against a fixed time budget and
//! reports how the race ended as an [`AttemptEvent`]; what outcome that event
//! means, and that a batch yields exactly one record per address — each
//! depending on that address's own attempt alone — is decided here.

use vstd::prelude::*;

use crate::addr::PeerAddr;
use crate::errors::HandshakeError;

verus! {

/// Number of seconds one handshake attempt may take before the orchestrator
/// abandons it.
pub const ATTEMPT_TIMEOUT_SECS: u64 = 4;

/// How the race between one attempt and its time budget ended, as the
/// runtime reports it.
#[derive(Debug, PartialEq, Eq)]
pub enum AttemptEvent {
    /// The attempt finished in time with the engine's own outcome.
    Completed(Result<(), HandshakeError>),
    /// The attempt finished in time but with a runtime error outside the
    /// handshake taxonomy.
    RuntimeError(String),
    /// The attempt's task could not be joined (it was cancelled or
    /// panicked).
    JoinFailed(String),
    /// The time budget elapsed first; the attempt's result is discarded.
    TimedOut,
}

/// The outcome an attempt event classifies to: an engine outcome passes
/// through unchanged, everything synthesized around the attempt becomes the
/// matching orchestrator-level failure.
pub open spec fn spec_classify(e: AttemptEvent) -> Result<(), HandshakeError> {
    match e {
        AttemptEvent::Completed(outcome) => outcome,
        AttemptEvent::RuntimeError(cause) => Err(HandshakeError::OrchestrationRuntimeError(cause)),
        AttemptEvent::JoinFailed(cause) => Err(HandshakeError::TaskJoinFailed(cause)),
        AttemptEvent::TimedOut => Err(HandshakeError::AttemptTimedOut),
    }
}

/// Classify one attempt's ending.  In particular, an attempt that outlives
/// the time budget yields `AttemptTimedOut`, and a handshake failure keeps
/// its own classification.
pub fn classify_attempt(e: AttemptEvent) -> (r: Result<(), HandshakeError>)
    ensures
        r == spec_classify(e),
{
    match e {
        AttemptEvent::Completed(outcome) => outcome,
        AttemptEvent::RuntimeError(cause) => Err(HandshakeError::OrchestrationRuntimeError(cause)),
        AttemptEvent::JoinFailed(cause) => Err(HandshakeError::TaskJoinFailed(cause)),
        AttemptEvent::TimedOut => Err(HandshakeError::AttemptTimedOut),
    }
}

/// One line of the batch's log: which address was attempted and how it
/// ended.  On failure the record keeps the classified kind together with its
/// underlying cause, so no diagnostic detail is lost.
#[derive(Debug, PartialEq, Eq)]
pub struct OutcomeRecord {
    /// The candidate address this record is about.
    pub addr: PeerAddr,
    /// Success, or the classified failure of this address's attempt.
    pub outcome: Result<(), HandshakeError>,
}

/// Compose the batch's outcome log: one record per candidate address, in
/// input order, each holding the classification of that address's own
/// attempt event and of nothing else.  No attempt's failure suppresses or
/// alters another address's record.
pub fn batch_outcomes(addrs: &Vec<PeerAddr>, events: Vec<AttemptEvent>) -> (r: Vec<OutcomeRecord>)
    requires
        addrs@.len() == events@.len(),
    ensures
        r@.len() == addrs@.len(),
        forall|i: int|
            0 <= i < r@.len() ==> r@[i].addr == addrs@[i] && r@[i].outcome == spec_classify(
                events@[i],
            ),
{
    let ghost all = events@;
    let mut events = events;
    let mut records: Vec<OutcomeRecord> = Vec::new();
    let mut i: usize = 0;
    while i < addrs.len()
        invariant
            i <= addrs@.len(),
            addrs@.len() == all.len(),
            events@ =~= all.skip(i as int),
            records@.len() == i,
            forall|j: int|
                0 <= j < i ==> records@[j].addr == addrs@[j] && records@[j].outcome
                    == spec_classify(all[j]),
        decreases addrs@.len() - i,
    {
        let e = events.remove(0);
        proof {
            assert(all.skip(i as int)[0] == all[i as int]);
            assert(all.skip(i as int).remove(0) =~= all.skip(i as int + 1));
        }
        let outcome = classify_attempt(e);
        records.push(OutcomeRecord { addr: addrs[i], outcome });
        proof {
            assert(records@[i as int].addr == addrs@[i as int]);
            assert(records@[i as int].outcome == spec_classify(all[i as int]));
        }
        i = i + 1;
    }
    records
}

} // verus!
