//! The decisions of the connection supervisor: what one connection's events do to the
//! published snapshot, and when the supervisor stops.

use vstd::prelude::*;
use crate::client_state::{compute_phase, phase_of, ClientState, ClientStatus, Transition};
use crate::json::{text_of, Json};
use crate::lcu::PHASE_ENDPOINT;

verus! {

/// How long to wait before a failed lookup is tried again, in milliseconds.
pub const RETRY_DELAY_MS: u64 = 500;

/// How long to let the client finish writing a credentials file that just appeared, in
/// seconds.
pub const SETTLE_DELAY_SECS: u64 = 5;

/// How many snapshots the broadcast keeps for a slow subscriber before it drops the oldest.
pub const HUB_CAPACITY: usize = 10;

/// The snapshot before any phase is known.
pub open spec fn closed_status() -> ClientStatus {
    ClientStatus { state: ClientState::Closed, info: None, additional_info: None }
}

/// What an event of the stream calls for.
#[derive(Debug)]
pub enum EventDecision {
    /// The event is for another endpoint.
    Unknown,
    /// The phase event carries no string.
    InvalidData,
    /// The phase is the one the snapshot already has.
    Unchanged,
    /// Change to a new state, by this transition.
    Enter(Transition),
}

/// How handing a snapshot to the broadcast went.
#[derive(Debug, Clone, Copy, PartialEq, Eq, Structural)]
pub enum PublishOutcome {
    Delivered,
    /// Nobody listens at the moment; the value is still the latest.
    NoSubscribers,
    /// The broadcast is shut down for good.
    HubClosed,
}

/// Whether the supervisor goes on after a publication.
pub fn keeps_running(outcome: PublishOutcome) -> (r: bool)
    ensures
        r == !(outcome is HubClosed),
{
    match outcome {
        PublishOutcome::HubClosed => false,
        _ => true,
    }
}

/// The snapshot of the connection being watched, and the decisions about it. Every
/// snapshot it holds, and so every one it hands out for publication, is consistent.
pub struct Supervisor {
    status: ClientStatus,
}

impl Supervisor {
    #[verifier::type_invariant]
    spec fn inv(self) -> bool {
        self.status.is_consistent()
    }

    /// The snapshot held now.
    pub closed spec fn snapshot(self) -> ClientStatus {
        self.status
    }

    pub fn new() -> (r: Supervisor)
        ensures
            r.snapshot() == closed_status(),
    {
        Supervisor { status: ClientStatus { state: ClientState::Closed, info: None, additional_info: None } }
    }

    /// The snapshot to publish.
    pub fn status(&self) -> (r: &ClientStatus)
        ensures
            *r == self.snapshot(),
            r.is_consistent(),
    {
        proof {
            use_type_invariant(self);
        }
        &self.status
    }

    /// A new connection to a client reporting `phase`: what the last connection left is
    /// dropped, and the change to `phase` fetches everything afresh.
    pub fn connect(&mut self, phase: ClientState) -> (t: Transition)
        ensures
            final(self).snapshot() == closed_status(),
            t.target == phase,
            t.is_begun_from(closed_status()),
            t.region is None && t.info is None && t.ids is None && t.roster is None,
    {
        self.status = ClientStatus { state: ClientState::Closed, info: None, additional_info: None };
        Transition::begin(&self.status, phase)
    }

    /// What the event `(uri, data)` calls for: only a phase event with a string payload
    /// naming another state leads to a transition.
    pub fn on_event(&self, uri: &str, data: &Json) -> (r: EventDecision)
        ensures
            uri@ != PHASE_ENDPOINT@ ==> r is Unknown,
            uri@ == PHASE_ENDPOINT@ ==> match text_of(*data) {
                None => r is InvalidData,
                Some(raw) => if phase_of(raw) == self.snapshot().state {
                    r is Unchanged
                } else {
                    &&& r is Enter
                    &&& r->Enter_0.target == phase_of(raw)
                    &&& r->Enter_0.is_begun_from(self.snapshot())
                    &&& r->Enter_0.region is None && r->Enter_0.info is None
                    &&& r->Enter_0.ids is None && r->Enter_0.roster is None
                },
            },
    {
        if String::from_str(uri) != String::from_str(PHASE_ENDPOINT) {
            return EventDecision::Unknown;
        }
        match data {
            Json::Str(raw) => {
                let state = compute_phase(raw.as_str());
                if state == self.status.state {
                    EventDecision::Unchanged
                } else {
                    EventDecision::Enter(Transition::begin(&self.status, state))
                }
            },
            _ => EventDecision::InvalidData,
        }
    }

    /// The stream has ended: the change to `Closed`.
    pub fn disconnect(&self) -> (t: Transition)
        ensures
            t.target == ClientState::Closed,
            t.is_begun_from(self.snapshot()),
            t.next() is None,
    {
        Transition::begin(&self.status, ClientState::Closed)
    }

    /// Applies a finished transition begun from the snapshot held; leaves the snapshot
    /// as it is when `t` is unfinished or was begun from another.
    pub fn commit(&mut self, t: Transition) -> (applied: bool)
        ensures
            applied == (t.is_begun_from(old(self).snapshot()) && t.next() is None),
            applied ==> final(self).snapshot() == old(self).snapshot().updated(t),
            !applied ==> final(self).snapshot() == old(self).snapshot(),
    {
        proof {
            use_type_invariant(&*self);
        }
        self.status.update(t)
    }
}

/// A transition to the state a consistent snapshot already has fetches nothing and
/// leaves the snapshot as it was, enrichment included.
pub proof fn lemma_same_state_transition_is_noop(status: ClientStatus, t: Transition)
    requires
        status.is_consistent(),
        t.is_begun_from(status),
        t.target == status.state,
    ensures
        t.next() is None,
        status.updated(t) == status,
{
}

/// Applying a finished transition to a consistent snapshot gives a consistent snapshot:
/// `BasicInfo` is present exactly when the state is not `Closed`, the roster exactly in
/// champion select.
pub proof fn lemma_update_keeps_consistency(status: ClientStatus, t: Transition)
    requires
        t.is_begun_from(status),
        t.next() is None,
    ensures
        status.updated(t).is_consistent(),
{
}

/// After a connection has closed, the next connection's first snapshot is fetched anew
/// and differs from the closed one, whatever phase the client reports: it is published
/// as a fresh snapshot.
pub proof fn lemma_reconnect_publishes_fresh_snapshot(
    last: ClientStatus,
    raw: Seq<char>,
    t: Transition,
)
    requires
        last.is_consistent(),
        last.state == ClientState::Closed,
        t.is_begun_from(closed_status()),
        t.target == phase_of(raw),
        t.next() is None,
    ensures
        t.needs_info,
        closed_status().updated(t).state == phase_of(raw),
        closed_status().updated(t).info == t.info,
        closed_status().updated(t).info is Some,
        closed_status().updated(t) != last,
{
}

} // verus!
