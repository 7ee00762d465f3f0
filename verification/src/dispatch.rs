//! The connect / register / serve state machine.
//!
//! A processor is built over a fixed endpoint, collects its handler registry,
//! and then cycles: connect to the endpoint, run the registration handshake,
//! and serve inbound envelopes until the transport disconnects (back to
//! connecting, unbounded retries, no backoff) or a fatal send error ends the
//! run for good. The transport itself lives outside this library; the caller
//! performs each connect, send and receive, and feeds the observed [`Event`]s
//! into [`TransactionProcessor::step`], which is the single place deciding
//! what phase follows.

use vstd::prelude::*;

use crate::handler::HandlerInfo;
use crate::handler::HandlerInfoView;

verus! {

/// The phase a processor is in.
#[derive(Clone, Copy, PartialEq, Eq, Structural, Debug)]
pub enum ProcessorState {
    /// A connection to the endpoint must be (re)established.
    Connecting,
    /// The registration handshake for the current connection is under way.
    Registering,
    /// Registration succeeded; inbound envelopes are being served.
    Serving,
    /// A fatal send error ended the run; no further network activity.
    Terminated,
}

/// What the transport reported for one attempted reply.
#[derive(Clone, Copy, PartialEq, Eq, Structural, Debug)]
pub enum SendOutcome {
    /// The reply went out.
    Sent,
    /// The transport is disconnected.
    Disconnected,
    /// The reply timed out; it counts as lost, with no retry.
    Timeout,
    /// An unknown, unrecoverable send error.
    Unknown,
}

/// One observation the caller feeds into the state machine.
#[derive(Clone, Copy, PartialEq, Eq, Structural, Debug)]
pub enum Event {
    /// A connection to the endpoint was established.
    Connected,
    /// The registration handshake finished with this overall result.
    RegistrationFinished(bool),
    /// The receiver reported that the peer disconnected.
    ReceiveDisconnected,
    /// The receiver reported a non-fatal fault; nothing was received.
    ReceiveFault,
    /// An envelope was received but dropped without a reply — its payload
    /// was malformed, or the response could not be serialized.
    RequestDropped,
    /// A reply was attempted and the transport reported this outcome.
    ReplyAttempted(SendOutcome),
}

/// The transition relation of the processor: given the current phase and an
/// observed event, the phase that follows.
///
/// While serving, a disconnect — reported by the receiver or by a reply
/// attempt — forces a full reconnect; a non-fatal fault, a dropped request,
/// a sent reply and a timed-out reply all keep the serve loop going; an
/// unknown send error terminates the run. An event that cannot occur in a
/// phase leaves the phase unchanged; in particular, nothing leaves
/// `Terminated`.
pub open spec fn next_state(s: ProcessorState, e: Event) -> ProcessorState {
    match (s, e) {
        (ProcessorState::Connecting, Event::Connected) => ProcessorState::Registering,
        (ProcessorState::Registering, Event::RegistrationFinished(ok)) => if ok {
            ProcessorState::Serving
        } else {
            ProcessorState::Connecting
        },
        (ProcessorState::Serving, Event::ReceiveDisconnected) => ProcessorState::Connecting,
        (ProcessorState::Serving, Event::ReceiveFault) => ProcessorState::Serving,
        (ProcessorState::Serving, Event::RequestDropped) => ProcessorState::Serving,
        (ProcessorState::Serving, Event::ReplyAttempted(o)) => match o {
            SendOutcome::Sent => ProcessorState::Serving,
            SendOutcome::Timeout => ProcessorState::Serving,
            SendOutcome::Disconnected => ProcessorState::Connecting,
            SendOutcome::Unknown => ProcessorState::Terminated,
        },
        _ => s,
    }
}

/// The phase reached after observing a whole sequence of events.
pub open spec fn run(s: ProcessorState, events: Seq<Event>) -> ProcessorState
    decreases events.len(),
{
    if events.len() == 0 {
        s
    } else {
        run(next_state(s, events.first()), events.drop_first())
    }
}

/// Routes transaction-processing requests to the registry and replies to the
/// peer with each handler outcome, reconnecting to its fixed endpoint
/// whenever the transport drops.
pub struct TransactionProcessor {
    endpoint: String,
    handlers: Vec<HandlerInfo>,
    state: ProcessorState,
}

impl TransactionProcessor {
    /// The transport address this processor connects to, fixed for its whole
    /// life: every reconnect goes back to the same endpoint.
    pub closed spec fn endpoint_spec(&self) -> Seq<char> {
        self.endpoint@
    }

    /// The handler registry, in registration order.
    pub closed spec fn handlers_spec(&self) -> Seq<HandlerInfoView> {
        self.handlers.deep_view()
    }

    /// The phase the processor is in.
    pub closed spec fn state_spec(&self) -> ProcessorState {
        self.state
    }

    /// Builds a processor for the given endpoint, with an empty registry,
    /// ready to connect.
    pub fn new(endpoint: &str) -> (r: TransactionProcessor)
        ensures
            r.endpoint_spec() == endpoint@,
            r.handlers_spec() == Seq::<HandlerInfoView>::empty(),
            r.state_spec() == ProcessorState::Connecting,
    {
        let r = TransactionProcessor {
            endpoint: String::from_str(endpoint),
            handlers: Vec::new(),
            state: ProcessorState::Connecting,
        };
        proof {
            assert(r.handlers_spec() =~= Seq::<HandlerInfoView>::empty());
        }
        r
    }

    /// Appends a handler to the registry. The registry keeps insertion
    /// order and never drops duplicates.
    pub fn add_handler(&mut self, handler: HandlerInfo)
        ensures
            final(self).handlers_spec() == old(self).handlers_spec().push(handler@),
            final(self).endpoint_spec() == old(self).endpoint_spec(),
            final(self).state_spec() == old(self).state_spec(),
    {
        let ghost before = self.handlers.deep_view();
        self.handlers.push(handler);
        proof {
            assert(self.handlers.deep_view() =~= before.push(handler@));
        }
    }

    /// The endpoint to connect to — the same on every cycle.
    pub fn endpoint(&self) -> (r: &str)
        ensures
            r@ == self.endpoint_spec(),
    {
        self.endpoint.as_str()
    }

    /// The handler registry, in registration order.
    pub fn handlers(&self) -> (r: &Vec<HandlerInfo>)
        ensures
            r.deep_view() == self.handlers_spec(),
    {
        &self.handlers
    }

    /// The phase the processor is in.
    pub fn state(&self) -> (r: ProcessorState)
        ensures
            r == self.state_spec(),
    {
        self.state
    }

    /// Whether the run is still alive — any phase but `Terminated`.
    pub fn is_running(&self) -> (r: bool)
        ensures
            r == (self.state_spec() != ProcessorState::Terminated),
    {
        self.state != ProcessorState::Terminated
    }

    /// Advances the state machine by one observed event, exactly along
    /// [`next_state`]. The endpoint and the registry never change.
    pub fn step(&mut self, event: Event)
        ensures
            final(self).state_spec() == next_state(old(self).state_spec(), event),
            final(self).endpoint_spec() == old(self).endpoint_spec(),
            final(self).handlers_spec() == old(self).handlers_spec(),
    {
        let next = match (self.state, event) {
            (ProcessorState::Connecting, Event::Connected) => ProcessorState::Registering,
            (ProcessorState::Registering, Event::RegistrationFinished(ok)) => if ok {
                ProcessorState::Serving
            } else {
                ProcessorState::Connecting
            },
            (ProcessorState::Serving, Event::ReceiveDisconnected) => ProcessorState::Connecting,
            (ProcessorState::Serving, Event::ReceiveFault) => ProcessorState::Serving,
            (ProcessorState::Serving, Event::RequestDropped) => ProcessorState::Serving,
            (ProcessorState::Serving, Event::ReplyAttempted(o)) => match o {
                SendOutcome::Sent => ProcessorState::Serving,
                SendOutcome::Timeout => ProcessorState::Serving,
                SendOutcome::Disconnected => ProcessorState::Connecting,
                SendOutcome::Unknown => ProcessorState::Terminated,
            },
            (s, _) => s,
        };
        self.state = next;
    }

    /// Picks the handler a process request is routed to: the first entry of
    /// the registry that serves the request's declared family at its declared
    /// version, or `None` when no entry does — the request then gets an
    /// internal-error reply instead of a handler.
    pub fn route_request(&self, family: &String, version: &String) -> (r: Option<usize>)
        ensures
            match r {
                Option::Some(i) => {
                    &&& 0 <= i < self.handlers_spec().len()
                    &&& handler_matches(self.handlers_spec()[i as int], family@, version@)
                    &&& forall|k: int|
                        0 <= k < i ==> !handler_matches(
                            #[trigger] self.handlers_spec()[k],
                            family@,
                            version@,
                        )
                },
                Option::None => forall|k: int|
                    0 <= k < self.handlers_spec().len() ==> !handler_matches(
                        #[trigger] self.handlers_spec()[k],
                        family@,
                        version@,
                    ),
            },
    {
        let mut i: usize = 0;
        while i < self.handlers.len()
            invariant
                i <= self.handlers.len(),
                self.handlers_spec().len() == self.handlers@.len(),
                forall|k: int|
                    0 <= k < i ==> !handler_matches(
                        #[trigger] self.handlers_spec()[k],
                        family@,
                        version@,
                    ),
            decreases self.handlers.len() - i,
        {
            let h = &self.handlers[i];
            proof {
                assert(self.handlers_spec()[i as int] == h@);
            }
            if h.family_name == *family && contains_string(&h.family_versions, version) {
                return Option::Some(i);
            }
            i = i + 1;
        }
        Option::None
    }
}

/// Whether a handler serves the given transaction family at the given
/// version.
pub open spec fn handler_matches(h: HandlerInfoView, family: Seq<char>, version: Seq<char>) -> bool {
    &&& h.family_name == family
    &&& h.family_versions.contains(version)
}

/// Whether one of the strings of `v` reads as `s`.
fn contains_string(v: &Vec<String>, s: &String) -> (r: bool)
    ensures
        r == v.deep_view().contains(s@),
{
    let mut k: usize = 0;
    while k < v.len()
        invariant
            k <= v.len(),
            v.deep_view().len() == v@.len(),
            forall|j: int| 0 <= j < k ==> #[trigger] v.deep_view()[j] != s@,
        decreases v.len() - k,
    {
        if v[k] == *s {
            proof {
                assert(v.deep_view()[k as int] == s@);
                assert(v.deep_view().contains(s@));
            }
            return true;
        }
        k = k + 1;
    }
    proof {
        assert(forall|j: int| 0 <= j < v.deep_view().len() ==> #[trigger] v.deep_view()[j] != s@);
        assert(!v.deep_view().contains(s@));
    }
    false
}

/// Law: once terminated, the processor stays terminated — no sequence of
/// further events leaves the terminal phase, so no further network activity
/// is ever called for.
pub proof fn lemma_terminated_is_final(events: Seq<Event>)
    ensures
        run(ProcessorState::Terminated, events) == ProcessorState::Terminated,
    decreases events.len(),
{
    if events.len() != 0 {
        lemma_terminated_is_final(events.drop_first());
    }
}

/// Law: the serve phase is entered only through a successful registration.
/// Whenever a run starting outside `Serving` ends in `Serving`, some event of
/// the sequence is `RegistrationFinished(true)` observed in `Registering` —
/// in particular, after a disconnect (which moves the machine to
/// `Connecting`) the whole handshake must succeed again before any further
/// request is served.
pub proof fn lemma_serving_needs_registration(s: ProcessorState, events: Seq<Event>)
    requires
        s != ProcessorState::Serving,
        run(s, events) == ProcessorState::Serving,
    ensures
        exists|i: int|
            0 <= i < events.len()
            && events[i] == Event::RegistrationFinished(true)
            && run(s, events.take(i)) == ProcessorState::Registering,
    decreases events.len(),
{
    if events.len() == 0 {
        assert(run(s, events) == s);
        assert(false);
    } else {
        let s1 = next_state(s, events.first());
        if s1 == ProcessorState::Serving {
            assert(s == ProcessorState::Registering);
            assert(events.first() == Event::RegistrationFinished(true));
            assert(events.take(0) =~= Seq::<Event>::empty());
            assert(run(s, events.take(0)) == ProcessorState::Registering);
            assert(0 <= 0 < events.len()
                && events[0] == Event::RegistrationFinished(true)
                && run(s, events.take(0)) == ProcessorState::Registering);
        } else {
            let rest = events.drop_first();
            lemma_serving_needs_registration(s1, rest);
            let i = choose|i: int|
                0 <= i < rest.len()
                && rest[i] == Event::RegistrationFinished(true)
                && run(s1, rest.take(i)) == ProcessorState::Registering;
            assert(events.take(i + 1).len() != 0);
            assert(events.take(i + 1).first() == events.first());
            assert(events.take(i + 1).drop_first() =~= rest.take(i));
            assert(run(s, events.take(i + 1))
                == run(s1, events.take(i + 1).drop_first()));
            assert(events[i + 1] == rest[i]);
            assert(0 <= i + 1 < events.len()
                && events[i + 1] == Event::RegistrationFinished(true)
                && run(s, events.take(i + 1)) == ProcessorState::Registering);
        }
    }
}

/// Law: non-fatal serve-loop incidents — a receive fault, or a request
/// dropped for a malformed payload or a failed serialization — produce no
/// reply and leave the processor serving: the next envelope is handled
/// normally. A sent or timed-out reply keeps the loop going as well.
pub proof fn lemma_nonfatal_incidents_keep_serving()
    ensures
        next_state(ProcessorState::Serving, Event::ReceiveFault) == ProcessorState::Serving,
        next_state(ProcessorState::Serving, Event::RequestDropped) == ProcessorState::Serving,
        next_state(ProcessorState::Serving, Event::ReplyAttempted(SendOutcome::Sent))
            == ProcessorState::Serving,
        next_state(ProcessorState::Serving, Event::ReplyAttempted(SendOutcome::Timeout))
            == ProcessorState::Serving,
{
}

/// Law: while serving, a disconnect — whether the receiver reports it or a
/// reply attempt does — sends the processor back to connecting, and an
/// unknown send error terminates the run.
pub proof fn lemma_disconnect_and_fatal_outcomes()
    ensures
        next_state(ProcessorState::Serving, Event::ReceiveDisconnected)
            == ProcessorState::Connecting,
        next_state(ProcessorState::Serving, Event::ReplyAttempted(SendOutcome::Disconnected))
            == ProcessorState::Connecting,
        next_state(ProcessorState::Serving, Event::ReplyAttempted(SendOutcome::Unknown))
            == ProcessorState::Terminated,
{
}

} // verus!
