//! The registration handshake.
//!
//! Before a connection may serve requests, every (handler, version) pair of
//! the registry must be announced to the peer and acknowledged, in registry
//! order with each handler's versions in declaration order. The transport
//! work happens outside this library; the [`Registrar`] fixes the plan of
//! requests, hands them out one at a time, and records each acknowledgement
//! or failure. A single failure aborts the whole handshake: later pairs are
//! never attempted, and the caller must discard the connection and start the
//! cycle over.

use vstd::prelude::*;

use crate::handler::HandlerInfo;
use crate::handler::HandlerInfoView;
use crate::protocol::RegisterRequest;
use crate::protocol::RegisterRequestView;

verus! {

/// The registration requests one handler owes: one per supported version, in
/// declaration order, each carrying the handler's family name and namespaces.
pub open spec fn handler_requests(h: HandlerInfoView) -> Seq<RegisterRequestView> {
    Seq::new(
        h.family_versions.len(),
        |j: int| RegisterRequestView {
            family: h.family_name,
            version: h.family_versions[j],
            namespaces: h.namespaces,
        },
    )
}

/// The full registration plan of a registry: the handlers' requests
/// concatenated in registry order.
pub open spec fn registry_requests(hs: Seq<HandlerInfoView>) -> Seq<RegisterRequestView>
    decreases hs.len(),
{
    if hs.len() == 0 {
        Seq::empty()
    } else {
        registry_requests(hs.drop_last()) + handler_requests(hs.last())
    }
}

/// Number of (handler, version) pairs in a registry.
pub open spec fn pair_count(hs: Seq<HandlerInfoView>) -> int
    decreases hs.len(),
{
    if hs.len() == 0 {
        0
    } else {
        pair_count(hs.drop_last()) + hs.last().family_versions.len()
    }
}

pub proof fn lemma_registry_requests_len(hs: Seq<HandlerInfoView>)
    ensures
        registry_requests(hs).len() == pair_count(hs),
    decreases hs.len(),
{
    if hs.len() != 0 {
        lemma_registry_requests_len(hs.drop_last());
    }
}

/// Law: the registration plan holds exactly one request per (handler,
/// version) pair, grouped in registry order with each handler's versions in
/// declaration order. The request for version `j` of handler `i` stands at
/// offset `pair_count(hs.take(i)) + j` and carries that handler's family
/// name, that version, and that handler's namespaces.
pub proof fn lemma_registry_requests_pair(hs: Seq<HandlerInfoView>, i: int, j: int)
    requires
        0 <= i < hs.len(),
        0 <= j < hs[i].family_versions.len(),
    ensures
        registry_requests(hs).len() == pair_count(hs),
        0 <= pair_count(hs.take(i)) + j < pair_count(hs),
        registry_requests(hs)[pair_count(hs.take(i)) + j] == (RegisterRequestView {
            family: hs[i].family_name,
            version: hs[i].family_versions[j],
            namespaces: hs[i].namespaces,
        }),
    decreases hs.len(),
{
    lemma_registry_requests_len(hs);
    lemma_registry_requests_len(hs.drop_last());
    lemma_pair_count_nonneg(hs.take(i));
    if i == hs.len() - 1 {
        assert(hs.take(i) =~= hs.drop_last());
        assert(registry_requests(hs)[pair_count(hs.drop_last()) + j]
            == handler_requests(hs.last())[j]);
    } else {
        lemma_registry_requests_pair(hs.drop_last(), i, j);
        assert(hs.drop_last().take(i) =~= hs.take(i));
        assert(hs.drop_last()[i] == hs[i]);
        assert(registry_requests(hs)[pair_count(hs.take(i)) + j]
            == registry_requests(hs.drop_last())[pair_count(hs.take(i)) + j]);
    }
}

pub proof fn lemma_pair_count_nonneg(hs: Seq<HandlerInfoView>)
    ensures
        pair_count(hs) >= 0,
    decreases hs.len(),
{
    if hs.len() != 0 {
        lemma_pair_count_nonneg(hs.drop_last());
    }
}

/// Clones a vector of strings, element by element.
fn clone_strings(v: &Vec<String>) -> (r: Vec<String>)
    ensures
        r.deep_view() == v.deep_view(),
{
    let mut r: Vec<String> = Vec::new();
    let mut k: usize = 0;
    while k < v.len()
        invariant
            k <= v.len(),
            r@.len() == k,
            forall|i: int| 0 <= i < k ==> #[trigger] r@[i]@ == v@[i]@,
        decreases v.len() - k,
    {
        r.push(v[k].clone());
        k = k + 1;
    }
    proof {
        assert(r.deep_view() =~= v.deep_view());
    }
    r
}

/// Builds the registration plan of a registry: one request per (handler,
/// version) pair, grouped in registry order, versions in declaration order.
pub fn registration_requests(handlers: &Vec<HandlerInfo>) -> (r: Vec<RegisterRequest>)
    ensures
        r.deep_view() == registry_requests(handlers.deep_view()),
{
    let ghost hs = handlers.deep_view();
    let mut r: Vec<RegisterRequest> = Vec::new();
    let mut i: usize = 0;
    while i < handlers.len()
        invariant
            i <= handlers.len(),
            hs == handlers.deep_view(),
            hs.len() == handlers@.len(),
            r.deep_view() == registry_requests(hs.take(i as int)),
        decreases handlers.len() - i,
    {
        let h = &handlers[i];
        let ghost hv = hs[i as int];
        proof {
            assert(hv == h@);
        }
        let mut j: usize = 0;
        while j < h.family_versions.len()
            invariant
                j <= h.family_versions.len(),
                i < handlers.len(),
                hv == h@,
                hv.family_versions.len() == h.family_versions@.len(),
                r.deep_view() == registry_requests(hs.take(i as int))
                    + handler_requests(hv).take(j as int),
            decreases h.family_versions.len() - j,
        {
            let req = RegisterRequest {
                family: h.family_name.clone(),
                version: h.family_versions[j].clone(),
                namespaces: clone_strings(&h.namespaces),
            };
            proof {
                assert(req@ =~= handler_requests(hv)[j as int]);
            }
            let ghost before = r.deep_view();
            r.push(req);
            proof {
                assert(r.deep_view() =~= before.push(req@));
                assert(handler_requests(hv).take(j as int + 1)
                    =~= handler_requests(hv).take(j as int).push(handler_requests(hv)[j as int]));
                assert(r.deep_view() =~= registry_requests(hs.take(i as int))
                    + handler_requests(hv).take(j as int + 1));
            }
            j = j + 1;
        }
        proof {
            assert(handler_requests(hv).take(hv.family_versions.len() as int)
                =~= handler_requests(hv));
            assert(hs.take(i as int + 1).drop_last() =~= hs.take(i as int));
            assert(hs.take(i as int + 1).last() == hv);
            assert(registry_requests(hs.take(i as int + 1))
                == registry_requests(hs.take(i as int)) + handler_requests(hv));
        }
        i = i + 1;
    }
    proof {
        assert(hs.take(handlers@.len() as int) =~= hs);
    }
    r
}

/// Drives the registration handshake for one connection cycle.
///
/// The plan is fixed at construction; requests are handed out strictly in
/// plan order, and a recorded failure ends the handshake at once: no later
/// request is ever offered again.
pub struct Registrar {
    requests: Vec<RegisterRequest>,
    next: usize,
    aborted: bool,
}

impl Registrar {
    /// The registration plan this handshake works through.
    pub closed spec fn plan(&self) -> Seq<RegisterRequestView> {
        self.requests.deep_view()
    }

    /// How many requests of the plan have been acknowledged so far.
    pub closed spec fn acked(&self) -> int {
        self.next as int
    }

    /// Whether a failure has aborted the handshake.
    pub closed spec fn has_aborted(&self) -> bool {
        self.aborted
    }

    pub open spec fn wf(&self) -> bool {
        0 <= self.acked() <= self.plan().len()
    }

    /// Starts a handshake over the registry's full registration plan.
    pub fn new(handlers: &Vec<HandlerInfo>) -> (r: Registrar)
        ensures
            r.wf(),
            r.plan() == registry_requests(handlers.deep_view()),
            r.acked() == 0,
            !r.has_aborted(),
    {
        Registrar { requests: registration_requests(handlers), next: 0, aborted: false }
    }

    /// The next request to send, or `None` once the handshake is over —
    /// either every request was acknowledged or a failure aborted it.
    pub fn next_request(&self) -> (r: Option<&RegisterRequest>)
        requires
            self.wf(),
        ensures
            match r {
                Option::Some(req) => {
                    &&& !self.has_aborted()
                    &&& self.acked() < self.plan().len()
                    &&& req@ == self.plan()[self.acked()]
                },
                Option::None => self.has_aborted() || self.acked() == self.plan().len(),
            },
    {
        if self.aborted || self.next >= self.requests.len() {
            Option::None
        } else {
            Option::Some(&self.requests[self.next])
        }
    }

    /// Records the acknowledgement of the request last handed out.
    pub fn record_ack(&mut self)
        requires
            old(self).wf(),
            !old(self).has_aborted(),
            old(self).acked() < old(self).plan().len(),
        ensures
            final(self).wf(),
            final(self).plan() == old(self).plan(),
            final(self).acked() == old(self).acked() + 1,
            !final(self).has_aborted(),
    {
        let n = self.requests.len();
        proof {
            assert(self.next < n);
        }
        self.next = self.next + 1;
    }

    /// Records a failure — of serialization, of the send, or of the wait for
    /// the acknowledgement. The handshake aborts: later pairs are never
    /// attempted.
    pub fn record_failure(&mut self)
        requires
            old(self).wf(),
        ensures
            final(self).wf(),
            final(self).plan() == old(self).plan(),
            final(self).acked() == old(self).acked(),
            final(self).has_aborted(),
    {
        self.aborted = true;
    }

    /// The overall result: `Some(true)` when every request of the plan was
    /// acknowledged, `Some(false)` when a failure aborted the handshake, and
    /// `None` while it is still under way.
    pub fn outcome(&self) -> (r: Option<bool>)
        requires
            self.wf(),
        ensures
            r == Option::Some(true) <==> !self.has_aborted() && self.acked() == self.plan().len(),
            r == Option::Some(false) <==> self.has_aborted(),
            r is None <==> !self.has_aborted() && self.acked() < self.plan().len(),
    {
        if self.aborted {
            Option::Some(false)
        } else if self.next >= self.requests.len() {
            Option::Some(true)
        } else {
            Option::None
        }
    }
}

} // verus!
