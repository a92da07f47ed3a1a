//! The reference ledger of foreign handles and the asynchronous frame requests that hold
//! references of their own.
//!
//! Each node, frame or function that the engine hands over is known here by a handle
//! identifier. A wrapper owns exactly one unit of the object's reference count: acquiring or
//! cloning adds one, releasing takes one, and the engine frees the object when the count reaches
//! zero. An asynchronous frame request holds its own unit on its node until it completes, so the
//! node outlives every request in flight whatever the submitter does with its wrapper.

use std::collections::HashMap;
use vstd::prelude::*;

verus! {

broadcast use vstd::std_specs::hash::group_hash_axioms;

/// A frame request in flight: the node that it was made on and the requested frame index.
#[derive(Debug, Clone, Copy, PartialEq, Eq, Structural)]
pub struct PendingRequest {
    pub node: u64,
    pub index: usize,
}

/// The ledger as plain values.
pub struct LedgerModel {
    /// The reference count held by this layer on each live handle; an absent handle has none.
    pub refs: Map<u64, u64>,
    /// The requests in flight, by ticket.
    pub pending: Map<u64, PendingRequest>,
    /// The ticket that the next request gets.
    pub next_ticket: u64,
}

/// The references held on handle `h`.
pub open spec fn refs_of(m: LedgerModel, h: u64) -> nat {
    if m.refs.contains_key(h) {
        m.refs[h] as nat
    } else {
        0
    }
}

/// The tickets of the requests in flight on node `h`.
pub open spec fn tickets_on(m: LedgerModel, h: u64) -> Set<u64> {
    m.pending.dom().filter(|t: u64| m.pending[t].node == h)
}

/// The number of requests in flight on node `h`.
pub open spec fn pending_on(m: LedgerModel, h: u64) -> nat {
    tickets_on(m, h).len()
}

/// The ledger is consistent: every recorded count is positive, every ticket was issued, and each
/// node holds at least one reference for each of its requests in flight.
pub open spec fn ledger_inv(m: LedgerModel) -> bool {
    &&& forall|h: u64| #[trigger] m.refs.contains_key(h) ==> m.refs[h] > 0
    &&& m.pending.dom().finite()
    &&& forall|t: u64| #[trigger] m.pending.contains_key(t) ==> t < m.next_ticket
    &&& forall|h: u64| #[trigger] refs_of(m, h) >= pending_on(m, h)
}

/// A wrapper of `h` that is not a request's may be released or cloned: it owns a unit of the
/// count beyond those of the requests in flight.
pub open spec fn wrapper_held(m: LedgerModel, h: u64) -> bool {
    refs_of(m, h) > pending_on(m, h)
}

/// The ledger with one more reference on `h`.
pub open spec fn after_acquire(m: LedgerModel, h: u64) -> LedgerModel {
    LedgerModel { refs: m.refs.insert(h, (refs_of(m, h) + 1) as u64), ..m }
}

/// The ledger with one reference fewer on `h`; the entry goes at zero.
pub open spec fn after_release(m: LedgerModel, h: u64) -> LedgerModel {
    if refs_of(m, h) <= 1 {
        LedgerModel { refs: m.refs.remove(h), ..m }
    } else {
        LedgerModel { refs: m.refs.insert(h, (refs_of(m, h) - 1) as u64), ..m }
    }
}

/// The ledger after a request for frame `index` of node `h`: the request holds a new reference
/// and takes the next ticket.
pub open spec fn after_submit(m: LedgerModel, h: u64, index: usize) -> LedgerModel {
    LedgerModel {
        refs: m.refs.insert(h, (refs_of(m, h) + 1) as u64),
        pending: m.pending.insert(m.next_ticket, PendingRequest { node: h, index }),
        next_ticket: (m.next_ticket + 1) as u64,
    }
}

/// The ledger after the request with ticket `t` completes: its reference passes to the node
/// handed to the completion.
pub open spec fn after_complete(m: LedgerModel, t: u64) -> LedgerModel {
    LedgerModel { pending: m.pending.remove(t), ..m }
}

/// `clone` adds one reference to `h`, `drop` takes it away.
pub open spec fn clone_release_cycles(m: LedgerModel, h: u64, n: nat) -> LedgerModel
    decreases n,
{
    if n == 0 {
        m
    } else {
        clone_release_cycles(after_release(after_acquire(m, h), h), h, (n - 1) as nat)
    }
}

proof fn lemma_pending_unchanged(m: LedgerModel, m2: LedgerModel)
    requires
        m2.pending == m.pending,
    ensures
        forall|h: u64| pending_on(m2, h) == pending_on(m, h),
{
    assert forall|h: u64| pending_on(m2, h) == pending_on(m, h) by {
        assert(tickets_on(m2, h) =~= tickets_on(m, h));
    }
}

proof fn lemma_inv_acquire(m: LedgerModel, h: u64)
    requires
        ledger_inv(m),
        refs_of(m, h) < u64::MAX,
    ensures
        ledger_inv(after_acquire(m, h)),
        refs_of(after_acquire(m, h), h) == refs_of(m, h) + 1,
        forall|g: u64| g != h ==> refs_of(after_acquire(m, h), g) == refs_of(m, g),
{
    let m2 = after_acquire(m, h);
    lemma_pending_unchanged(m, m2);
    assert forall|g: u64| #[trigger] refs_of(m2, g) >= pending_on(m2, g) by {
        assert(refs_of(m, g) >= pending_on(m, g));
    }
}

proof fn lemma_inv_release(m: LedgerModel, h: u64)
    requires
        ledger_inv(m),
        wrapper_held(m, h),
    ensures
        ledger_inv(after_release(m, h)),
        refs_of(after_release(m, h), h) == refs_of(m, h) - 1,
        forall|g: u64| g != h ==> refs_of(after_release(m, h), g) == refs_of(m, g),
{
    let m2 = after_release(m, h);
    lemma_pending_unchanged(m, m2);
    assert forall|g: u64| #[trigger] refs_of(m2, g) >= pending_on(m2, g) by {
        assert(refs_of(m, g) >= pending_on(m, g));
    }
}

/// Each successful clone of a wrapper, followed by the drop of the clone, leaves every reference
/// count as it was, however many times it is repeated.
pub proof fn law_clone_release_balanced(m: LedgerModel, h: u64, n: nat)
    requires
        ledger_inv(m),
        wrapper_held(m, h),
        refs_of(m, h) < u64::MAX,
    ensures
        clone_release_cycles(m, h, n) == m,
    decreases n,
{
    if n > 0 {
        let m1 = after_acquire(m, h);
        lemma_inv_acquire(m, h);
        lemma_pending_unchanged(m, m1);
        let m2 = after_release(m1, h);
        assert(m2.refs =~= m.refs);
        assert(m2 == m);
        law_clone_release_balanced(m, h, (n - 1) as nat);
    }
}

/// While a request is in flight, its node holds at least one reference, so the engine keeps it
/// alive; this holds after any sequence of the ledger's operations, the submitter's release of
/// its own wrapper included.
pub proof fn law_in_flight_keeps_node_alive(m: LedgerModel, t: u64)
    requires
        ledger_inv(m),
        m.pending.contains_key(t),
    ensures
        refs_of(m, m.pending[t].node) > 0,
{
    let h = m.pending[t].node;
    assert(tickets_on(m, h).contains(t));
    vstd::set::axiom_set_remove_len(tickets_on(m, h), t);
    assert(refs_of(m, h) >= pending_on(m, h));
}

proof fn lemma_inv_submit(m: LedgerModel, h: u64, index: usize)
    requires
        ledger_inv(m),
        refs_of(m, h) < u64::MAX,
        m.next_ticket < u64::MAX,
    ensures
        ledger_inv(after_submit(m, h, index)),
        pending_on(after_submit(m, h, index), h) == pending_on(m, h) + 1,
        forall|g: u64| g != h ==> #[trigger] pending_on(after_submit(m, h, index), g) == pending_on(m, g),
{
    let m2 = after_submit(m, h, index);
    let t = m.next_ticket;
    assert(!m.pending.contains_key(t));
    assert forall|g: u64| #[trigger] refs_of(m2, g) >= pending_on(m2, g) by {
        assert(refs_of(m, g) >= pending_on(m, g));
        if g == h {
            assert(tickets_on(m2, g) =~= tickets_on(m, g).insert(t));
            assert(!tickets_on(m, g).contains(t));
        } else {
            assert(tickets_on(m2, g) =~= tickets_on(m, g));
        }
    }
    assert(tickets_on(m2, h) =~= tickets_on(m, h).insert(t));
    assert forall|g: u64| g != h implies #[trigger] pending_on(m2, g) == pending_on(m, g) by {
        assert(tickets_on(m2, g) =~= tickets_on(m, g));
    }
    assert forall|s: u64| #[trigger] m2.pending.contains_key(s) implies s < m2.next_ticket by {
        if s != t {
            assert(m.pending.contains_key(s));
        }
    }
}

proof fn lemma_inv_complete(m: LedgerModel, t: u64)
    requires
        ledger_inv(m),
        m.pending.contains_key(t),
    ensures
        ledger_inv(after_complete(m, t)),
        pending_on(after_complete(m, t), m.pending[t].node) == pending_on(m, m.pending[t].node) - 1,
        forall|g: u64| g != m.pending[t].node ==> #[trigger] pending_on(after_complete(m, t), g) == pending_on(m, g),
{
    let m2 = after_complete(m, t);
    let h = m.pending[t].node;
    assert(tickets_on(m2, h) =~= tickets_on(m, h).remove(t));
    assert(tickets_on(m, h).contains(t));
    assert forall|g: u64| g != h implies #[trigger] pending_on(m2, g) == pending_on(m, g) by {
        assert(tickets_on(m2, g) =~= tickets_on(m, g));
    }
    assert forall|g: u64| #[trigger] refs_of(m2, g) >= pending_on(m2, g) by {
        assert(refs_of(m, g) >= pending_on(m, g));
        if g == h {
            assert(tickets_on(m2, g) =~= tickets_on(m, g).remove(t));
            assert(tickets_on(m, g).contains(t));
        } else {
            assert(tickets_on(m2, g) =~= tickets_on(m, g));
        }
    }
}

/// A request that completes delivers the node and the frame index that it was submitted with,
/// once: afterwards its ticket is no longer in flight.
pub proof fn law_submit_then_complete(m: LedgerModel, h: u64, index: usize)
    requires
        ledger_inv(m),
        refs_of(m, h) < u64::MAX,
        m.next_ticket < u64::MAX,
    ensures
        after_submit(m, h, index).pending[m.next_ticket] == (PendingRequest { node: h, index }),
        !after_complete(after_submit(m, h, index), m.next_ticket).pending.contains_key(m.next_ticket),
        after_complete(after_submit(m, h, index), m.next_ticket).pending =~= m.pending,
{
    assert(!m.pending.contains_key(m.next_ticket));
}

/// The references this layer holds on foreign objects, and the frame requests in flight.
pub struct RefLedger {
    refs: HashMap<u64, u64>,
    pending: HashMap<u64, PendingRequest>,
    next_ticket: u64,
    /// The number of requests in flight on each node that has some.
    in_flight: HashMap<u64, u64>,
}

spec fn count_in(m: Map<u64, u64>, h: u64) -> nat {
    if m.contains_key(h) {
        m[h] as nat
    } else {
        0
    }
}

impl View for RefLedger {
    type V = LedgerModel;

    closed spec fn view(&self) -> LedgerModel {
        LedgerModel { refs: self.refs@, pending: self.pending@, next_ticket: self.next_ticket }
    }
}

impl RefLedger {
    /// The ledger's consistency: the ledger invariant, and the per-node counts of requests in
    /// flight.
    pub closed spec fn wf(&self) -> bool {
        &&& ledger_inv(self@)
        &&& forall|h: u64| #[trigger] count_in(self.in_flight@, h) == pending_on(self@, h)
    }

    /// A consistent ledger satisfies the ledger invariant.
    pub proof fn lemma_wf_inv(&self)
        requires
            self.wf(),
        ensures
            ledger_inv(self@),
    {
    }

    /// Whether a wrapper of `h` that is not a request's can be dropped or cloned.
    pub fn wrapper_held(&self, h: u64) -> (r: bool)
        requires
            self.wf(),
        ensures
            r == wrapper_held(self@, h),
    {
        let n = match self.in_flight.get(&h) {
            Some(n) => *n,
            None => 0,
        };
        assert(n == pending_on(self@, h)) by {
            assert(count_in(self.in_flight@, h) == pending_on(self@, h));
        }
        self.refs(h) > n
    }

    /// An empty ledger.
    pub fn new() -> (r: RefLedger)
        ensures
            r.wf(),
            ledger_inv(r@),
            r@.refs.is_empty(),
            r@.pending.is_empty(),
            r@.next_ticket == 0,
    {
        let r = RefLedger { refs: HashMap::new(), pending: HashMap::new(), next_ticket: 0, in_flight: HashMap::new() };
        assert forall|h: u64| #[trigger] refs_of(r@, h) >= pending_on(r@, h) by {
            assert(tickets_on(r@, h) =~= Set::empty());
        }
        assert forall|h: u64| #[trigger] count_in(r.in_flight@, h) == pending_on(r@, h) by {
            assert(tickets_on(r@, h) =~= Set::empty());
        }
        r
    }

    /// The ticket that the next request gets.
    pub fn next_ticket(&self) -> (r: u64)
        ensures
            r == self@.next_ticket,
    {
        self.next_ticket
    }

    /// The references held on `h`.
    pub fn refs(&self, h: u64) -> (r: u64)
        ensures
            r == refs_of(self@, h),
    {
        match self.refs.get(&h) {
            Some(n) => *n,
            None => 0,
        }
    }

    fn add_ref(&mut self, h: u64)
        requires
            refs_of(old(self)@, h) < u64::MAX,
        ensures
            final(self)@ == after_acquire(old(self)@, h),
            final(self).in_flight == old(self).in_flight,
    {
        let n = self.refs(h);
        self.refs.insert(h, n + 1);
    }

    /// Records a reference that the engine handed over: a new object, or one read from a map.
    pub fn acquire(&mut self, h: u64)
        requires
            old(self).wf(),
            refs_of(old(self)@, h) < u64::MAX,
        ensures
            final(self).wf(),
            ledger_inv(final(self)@),
            final(self)@ == after_acquire(old(self)@, h),
    {
        proof {
            lemma_inv_acquire(self@, h);
            lemma_pending_unchanged(self@, after_acquire(self@, h));
        }
        self.add_ref(h);
    }

    /// Clones a wrapper of `h`: one more reference.
    pub fn clone_ref(&mut self, h: u64)
        requires
            old(self).wf(),
            wrapper_held(old(self)@, h),
            refs_of(old(self)@, h) < u64::MAX,
        ensures
            final(self).wf(),
            ledger_inv(final(self)@),
            final(self)@ == after_acquire(old(self)@, h),
    {
        proof {
            lemma_inv_acquire(self@, h);
            lemma_pending_unchanged(self@, after_acquire(self@, h));
        }
        self.add_ref(h);
    }

    /// Drops a wrapper of `h`: one reference fewer. Returns whether that was the last one, so
    /// that the engine frees the object.
    pub fn release(&mut self, h: u64) -> (r: bool)
        requires
            old(self).wf(),
            wrapper_held(old(self)@, h),
        ensures
            final(self).wf(),
            ledger_inv(final(self)@),
            final(self)@ == after_release(old(self)@, h),
            r == (refs_of(final(self)@, h) == 0),
    {
        proof {
            lemma_inv_release(self@, h);
            lemma_pending_unchanged(self@, after_release(self@, h));
        }
        let n = self.refs(h);
        if n <= 1 {
            self.refs.remove(&h);
            true
        } else {
            self.refs.insert(h, n - 1);
            false
        }
    }

    /// Submits a request for frame `index` of node `h`, through a wrapper of `h`. The request
    /// holds a reference of its own; its ticket correlates the completion.
    pub fn submit(&mut self, h: u64, index: usize) -> (ticket: u64)
        requires
            old(self).wf(),
            wrapper_held(old(self)@, h),
            refs_of(old(self)@, h) < u64::MAX,
            old(self)@.next_ticket < u64::MAX,
        ensures
            final(self).wf(),
            ledger_inv(final(self)@),
            ticket == old(self)@.next_ticket,
            final(self)@ == after_submit(old(self)@, h, index),
    {
        proof {
            lemma_inv_submit(self@, h, index);
        }
        let ticket = self.next_ticket;
        let n = self.refs(h);
        self.refs.insert(h, n + 1);
        self.pending.insert(ticket, PendingRequest { node: h, index });
        self.next_ticket = ticket + 1;
        let k = match self.in_flight.get(&h) {
            Some(k) => *k,
            None => 0,
        };
        proof {
            assert(count_in(self.in_flight@, h) == pending_on(old(self)@, h));
            assert(k <= refs_of(old(self)@, h));
        }
        self.in_flight.insert(h, k + 1);
        proof {
            assert forall|g: u64| #[trigger] count_in(self.in_flight@, g) == pending_on(self@, g) by {
                assert(count_in(old(self).in_flight@, g) == pending_on(old(self)@, g));
            }
        }
        ticket
    }

    /// Completes the request with `ticket`, if it is in flight, and returns its node and frame
    /// index. The request's reference passes to the node handed to the completion, whose
    /// wrapper releases it.
    pub fn complete(&mut self, ticket: u64) -> (r: Option<PendingRequest>)
        requires
            old(self).wf(),
        ensures
            final(self).wf(),
            ledger_inv(final(self)@),
            old(self)@.pending.contains_key(ticket) ==> r == Some(old(self)@.pending[ticket])
                && final(self)@ == after_complete(old(self)@, ticket),
            !old(self)@.pending.contains_key(ticket) ==> r is None && final(self)@ == old(self)@,
    {
        proof {
            if self@.pending.contains_key(ticket) {
                lemma_inv_complete(self@, ticket);
            }
        }
        let r = self.pending.remove(&ticket);
        proof {
            if r is None {
                assert(self@.pending =~= old(self)@.pending);
            }
        }
        if let Some(req) = r {
            let h = req.node;
            let k = match self.in_flight.get(&h) {
                Some(k) => *k,
                None => 0,
            };
            proof {
                assert(count_in(old(self).in_flight@, h) == pending_on(old(self)@, h));
                assert(tickets_on(old(self)@, h).contains(ticket));
                vstd::set::axiom_set_remove_len(tickets_on(old(self)@, h), ticket);
            }
            if k <= 1 {
                self.in_flight.remove(&h);
            } else {
                self.in_flight.insert(h, k - 1);
            }
            proof {
                assert forall|g: u64| #[trigger] count_in(self.in_flight@, g) == pending_on(self@, g) by {
                    assert(count_in(old(self).in_flight@, g) == pending_on(old(self)@, g));
                }
            }
        }
        r
    }
}

} // verus!
