//! A counting permit pool that bounds how many chat requests are in flight.
//!
//! The pool only decides; waiting for a free slot is left to the caller, who
//! asks again after a release.
use vstd::prelude::*;

verus! {

/// The pool as a mathematical value.
pub struct GateView {
    pub limit: nat,
    pub in_use: nat,
    pub closed: bool,
}

/// Whether a request for a permit is granted at once.
pub open spec fn grants(v: GateView) -> bool {
    !v.closed && v.in_use < v.limit
}

/// The pool after a request for a permit.
pub open spec fn after_acquire(v: GateView) -> GateView {
    if grants(v) {
        GateView { in_use: v.in_use + 1, ..v }
    } else {
        v
    }
}

/// The pool after a permit comes back.
pub open spec fn after_release(v: GateView) -> GateView {
    if v.in_use > 0 {
        GateView { in_use: (v.in_use - 1) as nat, ..v }
    } else {
        v
    }
}

/// The pool after `n` requests in a row, none released in between.
pub open spec fn acquire_times(v: GateView, n: nat) -> GateView
    decreases n,
{
    if n == 0 {
        v
    } else {
        after_acquire(acquire_times(v, (n - 1) as nat))
    }
}

/// A fresh pool of `limit` permits.
pub open spec fn fresh_gate(limit: nat) -> GateView {
    GateView { limit, in_use: 0, closed: false }
}

/// Authorises one in-flight request; hand it back with `release`.
pub struct Permit {
    _slot: (),
}

/// Answer to a request for a permit.
pub enum Admission {
    Granted(Permit),
    /// Every permit is out: ask again after one is released.
    Full,
    /// The pool was shut down; this is fatal, not retryable.
    Closed,
}

/// Bounds the number of simultaneous outbound chat requests.
pub struct AdmissionGate {
    limit: usize,
    in_use: usize,
    closed: bool,
}

impl View for AdmissionGate {
    type V = GateView;

    closed spec fn view(&self) -> GateView {
        GateView { limit: self.limit as nat, in_use: self.in_use as nat, closed: self.closed }
    }
}

impl AdmissionGate {
    /// Permits never outnumber the limit.
    pub closed spec fn wf(&self) -> bool {
        self.in_use <= self.limit
    }

    /// A pool of `limit` permits, none in use.
    pub fn new(limit: usize) -> (r: AdmissionGate)
        ensures
            r.wf(),
            r@ == fresh_gate(limit as nat),
    {
        AdmissionGate { limit, in_use: 0, closed: false }
    }

    /// Permits currently out.
    pub fn in_use(&self) -> (r: usize)
        ensures
            r == self@.in_use,
    {
        self.in_use
    }

    /// Grants a permit when one is free and the pool is open.
    pub fn try_acquire(&mut self) -> (r: Admission)
        requires
            old(self).wf(),
        ensures
            final(self).wf(),
            final(self)@ == after_acquire(old(self)@),
            grants(old(self)@) <==> r is Granted,
            r is Closed <==> old(self)@.closed,
    {
        if self.closed {
            Admission::Closed
        } else if self.in_use < self.limit {
            self.in_use = self.in_use + 1;
            Admission::Granted(Permit { _slot: () })
        } else {
            Admission::Full
        }
    }

    /// Takes a permit back, freeing its slot.
    pub fn release(&mut self, permit: Permit)
        requires
            old(self).wf(),
        ensures
            final(self).wf(),
            final(self)@ == after_release(old(self)@),
    {
        if self.in_use > 0 {
            self.in_use = self.in_use - 1;
        }
    }

    /// Shuts the pool: every later request is refused.
    pub fn close(&mut self)
        requires
            old(self).wf(),
        ensures
            final(self).wf(),
            final(self)@ == (GateView { closed: true, ..old(self)@ }),
    {
        self.closed = true;
    }
}

proof fn lemma_in_use_after(limit: nat, k: nat)
    requires
        k <= limit,
    ensures
        acquire_times(fresh_gate(limit), k) == (GateView { in_use: k, ..fresh_gate(limit) }),
    decreases k,
{
    if k > 0 {
        lemma_in_use_after(limit, (k - 1) as nat);
    }
}

/// On a fresh pool of `limit` permits, each of the first `n <= limit` requests
/// is granted at once; once `limit` permits are out, the next request waits,
/// and it is granted as soon as one permit comes back.
pub proof fn lemma_admission(limit: nat, n: nat)
    requires
        n <= limit,
    ensures
        forall|k: nat| k < n ==> grants(#[trigger] acquire_times(fresh_gate(limit), k)),
        !grants(acquire_times(fresh_gate(limit), limit)),
        grants(after_release(acquire_times(fresh_gate(limit), limit))) <==> limit > 0,
{
    assert forall|k: nat| k < n implies grants(#[trigger] acquire_times(fresh_gate(limit), k)) by {
        lemma_in_use_after(limit, k);
    }
    lemma_in_use_after(limit, limit);
}

/// The pool after `n` permits come back in a row.
pub open spec fn release_times(v: GateView, n: nat) -> GateView
    decreases n,
{
    if n == 0 {
        v
    } else {
        after_release(release_times(v, (n - 1) as nat))
    }
}

proof fn lemma_in_use_bounded(limit: nat, n: nat)
    ensures
        acquire_times(fresh_gate(limit), n).in_use <= limit,
        acquire_times(fresh_gate(limit), n).limit == limit,
        !acquire_times(fresh_gate(limit), n).closed,
    decreases n,
{
    if n > 0 {
        lemma_in_use_bounded(limit, (n - 1) as nat);
    }
}

proof fn lemma_release_counts_down(v: GateView, k: nat)
    requires
        k <= v.in_use,
    ensures
        release_times(v, k) == (GateView { in_use: (v.in_use - k) as nat, ..v }),
    decreases k,
{
    if k > 0 {
        lemma_release_counts_down(v, (k - 1) as nat);
    }
}

/// However many requests come in a row, no more permits are out than the
/// limit; and once every granted permit has come back, the pool is as fresh
/// as it started, so the next request is granted again.
pub proof fn lemma_permits_bounded_and_returned(limit: nat, n: nat, k: nat)
    requires
        k <= limit,
    ensures
        acquire_times(fresh_gate(limit), n).in_use <= limit,
        release_times(acquire_times(fresh_gate(limit), k), k) == fresh_gate(limit),
        limit > 0 ==> grants(release_times(acquire_times(fresh_gate(limit), k), k)),
{
    lemma_in_use_bounded(limit, n);
    lemma_in_use_after(limit, k);
    lemma_release_counts_down(acquire_times(fresh_gate(limit), k), k);
}

} // verus!
