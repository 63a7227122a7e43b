//! The session layer's admission bound on concurrently served connections.
//!
//! The server serves at most [`MAX_CONCURRENT_CONNECTIONS`] connections at a
//! time; further accepted connections wait at the transport until a slot is
//! released by a connection's closure. An [`Admission`] counter is the
//! decision core of that bound: the accept loop asks it before serving a
//! connection and tells it when one closes.

use vstd::prelude::*;

verus! {

/// How many connections the server serves concurrently, at most.
pub const MAX_CONCURRENT_CONNECTIONS: usize = 10;

/// The counter the accept loop consults: how many connections are being
/// served, against a fixed limit.
pub struct Admission {
    active: usize,
    limit: usize,
}

impl Admission {
    /// How many connections are currently served.
    pub closed spec fn active_spec(&self) -> nat {
        self.active as nat
    }

    /// The most connections ever served at once.
    pub closed spec fn limit_spec(&self) -> nat {
        self.limit as nat
    }

    /// No more connections are served than the limit allows.
    pub open spec fn wf(&self) -> bool {
        self.active_spec() <= self.limit_spec()
    }

    /// A counter with the server's fixed limit and no connection served.
    pub fn new() -> (a: Admission)
        ensures
            a.wf(),
            a.active_spec() == 0,
            a.limit_spec() == MAX_CONCURRENT_CONNECTIONS,
    {
        Admission { active: 0, limit: MAX_CONCURRENT_CONNECTIONS }
    }

    /// A counter with a chosen limit and no connection served.
    pub fn with_limit(limit: usize) -> (a: Admission)
        ensures
            a.wf(),
            a.active_spec() == 0,
            a.limit_spec() == limit,
    {
        Admission { active: 0, limit }
    }

    /// Ask to serve one more connection. Admission is granted exactly when a
    /// slot is free; a denied connection is not counted and must wait for a
    /// release.
    pub fn try_admit(&mut self) -> (admitted: bool)
        requires
            old(self).wf(),
        ensures
            final(self).wf(),
            final(self).limit_spec() == old(self).limit_spec(),
            admitted == (old(self).active_spec() < old(self).limit_spec()),
            admitted ==> final(self).active_spec() == old(self).active_spec() + 1,
            !admitted ==> final(self).active_spec() == old(self).active_spec(),
    {
        if self.active < self.limit {
            self.active = self.active + 1;
            true
        } else {
            false
        }
    }

    /// A served connection closed: its slot is free again.
    pub fn release(&mut self)
        requires
            old(self).wf(),
            old(self).active_spec() > 0,
        ensures
            final(self).wf(),
            final(self).limit_spec() == old(self).limit_spec(),
            final(self).active_spec() == old(self).active_spec() - 1,
    {
        self.active = self.active - 1;
    }

    /// How many connections are currently served.
    pub fn active_count(&self) -> (n: usize)
        ensures
            n == self.active_spec(),
    {
        self.active
    }

    /// The limit this counter was made with.
    pub fn limit(&self) -> (n: usize)
        ensures
            n == self.limit_spec(),
    {
        self.limit
    }
}

/// The admission bound: however the accept loop interleaves admissions and
/// releases, a well-formed counter never serves more than its limit at once,
/// and a connection beyond the limit is admitted only after a release has
/// brought the count back under it.
pub proof fn lemma_admission_bound(a: Admission)
    requires
        a.wf(),
    ensures
        a.active_spec() <= a.limit_spec(),
        a.active_spec() == a.limit_spec() ==> !(a.active_spec() < a.limit_spec()),
{
}

} // verus!
