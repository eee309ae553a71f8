use vstd::prelude::*;

verus! {

/// Tally of in-flight requests on one listener instance.
///
/// Each accepted request increments the counter before it is dispatched and
/// decrements it again once the response is out, so the value is the number
/// of requests currently being served. Decrement is only legal after a
/// matching increment, which keeps the tally non-negative by construction.
pub struct ConnectionCounter {
    count: usize,
}

impl ConnectionCounter {
    pub closed spec fn spec_count(&self) -> nat {
        self.count as nat
    }

    pub fn new() -> (c: ConnectionCounter)
        ensures
            c.spec_count() == 0,
    {
        ConnectionCounter { count: 0 }
    }

    /// Record that one more request is in flight.
    pub fn increment(&mut self)
        requires
            old(self).spec_count() < usize::MAX,
        ensures
            final(self).spec_count() == old(self).spec_count() + 1,
    {
        self.count = self.count + 1;
    }

    /// Record that one in-flight request has completed. A completion without
    /// a matching prior arrival is ruled out by the precondition.
    pub fn decrement(&mut self)
        requires
            old(self).spec_count() > 0,
        ensures
            final(self).spec_count() == old(self).spec_count() - 1,
    {
        self.count = self.count - 1;
    }

    /// Force the tally back to zero; used when a serve-time fault tears the
    /// listener down without an orderly drain.
    pub fn reset(&mut self)
        ensures
            final(self).spec_count() == 0,
    {
        self.count = 0;
    }

    pub fn current(&self) -> (n: usize)
        ensures
            n == self.spec_count(),
    {
        self.count
    }
}

} // verus!
