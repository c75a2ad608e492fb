//! Per-topic connection counters and the request counter.
//!
//! Each accepted subscriber connection and each handled request gets the next
//! value of a process-scoped counter, used only to identify the connection in
//! diagnostics. The values a counter hands out are strictly increasing, so
//! they are unique for the lifetime of the process. The caller guards the
//! counter with its exclusion mechanism; this type holds the arithmetic.

use vstd::prelude::*;

verus! {

/// A monotonically increasing counter. `issued` is the ghost history of every
/// value handed out, in order.
pub struct ConnectionCounter {
    pub count: u64,
    pub issued: Ghost<Seq<u64>>,
}

impl ConnectionCounter {
    /// The counter invariant: the history holds one value per issue, and the
    /// value of issue `i` is `i + 1`.
    pub open spec fn wf(self) -> bool {
        &&& self.issued@.len() == self.count
        &&& forall|i: int| 0 <= i < self.issued@.len() ==> self.issued@[i] == i + 1
    }

    /// A fresh counter that has issued nothing.
    pub fn new() -> (c: ConnectionCounter)
        ensures
            c.wf(),
            c.count == 0,
            c.issued@ == Seq::<u64>::empty(),
    {
        let c = ConnectionCounter { count: 0, issued: Ghost(Seq::empty()) };
        proof {
            assert(c.issued@ =~= Seq::<u64>::empty());
        }
        c
    }

    /// Issue the next value: one more than every value issued before.
    pub fn next(&mut self) -> (n: u64)
        requires
            old(self).wf(),
            old(self).count < u64::MAX,
        ensures
            final(self).wf(),
            n == old(self).count + 1,
            final(self).count == n,
            final(self).issued@ == old(self).issued@.push(n),
    {
        self.count = self.count + 1;
        let n = self.count;
        proof {
            self.issued@ = self.issued@.push(n);
        }
        n
    }
}

/// Law: a counter never issues the same value twice — any two distinct issues
/// in its history differ.
pub proof fn lemma_issued_values_unique(c: ConnectionCounter, i: int, j: int)
    requires
        c.wf(),
        0 <= i < c.issued@.len(),
        0 <= j < c.issued@.len(),
        i != j,
    ensures
        c.issued@[i] != c.issued@[j],
{
}

} // verus!
