//! Mirror failover bookkeeping for one backend family.
//!
//! A family keeps an ordered list of interchangeable mirror domains, the
//! index of the mirror currently in use, and the index at which the current
//! exhaustion cycle began (the mirror of the last successful call).
//! Advancing past every mirror back to the cycle start signals that the
//! whole family is down.

use vstd::prelude::*;

verus! {

/// Failover state of one backend family.
#[derive(Debug, Clone)]
pub struct DomainFailover {
    pub domains: Vec<String>,
    pub index: usize,
    pub cycle_start: usize,
}

/// The index that a single advance moves to: one step forward, wrapping at
/// the end of the list.
pub open spec fn next_index_spec(index: int, len: int) -> int {
    if index + 1 >= len {
        0
    } else {
        index + 1
    }
}

/// Advancing from `index` would land on the cycle start again: every mirror
/// of the family has been tried since the last success.
pub open spec fn advance_exhausted(index: int, len: int, cycle_start: int) -> bool {
    next_index_spec(index, len) == cycle_start
}

/// The index reached after `k` single advances from `start`, in a list of
/// `len` domains.
pub open spec fn index_after(start: int, len: int, k: nat) -> int
    decreases k,
{
    if k == 0 {
        start
    } else {
        next_index_spec(index_after(start, len, (k - 1) as nat), len)
    }
}

impl DomainFailover {
    /// The indices are positions in the domain list.
    pub open spec fn wf(self) -> bool {
        self.index < self.domains.len() && self.cycle_start < self.domains.len()
    }

    pub fn new(domains: Vec<String>, index: usize) -> (r: Self)
        requires
            index < domains.len(),
        ensures
            r.wf(),
            r.domains == domains,
            r.index == index,
            r.cycle_start == index,
    {
        DomainFailover { domains, index, cycle_start: index }
    }

    /// The domain currently in use.
    pub fn current(&self) -> (r: &str)
        requires
            self.wf(),
        ensures
            r@ == self.domains@[self.index as int]@,
    {
        self.domains[self.index].as_str()
    }

    /// Moves to the next mirror, wrapping at the end of the list; fails,
    /// without moving, when the next mirror would be the cycle start again,
    /// which means every mirror has been tried since the last success.
    pub fn advance(&mut self) -> (r: Result<(), ()>)
        requires
            old(self).wf(),
        ensures
            final(self).wf(),
            final(self).domains == old(self).domains,
            final(self).cycle_start == old(self).cycle_start,
            r is Ok <==> !advance_exhausted(
                old(self).index as int,
                old(self).domains.len() as int,
                old(self).cycle_start as int,
            ),
            r is Ok ==> final(self).index == next_index_spec(
                old(self).index as int,
                old(self).domains.len() as int,
            ),
            r is Err ==> final(self).index == old(self).index,
    {
        let mut i = self.index;
        i += 1;
        if i >= self.domains.len() {
            i = 0;
        }
        if i == self.cycle_start {
            Err(())
        } else {
            self.index = i;
            Ok(())
        }
    }

    /// Records a successful call through the current mirror: a later failure
    /// starts a fresh exhaustion cycle from here.
    pub fn mark_success(&mut self)
        ensures
            final(self).domains == old(self).domains,
            final(self).index == old(self).index,
            final(self).cycle_start == old(self).index,
    {
        self.cycle_start = self.index;
    }

    /// Replaces the whole domain list, restarting from the front.
    pub fn replace_domains(&mut self, domains: Vec<String>)
        ensures
            final(self).domains == domains,
            final(self).index == 0,
            final(self).cycle_start == 0,
    {
        self.domains = domains;
        self.index = 0;
        self.cycle_start = 0;
    }
}

/// After `k` advances from `start` in a list of `n` domains, the index is
/// `start + k`, wrapped once past the end of the list.
pub proof fn lemma_index_after_value(start: int, n: int, k: nat)
    requires
        0 <= start < n,
        k <= n,
    ensures
        index_after(start, n, k) == if start + k < n {
            start + k
        } else {
            start + k - n
        },
    decreases k,
{
    if k > 0 {
        lemma_index_after_value(start, n, (k - 1) as nat);
    }
}

/// Mirror rotation covers every domain exactly once before declaring
/// exhaustion: starting a fresh cycle at `start` in a family of `n` mirrors,
/// each of the first `n - 1` advances succeeds and lands on a mirror not
/// tried before in this cycle, and the `n`-th advance signals exhaustion.
pub proof fn lemma_rotation_covers_all(start: int, n: int, k: nat)
    requires
        0 <= start < n,
        1 <= k <= n,
    ensures
        k < n ==> !advance_exhausted(index_after(start, n, (k - 1) as nat), n, start),
        k < n ==> index_after(start, n, k) != start,
        k < n ==> forall|j: nat|
            j < k ==> index_after(start, n, k) != #[trigger] index_after(start, n, j),
        k == n ==> advance_exhausted(index_after(start, n, (k - 1) as nat), n, start),
    decreases k,
{
    lemma_index_after_value(start, n, k);
    lemma_index_after_value(start, n, (k - 1) as nat);
    if k < n {
        assert forall|j: nat|
            j < k implies index_after(start, n, k) != #[trigger] index_after(start, n, j) by {
            lemma_index_after_value(start, n, j);
        }
    }
}

} // verus!
