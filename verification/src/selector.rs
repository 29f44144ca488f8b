//! Round-robin upstream selection: a monotone draw counter reduced modulo the
//! pool length.
use vstd::prelude::*;

verus! {

/// The pool index assigned to the draw with sequence number `draw`, for a pool
/// of `n` upstreams.
pub open spec fn spec_rr_index(draw: nat, n: nat) -> nat
    recommends
        n > 0,
{
    draw % n
}

/// Reduce one atomic draw to a pool index: the caller owns the fetch-and-add,
/// this owns the modulo.
pub fn rr_index(draw: usize, n: usize) -> (r: usize)
    requires
        n > 0,
    ensures
        r < n,
        r == spec_rr_index(draw as nat, n as nat),
{
    draw % n
}

/// The round-robin cursor: a single counter, advanced once per forwarded
/// request. The upstream chosen for the `k`-th draw of the process lifetime is
/// `pool[k % pool.len()]`. The raw counter is reachable only through `next`;
/// it wraps silently at the `u64` limit.
pub struct RoundRobin {
    draw: u64,
}

impl RoundRobin {
    /// The sequence number the next draw will be assigned.
    pub closed spec fn count(&self) -> u64 {
        self.draw
    }

    /// A fresh cursor: the first draw selects index 0.
    pub fn new() -> (r: RoundRobin)
        ensures
            r.count() == 0,
    {
        RoundRobin { draw: 0 }
    }

    /// Draw the next sequence number and reduce it to an index into a pool of
    /// `n` upstreams. O(1), never fails for a non-empty pool.
    pub fn next(&mut self, n: usize) -> (r: usize)
        requires
            n > 0,
        ensures
            r < n,
            r == spec_rr_index(old(self).count() as nat, n as nat),
            old(self).count() < u64::MAX ==> final(self).count() == old(self).count() + 1,
            old(self).count() == u64::MAX ==> final(self).count() == 0,
    {
        let draw = self.draw;
        self.draw = if self.draw == u64::MAX {
            0
        } else {
            self.draw + 1
        };
        (draw % (n as u64)) as usize
    }
}

} // verus!
