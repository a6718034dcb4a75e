//! Random draws for obstacle recycling: a thread-local draw from the `rand`
//! crate for ordinary sessions, and a seedable linear-congruential generator
//! for deterministic testing.

use vstd::prelude::*;

verus! {

/// Relies on `rand::random_range`: a draw from the half-open range
/// `lo..hi` by the thread-local generator.  It panics only on an empty
/// range, which the precondition rules out.
#[verifier::external_body]
pub(crate) fn random_in_range(lo: i32, hi: i32) -> (r: i32)
    requires
        lo < hi,
    ensures
        lo <= r < hi,
{
    rand::random_range(lo..hi)
}

/// A seedable deterministic generator (a linear-congruential step modulo
/// 2^31), so tests can reproduce exact recycled lanes and offsets.  Two
/// generators built from the same seed produce the same sequence.
#[derive(Clone, Copy, PartialEq, Eq, Structural, Debug)]
pub struct SeededRng {
    state: u64,
}

impl SeededRng {
    /// The generator state stays below the modulus.
    pub closed spec fn wf(self) -> bool {
        self.state < 0x8000_0000
    }

    /// The state after one step.
    pub closed spec fn spec_step(self) -> SeededRng {
        SeededRng { state: ((self.state * 1103515245 + 12345) % 0x8000_0000) as u64 }
    }

    /// The value a draw below `n` yields from the stepped state.
    pub closed spec fn spec_draw(self, n: int) -> int
        recommends
            n > 0,
    {
        self.spec_step().state as int % n
    }

    /// Builds a generator from a seed.  Equal seeds give equal generators.
    pub fn new(seed: u64) -> (r: SeededRng)
        ensures
            r.wf(),
    {
        SeededRng { state: seed % 0x8000_0000 }
    }

    /// Draws a value in `[0, n)`, advancing the state deterministically.
    pub fn next_below(&mut self, n: i32) -> (r: i32)
        requires
            old(self).wf(),
            0 < n,
        ensures
            final(self).wf(),
            *final(self) == old(self).spec_step(),
            0 <= r < n,
            r == old(self).spec_draw(n as int),
    {
        assert(self.state * 1103515245 <= 0x7FFF_FFFFu64 * 1103515245) by (nonlinear_arith)
            requires
                self.state <= 0x7FFF_FFFFu64,
        ;
        self.state = (self.state * 1103515245 + 12345) % 0x8000_0000;
        let r: u64 = self.state % (n as u64);
        r as i32
    }

    /// Draws a value in `[lo, hi)`, advancing the state deterministically.
    pub fn next_in_range(&mut self, lo: i32, hi: i32) -> (r: i32)
        requires
            old(self).wf(),
            lo < hi,
            -0x10_0000 <= lo,
            hi <= 0x10_0000,
        ensures
            final(self).wf(),
            *final(self) == old(self).spec_step(),
            lo <= r < hi,
            r == lo + old(self).spec_draw(hi - lo),
    {
        let width: i32 = hi - lo;
        let d: i32 = self.next_below(width);
        lo + d
    }
}

} // verus!
