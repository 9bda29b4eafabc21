//! The trace matrix and the arithmetic on its height.

use vstd::prelude::*;
use vstd::arithmetic::power2::{pow2, lemma_pow2_strictly_increases, lemma_pow2_unfold, lemma2_to64};
use crate::field::{all_canonical, KOALA_BEAR_PRIME};

verus! {

/// `n` is `2^k` for some `k`.
pub open spec fn is_power_of_two(n: nat) -> bool {
    exists|k: nat| pow2(k) == n
}

/// The exponent `k` with `2^k == n`, for `n` a power of two.
pub open spec fn log2_exact(n: nat) -> nat
    recommends
        is_power_of_two(n),
{
    choose|k: nat| pow2(k) == n
}

/// A power of two has exactly one exponent.
pub proof fn lemma_pow2_injective(a: nat, b: nat)
    requires
        pow2(a) == pow2(b),
    ensures
        a == b,
{
    if a < b {
        lemma_pow2_strictly_increases(a, b);
    } else if b < a {
        lemma_pow2_strictly_increases(b, a);
    }
}

/// `log2_exact` inverts `pow2`.
pub proof fn lemma_log2_exact_of_pow2(k: nat)
    ensures
        is_power_of_two(pow2(k)),
        log2_exact(pow2(k)) == k,
{
    let j = choose|j: nat| pow2(j) == pow2(k);
    lemma_pow2_injective(j, k);
}

/// A row-major table of base-field elements.
#[derive(Clone, Debug, PartialEq, Eq)]
pub struct TraceMatrix {
    /// The entries, row after row, each a canonical field element.
    pub values: Vec<u32>,
    /// The number of columns.
    pub width: usize,
}

impl TraceMatrix {
    /// The rows are complete and every entry is canonical.
    pub open spec fn wf(&self) -> bool {
        &&& self.width > 0
        &&& self.values@.len() % (self.width as nat) == 0
        &&& all_canonical(self.values@)
    }

    /// The number of rows; zero for a matrix without columns.
    pub open spec fn spec_height(&self) -> nat {
        if self.width == 0 {
            0
        } else {
            self.values@.len() / (self.width as nat)
        }
    }

    /// Builds a matrix from its entries, or `None` where they do not fill
    /// whole rows of `width` columns or one of them is not canonical.
    pub fn new(values: Vec<u32>, width: usize) -> (m: Option<TraceMatrix>)
        ensures
            m.is_some() <==> (TraceMatrix { values, width }).wf(),
            m.is_some() ==> m.unwrap() == (TraceMatrix { values, width }),
    {
        let matrix = TraceMatrix { values, width };
        if matrix.is_wf() {
            Some(matrix)
        } else {
            None
        }
    }

    /// Whether the rows are complete and every entry is canonical.
    pub fn is_wf(&self) -> (b: bool)
        ensures
            b == self.wf(),
    {
        if self.width == 0 || self.values.len() % self.width != 0 {
            return false;
        }
        let mut i: usize = 0;
        while i < self.values.len()
            invariant
                i <= self.values.len(),
                forall|j: int| 0 <= j < i ==> (#[trigger] self.values@[j]) < KOALA_BEAR_PRIME,
            decreases self.values.len() - i,
        {
            if self.values[i] >= KOALA_BEAR_PRIME {
                return false;
            }
            i += 1;
        }
        true
    }

    /// The number of rows.
    pub fn height(&self) -> (h: usize)
        ensures
            h == self.spec_height(),
    {
        if self.width == 0 {
            0
        } else {
            self.values.len() / self.width
        }
    }

    /// The number of columns.
    pub fn width(&self) -> (w: usize)
        ensures
            w == self.width,
    {
        self.width
    }
}

/// Whether `n` is a power of two.
pub fn is_power_of_two_usize(n: usize) -> (b: bool)
    ensures
        b == is_power_of_two(n as nat),
{
    let mut p: usize = 1;
    let ghost mut k: nat = 0;
    proof {
        lemma2_to64();
    }
    while p < n && p <= usize::MAX / 2
        invariant
            p >= 1,
            pow2(k) == p,
            forall|j: nat| j < k ==> (#[trigger] pow2(j)) < n,
        decreases usize::MAX - p,
    {
        proof {
            lemma_pow2_unfold(k + 1);
            assert forall|j: nat| j < k + 1 implies (#[trigger] pow2(j)) < n by {
                if j < k {
                } else {
                    assert(j == k);
                }
            }
            k = k + 1;
        }
        p = p * 2;
    }
    proof {
        if p == n {
            assert(pow2(k) == n as nat);
        } else {
            assert forall|j: nat| pow2(j) != n as nat by {
                if j < k {
                } else if j == k {
                } else {
                    lemma_pow2_strictly_increases(k, j);
                    if p < n {
                        // p exceeds half the range, so the next power does not fit
                        lemma_pow2_unfold(k + 1);
                        if j > k + 1 {
                            lemma_pow2_strictly_increases(k + 1, j);
                        }
                    }
                }
            }
        }
    }
    p == n
}

} // verus!
