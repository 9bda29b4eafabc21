//! Field elements as canonical integers.
//!
//! A base-field element is a `u32` below the KoalaBear prime. An element of
//! the degree-four extension is the array of its four coefficients over the
//! power basis, and a digest is an array of eight base-field elements.

use vstd::prelude::*;

verus! {

/// The KoalaBear prime, `2^31 - 2^24 + 1`.
pub const KOALA_BEAR_PRIME: u32 = 2130706433;

/// The multiplicative group of the field has a subgroup of order `2^k` for
/// every `k` up to this bound and for no larger one.
pub const TWO_ADICITY: usize = 24;

/// The number of base-field coefficients of an extension element.
pub const EXTENSION_DEGREE: usize = 4;

/// The number of base-field elements in a digest.
pub const DIGEST_ELEMS: usize = 8;

/// `x` is the canonical representative of a base-field element.
pub open spec fn is_canonical(x: u32) -> bool {
    x < KOALA_BEAR_PRIME
}

/// Every entry of `s` is canonical.
pub open spec fn all_canonical(s: Seq<u32>) -> bool {
    forall|i: int| 0 <= i < s.len() ==> is_canonical(#[trigger] s[i])
}

/// The coefficients are those of an element of the base field: all but the
/// constant term vanish.
pub open spec fn coefficients_in_base_field(coeffs: Seq<u32>) -> bool {
    coeffs[1] == 0 && coeffs[2] == 0 && coeffs[3] == 0
}

/// An element of the degree-four extension of the base field.
#[derive(Clone, Copy, Debug, PartialEq, Eq)]
pub struct ExtensionElement {
    /// Coefficients over the power basis, constant term first.
    pub coeffs: [u32; EXTENSION_DEGREE],
}

impl ExtensionElement {
    /// Every coefficient is canonical.
    pub open spec fn wf(&self) -> bool {
        all_canonical(self.coeffs@)
    }

    /// The element lies in the base field: all but its constant term vanish.
    pub open spec fn in_base_field(&self) -> bool {
        coefficients_in_base_field(self.coeffs@)
    }

    /// Whether the element lies in the base field.
    pub fn is_in_base_field(&self) -> (b: bool)
        ensures
            b == self.in_base_field(),
    {
        self.coeffs[1] == 0 && self.coeffs[2] == 0 && self.coeffs[3] == 0
    }

    /// Whether every coefficient is canonical.
    pub fn is_wf(&self) -> (b: bool)
        ensures
            b == self.wf(),
    {
        self.coeffs[0] < KOALA_BEAR_PRIME && self.coeffs[1] < KOALA_BEAR_PRIME
            && self.coeffs[2] < KOALA_BEAR_PRIME && self.coeffs[3] < KOALA_BEAR_PRIME
    }
}

/// A Merkle root over the base field.
#[derive(Clone, Copy, Debug, PartialEq, Eq)]
pub struct Digest {
    /// The eight base-field elements of the root.
    pub words: [u32; DIGEST_ELEMS],
}

impl Digest {
    /// Every word is canonical.
    pub open spec fn wf(&self) -> bool {
        all_canonical(self.words@)
    }

    /// Whether every word is canonical.
    pub fn is_wf(&self) -> (b: bool)
        ensures
            b == self.wf(),
    {
        let mut i: usize = 0;
        while i < DIGEST_ELEMS
            invariant
                i <= DIGEST_ELEMS,
                forall|j: int| 0 <= j < i ==> is_canonical(#[trigger] self.words@[j]),
            decreases DIGEST_ELEMS - i,
        {
            if self.words[i] >= KOALA_BEAR_PRIME {
                return false;
            }
            i += 1;
        }
        true
    }
}

/// Every element of `s` has canonical coefficients.
pub open spec fn elements_wf(s: Seq<ExtensionElement>) -> bool {
    forall|i: int| 0 <= i < s.len() ==> (#[trigger] s[i]).wf()
}

/// Whether every element of `values` has canonical coefficients.
pub fn all_wf(values: &Vec<ExtensionElement>) -> (b: bool)
    ensures
        b == elements_wf(values@),
{
    let mut i: usize = 0;
    while i < values.len()
        invariant
            i <= values.len(),
            forall|j: int| 0 <= j < i ==> (#[trigger] values@[j]).wf(),
        decreases values.len() - i,
    {
        if !values[i].is_wf() {
            return false;
        }
        i += 1;
    }
    true
}

} // verus!
