//! The byte layout of a proof.
//!
//! Integers are little-endian and of fixed width: a base-field element takes
//! four bytes and a length eight. A field element is written in Montgomery
//! form, `x * 2^32 mod p`, which is how the field stores it. A vector is its
//! length followed by its items; an array is its items alone.

use vstd::prelude::*;
use crate::field::{ExtensionElement, KOALA_BEAR_PRIME};

verus! {

/// The four bytes of `x`, least significant first.
pub open spec fn u32_le(x: u32) -> Seq<u8> {
    seq![
        (x % 256) as u8,
        ((x / 256) % 256) as u8,
        ((x / 65536) % 256) as u8,
        ((x / 16777216) % 256) as u8,
    ]
}

/// The eight bytes of `x`, least significant first.
pub open spec fn u64_le(x: u64) -> Seq<u8> {
    u32_le((x % 4294967296) as u32) + u32_le((x / 4294967296) as u32)
}

/// The Montgomery form of a base-field element: `x * 2^32 mod p`.
pub open spec fn montgomery_form(x: u32) -> u32 {
    ((x as nat * 4294967296) % (KOALA_BEAR_PRIME as nat)) as u32
}

/// The bytes of a run of base-field elements, four for each.
pub open spec fn words_bytes(words: Seq<u32>) -> Seq<u8>
    decreases words.len(),
{
    if words.len() == 0 {
        Seq::empty()
    } else {
        words_bytes(words.drop_last()) + u32_le(montgomery_form(words.last()))
    }
}

/// The bytes of a run of extension elements, sixteen for each.
pub open spec fn elements_bytes(elements: Seq<ExtensionElement>) -> Seq<u8>
    decreases elements.len(),
{
    if elements.len() == 0 {
        Seq::empty()
    } else {
        elements_bytes(elements.drop_last()) + words_bytes(elements.last().coeffs@)
    }
}

/// The bytes of a vector of extension elements: its length, then its items.
pub open spec fn vector_bytes(elements: Seq<ExtensionElement>) -> Seq<u8> {
    u64_le(elements.len() as u64) + elements_bytes(elements)
}

/// A run of `n` words takes `4 * n` bytes.
pub proof fn lemma_words_bytes_len(words: Seq<u32>)
    ensures
        words_bytes(words).len() == 4 * words.len(),
    decreases words.len(),
{
    if words.len() > 0 {
        lemma_words_bytes_len(words.drop_last());
    }
}

/// A run of `n` extension elements takes `16 * n` bytes.
pub proof fn lemma_elements_bytes_len(elements: Seq<ExtensionElement>)
    ensures
        elements_bytes(elements).len() == 16 * elements.len(),
    decreases elements.len(),
{
    if elements.len() > 0 {
        lemma_elements_bytes_len(elements.drop_last());
        lemma_words_bytes_len(elements.last().coeffs@);
    }
}

/// Converts a canonical base-field element to Montgomery form.
pub fn to_montgomery_form(x: u32) -> (m: u32)
    ensures
        m == montgomery_form(x),
        m < KOALA_BEAR_PRIME,
{
    let wide: u64 = (x as u64) * 4294967296u64;
    let reduced: u64 = wide % (KOALA_BEAR_PRIME as u64);
    reduced as u32
}

/// Appends the four bytes of `x`.
pub fn push_u32_le(out: &mut Vec<u8>, x: u32)
    ensures
        final(out)@ == old(out)@ + u32_le(x),
{
    out.push((x % 256) as u8);
    out.push(((x / 256) % 256) as u8);
    out.push(((x / 65536) % 256) as u8);
    out.push(((x / 16777216) % 256) as u8);
    assert(out@ =~= old(out)@ + u32_le(x));
}

/// Appends the eight bytes of `x`.
pub fn push_u64_le(out: &mut Vec<u8>, x: u64)
    ensures
        final(out)@ == old(out)@ + u64_le(x),
{
    push_u32_le(out, (x % 4294967296) as u32);
    push_u32_le(out, (x / 4294967296) as u32);
    assert(out@ =~= old(out)@ + u64_le(x));
}

/// Appends a run of base-field elements.
pub fn push_words(out: &mut Vec<u8>, words: &[u32])
    ensures
        final(out)@ == old(out)@ + words_bytes(words@),
{
    let mut i: usize = 0;
    assert(words@.take(0) =~= Seq::<u32>::empty());
    assert(out@ =~= old(out)@ + words_bytes(words@.take(0)));
    while i < words.len()
        invariant
            i <= words.len(),
            out@ == old(out)@ + words_bytes(words@.take(i as int)),
        decreases words.len() - i,
    {
        let m = to_montgomery_form(words[i]);
        push_u32_le(out, m);
        proof {
            let next = words@.take(i + 1);
            assert(next.drop_last() =~= words@.take(i as int));
            assert(next.last() == words@[i as int]);
            assert(out@ =~= old(out)@ + words_bytes(next));
        }
        i += 1;
    }
    assert(words@.take(words@.len() as int) =~= words@);
}

/// Appends a vector of extension elements: its length, then its items.
pub fn push_vector(out: &mut Vec<u8>, elements: &Vec<ExtensionElement>)
    ensures
        final(out)@ == old(out)@ + vector_bytes(elements@),
{
    push_u64_le(out, elements.len() as u64);
    let ghost start = out@;
    let mut i: usize = 0;
    assert(elements@.take(0) =~= Seq::<ExtensionElement>::empty());
    assert(out@ =~= start + elements_bytes(elements@.take(0)));
    while i < elements.len()
        invariant
            i <= elements.len(),
            start == old(out)@ + u64_le(elements@.len() as u64),
            out@ == start + elements_bytes(elements@.take(i as int)),
        decreases elements.len() - i,
    {
        push_words(out, elements[i].coeffs.as_slice());
        proof {
            let next = elements@.take(i + 1);
            assert(next.drop_last() =~= elements@.take(i as int));
            assert(next.last() == elements@[i as int]);
            assert(out@ =~= start + elements_bytes(next));
        }
        i += 1;
    }
    assert(elements@.take(elements@.len() as int) =~= elements@);
    assert(out@ =~= old(out)@ + vector_bytes(elements@));
}

} // verus!
