//! Field elements held by their canonical representative, and the
//! little-endian wire encoding of field-element vectors that the hashing
//! backend serializes its input with.

use vstd::prelude::*;

verus! {

/// Order of the field: the prime 2^64 - 2^32 + 1. Every field element is
/// identified with its unique representative in `[0, FIELD_ORDER)`.
pub const FIELD_ORDER: u64 = 0xFFFF_FFFF_0000_0001;

/// A field element, stored as its canonical (reduced, unsigned) integer
/// representative. The view of a `FieldElement` is that representative.
#[derive(Clone, Copy, Debug, PartialEq, Eq)]
pub struct FieldElement {
    value: u64,
}

impl View for FieldElement {
    type V = u64;

    closed spec fn view(&self) -> u64 {
        self.value
    }
}

impl FieldElement {
    #[verifier::type_invariant]
    spec fn inv(self) -> bool {
        self.value < FIELD_ORDER
    }

    /// Builds the field element with canonical representative `n`.
    pub fn from_canonical_u64(n: u64) -> (r: FieldElement)
        requires
            n < FIELD_ORDER,
        ensures
            r@ == n,
    {
        FieldElement { value: n }
    }

    /// Returns the canonical representative, always strictly below the order.
    pub fn to_canonical_u64(&self) -> (r: u64)
        ensures
            r == self@,
            r < FIELD_ORDER,
    {
        proof {
            use_type_invariant(*self);
        }
        self.value
    }

    /// Two field elements with the same canonical representative are the
    /// same element.
    pub proof fn lemma_view_injective(a: FieldElement, b: FieldElement)
        requires
            a@ == b@,
        ensures
            a == b,
    {
    }
}

/// The 8 little-endian bytes of a 64-bit word.
pub open spec fn u64_le_bytes(x: u64) -> Seq<u8> {
    seq![
        (x % 0x100) as u8,
        ((x / 0x100) % 0x100) as u8,
        ((x / 0x1_0000) % 0x100) as u8,
        ((x / 0x100_0000) % 0x100) as u8,
        ((x / 0x1_0000_0000) % 0x100) as u8,
        ((x / 0x100_0000_0000) % 0x100) as u8,
        ((x / 0x1_0000_0000_0000) % 0x100) as u8,
        ((x / 0x100_0000_0000_0000) % 0x100) as u8,
    ]
}

/// Wire encoding of a field-element vector: each element's canonical
/// representative written as an 8-byte little-endian word, in order, with
/// no padding.
pub open spec fn elems_le_bytes(s: Seq<FieldElement>) -> Seq<u8>
    decreases s.len(),
{
    if s.len() == 0 {
        Seq::empty()
    } else {
        u64_le_bytes(s[0]@) + elems_le_bytes(s.drop_first())
    }
}

pub proof fn lemma_elems_le_bytes_push(s: Seq<FieldElement>, x: FieldElement)
    ensures
        elems_le_bytes(s.push(x)) == elems_le_bytes(s) + u64_le_bytes(x@),
    decreases s.len(),
{
    if s.len() == 0 {
        assert(s.push(x).drop_first() =~= s);
        assert(elems_le_bytes(s.push(x)) =~= elems_le_bytes(s) + u64_le_bytes(x@));
    } else {
        assert(s.push(x).drop_first() =~= s.drop_first().push(x));
        lemma_elems_le_bytes_push(s.drop_first(), x);
        assert(elems_le_bytes(s.push(x)) =~= elems_le_bytes(s) + u64_le_bytes(x@));
    }
}

pub proof fn lemma_elems_le_bytes_len(s: Seq<FieldElement>)
    ensures
        elems_le_bytes(s).len() == 8 * s.len(),
    decreases s.len(),
{
    if s.len() > 0 {
        lemma_elems_le_bytes_len(s.drop_first());
    }
}

/// Appends the 8 little-endian bytes of `x` to `buf`.
fn push_u64_le(buf: &mut Vec<u8>, x: u64)
    ensures
        final(buf)@ == old(buf)@ + u64_le_bytes(x),
{
    buf.push((x % 0x100) as u8);
    buf.push(((x / 0x100) % 0x100) as u8);
    buf.push(((x / 0x1_0000) % 0x100) as u8);
    buf.push(((x / 0x100_0000) % 0x100) as u8);
    buf.push(((x / 0x1_0000_0000) % 0x100) as u8);
    buf.push(((x / 0x100_0000_0000) % 0x100) as u8);
    buf.push(((x / 0x1_0000_0000_0000) % 0x100) as u8);
    buf.push(((x / 0x100_0000_0000_0000) % 0x100) as u8);
    assert(buf@ =~= old(buf)@ + u64_le_bytes(x));
}

/// Serializes a field-element vector with the wire encoding: 8 little-endian
/// bytes per element, concatenated in input order.
pub fn to_le_bytes_vec(elems: &Vec<FieldElement>) -> (r: Vec<u8>)
    ensures
        r@ == elems_le_bytes(elems@),
        r@.len() == 8 * elems@.len(),
{
    let mut buf: Vec<u8> = Vec::new();
    let mut i: usize = 0;
    while i < elems.len()
        invariant
            i <= elems.len(),
            buf@ == elems_le_bytes(elems@.take(i as int)),
        decreases elems.len() - i,
    {
        let x: u64 = elems[i].to_canonical_u64();
        push_u64_le(&mut buf, x);
        proof {
            assert(elems@.take(i as int).push(elems@[i as int]) =~= elems@.take(i + 1));
            lemma_elems_le_bytes_push(elems@.take(i as int), elems@[i as int]);
        }
        i += 1;
    }
    proof {
        assert(elems@.take(elems@.len() as int) =~= elems@);
        lemma_elems_le_bytes_len(elems@);
    }
    buf
}

} // verus!
