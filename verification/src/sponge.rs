//! Sponge permutation over field elements, backed by BLAKE3.
//!
//! The input elements are serialized to a byte buffer; repeatedly hashing
//! that buffer (each digest fed back in as the next buffer) yields an
//! unbounded "hash onion" byte stream, read as 8-byte little-endian words.
//! Rejection sampling discards words not below the field order, and the
//! first `SPONGE_WIDTH` accepted words are the output state.

use vstd::arithmetic::div_mod::lemma_fundamental_div_mod_converse;
use vstd::prelude::*;

use crate::field::{elems_le_bytes, to_le_bytes_vec, FieldElement, FIELD_ORDER};
use crate::hashing::{blake3_digest, blake3_hash_bytes};

verus! {

/// Width of the sponge state, in field elements.
pub const SPONGE_WIDTH: usize = 12;

/// Number of onion layers the permutation is prepared to squeeze. Each layer
/// yields four words and a word is rejected with probability below 2^-32,
/// so fewer than `SPONGE_WIDTH` accepted words within this bound never
/// arises in practice.
pub const MAX_ONION_STEPS: usize = 256;

/// The value of the 8-byte little-endian word held by `b`.
pub open spec fn le8(b: Seq<u8>) -> u64
    recommends
        b.len() == 8,
{
    (b[0] + b[1] * 0x100 + b[2] * 0x1_0000 + b[3] * 0x100_0000 + b[4] * 0x1_0000_0000 + b[5]
        * 0x100_0000_0000 + b[6] * 0x1_0000_0000_0000 + b[7] * 0x100_0000_0000_0000) as u64
}

/// Digest of onion layer `step` over the initial buffer `init`: layer 0
/// hashes `init`, and each later layer hashes the previous layer's digest.
pub open spec fn onion_digest(init: Seq<u8>, step: nat) -> Seq<u8>
    decreases step,
{
    if step == 0 {
        blake3_digest(init)
    } else {
        blake3_digest(onion_digest(init, (step - 1) as nat))
    }
}

/// Word `i` of the onion stream: each 32-byte layer digest contributes four
/// 8-byte little-endian words, in order.
pub open spec fn onion_word(init: Seq<u8>, i: nat) -> u64 {
    le8(onion_digest(init, i / 4).subrange(8 * ((i % 4) as int), 8 * ((i % 4) as int) + 8))
}

/// The words accepted by rejection sampling among the first `k` onion
/// words: those strictly below the field order, in stream order.
pub open spec fn accepted_upto(init: Seq<u8>, k: nat) -> Seq<u64>
    decreases k,
{
    if k == 0 {
        Seq::empty()
    } else {
        let pre = accepted_upto(init, (k - 1) as nat);
        let w = onion_word(init, (k - 1) as nat);
        if w < FIELD_ORDER {
            pre.push(w)
        } else {
            pre
        }
    }
}

/// The canonical representatives of a sequence of field elements.
pub open spec fn canonical_values(s: Seq<FieldElement>) -> Seq<u64> {
    s.map_values(|e: FieldElement| e@)
}

/// `out` is the sponge permutation of `input`: its `SPONGE_WIDTH` elements
/// are exactly the accepted words of some prefix of the onion stream over
/// the serialized input.
pub open spec fn is_sponge_output(input: Seq<FieldElement>, out: Seq<FieldElement>) -> bool {
    &&& out.len() == SPONGE_WIDTH
    &&& exists|k: nat| #[trigger] accepted_upto(elems_le_bytes(input), k) == canonical_values(out)
}

/// Longer prefixes of the onion stream only extend the accepted words:
/// the accepted words of the first `k1` onion words are a prefix of those
/// of the first `k2`, whenever `k1 <= k2`.
pub proof fn lemma_accepted_monotone(init: Seq<u8>, k1: nat, k2: nat)
    requires
        k1 <= k2,
    ensures
        accepted_upto(init, k1).len() <= accepted_upto(init, k2).len(),
        forall|i: int|
            0 <= i < accepted_upto(init, k1).len() ==> #[trigger] accepted_upto(init, k2)[i]
                == accepted_upto(init, k1)[i],
    decreases k2,
{
    if k1 < k2 {
        lemma_accepted_monotone(init, k1, (k2 - 1) as nat);
        let pre = accepted_upto(init, (k2 - 1) as nat);
        let w = onion_word(init, (k2 - 1) as nat);
        assert(accepted_upto(init, k2) == if w < FIELD_ORDER {
            pre.push(w)
        } else {
            pre
        });
    }
}

/// Rejection sampling never leaks an out-of-range word: every accepted word
/// is strictly below the field order.
pub proof fn lemma_accepted_words_in_field(init: Seq<u8>, k: nat)
    ensures
        forall|i: int|
            0 <= i < accepted_upto(init, k).len() ==> #[trigger] accepted_upto(init, k)[i]
                < FIELD_ORDER,
    decreases k,
{
    if k > 0 {
        lemma_accepted_words_in_field(init, (k - 1) as nat);
        let pre = accepted_upto(init, (k - 1) as nat);
        let w = onion_word(init, (k - 1) as nat);
        assert(accepted_upto(init, k) == if w < FIELD_ORDER {
            pre.push(w)
        } else {
            pre
        });
    }
}

/// The sponge permutation is deterministic: any two outputs that the
/// permutation relation admits for the same input are equal.
pub proof fn lemma_sponge_output_unique(
    input: Seq<FieldElement>,
    out1: Seq<FieldElement>,
    out2: Seq<FieldElement>,
)
    requires
        is_sponge_output(input, out1),
        is_sponge_output(input, out2),
    ensures
        out1 == out2,
{
    let init = elems_le_bytes(input);
    let v1 = canonical_values(out1);
    let v2 = canonical_values(out2);
    let k1 = choose|k: nat| accepted_upto(init, k) == v1;
    let k2 = choose|k: nat| accepted_upto(init, k) == v2;
    if k1 <= k2 {
        lemma_accepted_monotone(init, k1, k2);
    } else {
        lemma_accepted_monotone(init, k2, k1);
    }
    assert(v1 =~= v2);
    assert forall|i: int| 0 <= i < out1.len() implies out1[i] == out2[i] by {
        assert(v1[i] == out1[i]@);
        assert(v2[i] == out2[i]@);
        FieldElement::lemma_view_injective(out1[i], out2[i]);
    }
    assert(out1 =~= out2);
}

/// Reads the 8-byte little-endian word at position `j` of a 32-byte digest.
fn le_word_at(d: &Vec<u8>, j: usize) -> (w: u64)
    requires
        d@.len() == 32,
        j < 4,
    ensures
        w == le8(d@.subrange(8 * (j as int), 8 * (j as int) + 8)),
{
    let base: usize = 8 * j;
    let w: u64 = (d[base] as u64) + (d[base + 1] as u64) * 0x100 + (d[base + 2] as u64) * 0x1_0000
        + (d[base + 3] as u64) * 0x100_0000 + (d[base + 4] as u64) * 0x1_0000_0000 + (d[base
        + 5] as u64) * 0x100_0000_0000 + (d[base + 6] as u64) * 0x1_0000_0000_0000 + (d[base
        + 7] as u64) * 0x100_0000_0000_0000;
    proof {
        let s = d@.subrange(8 * (j as int), 8 * (j as int) + 8);
        assert(s.len() == 8);
        assert(w == le8(s));
    }
    w
}

/// The BLAKE3-backed sponge permutation.
pub struct Blake3Permutation;

impl Blake3Permutation {
    /// Permutes a `SPONGE_WIDTH`-element state: serializes it, squeezes the
    /// onion stream, rejection-samples words into field elements, and
    /// returns the first `SPONGE_WIDTH` accepted ones. Returns `None` only
    /// in the practically unreachable case that `MAX_ONION_STEPS` onion
    /// layers yield fewer than `SPONGE_WIDTH` accepted words.
    pub fn permute(input: &Vec<FieldElement>) -> (r: Option<Vec<FieldElement>>)
        requires
            input@.len() == SPONGE_WIDTH,
        ensures
            r is Some <==> accepted_upto(
                elems_le_bytes(input@),
                (4 * MAX_ONION_STEPS) as nat,
            ).len() >= SPONGE_WIDTH,
            match r {
                Some(out) => is_sponge_output(input@, out@) && forall|i: int|
                    0 <= i < out@.len() ==> (#[trigger] out@[i])@ < FIELD_ORDER,
                None => accepted_upto(elems_le_bytes(input@), (4 * MAX_ONION_STEPS) as nat).len()
                    < SPONGE_WIDTH,
            },
    {
        let buf: Vec<u8> = to_le_bytes_vec(input);
        let ghost init: Seq<u8> = buf@;
        let mut state: Vec<u8> = buf;
        let mut words: Vec<u64> = Vec::new();
        let ghost mut consumed: nat = 0;
        let mut step: usize = 0;
        while step < MAX_ONION_STEPS && words.len() < SPONGE_WIDTH
            invariant
                init == elems_le_bytes(input@),
                step <= MAX_ONION_STEPS,
                words@ == accepted_upto(init, consumed),
                words@.len() <= SPONGE_WIDTH,
                consumed <= 4 * step,
                words@.len() < SPONGE_WIDTH ==> consumed == 4 * step,
                state@ == (if step == 0 {
                    init
                } else {
                    onion_digest(init, (step - 1) as nat)
                }),
            decreases MAX_ONION_STEPS - step,
        {
            let digest: Vec<u8> = blake3_hash_bytes(&state);
            proof {
                assert(digest@ == onion_digest(init, step as nat));
            }
            let mut j: usize = 0;
            while j < 4
                invariant
                    j <= 4,
                    step < MAX_ONION_STEPS,
                    digest@ == onion_digest(init, step as nat),
                    digest@.len() == 32,
                    words@ == accepted_upto(init, consumed),
                    words@.len() <= SPONGE_WIDTH,
                    consumed <= 4 * step + j,
                    words@.len() < SPONGE_WIDTH ==> consumed == 4 * step + j,
                decreases 4 - j,
            {
                if words.len() < SPONGE_WIDTH {
                    let w: u64 = le_word_at(&digest, j);
                    proof {
                        lemma_fundamental_div_mod_converse(
                            consumed as int,
                            4,
                            step as int,
                            j as int,
                        );
                        assert(w == onion_word(init, consumed));
                    }
                    if w < FIELD_ORDER {
                        words.push(w);
                    }
                    proof {
                        let pre = accepted_upto(init, consumed);
                        assert(accepted_upto(init, (consumed + 1) as nat) == if onion_word(
                            init,
                            consumed,
                        ) < FIELD_ORDER {
                            pre.push(onion_word(init, consumed))
                        } else {
                            pre
                        });
                        consumed = consumed + 1;
                    }
                }
                j += 1;
            }
            state = digest;
            step += 1;
        }
        if words.len() < SPONGE_WIDTH {
            return None;
        }
        proof {
            lemma_accepted_monotone(init, consumed, (4 * MAX_ONION_STEPS) as nat);
            lemma_accepted_words_in_field(init, consumed);
        }
        let mut out: Vec<FieldElement> = Vec::new();
        let mut i: usize = 0;
        while i < words.len()
            invariant
                i <= words@.len(),
                out@.len() == i,
                forall|t: int|
                    0 <= t < words@.len() ==> #[trigger] words@[t] < FIELD_ORDER,
                forall|t: int| 0 <= t < i ==> (#[trigger] out@[t])@ == words@[t],
            decreases words@.len() - i,
        {
            let w: u64 = words[i];
            out.push(FieldElement::from_canonical_u64(w));
            i += 1;
        }
        proof {
            assert(canonical_values(out@) =~= words@);
            assert(accepted_upto(init, consumed) == canonical_values(out@));
        }
        Some(out)
    }
}

} // verus!
