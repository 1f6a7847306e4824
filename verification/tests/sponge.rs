use trace_hash::field::{FieldElement, FIELD_ORDER};
use trace_hash::sponge::{Blake3Permutation, SPONGE_WIDTH};

fn state(values: &[u64]) -> Vec<FieldElement> {
    values.iter().map(|&v| FieldElement::from_canonical_u64(v)).collect()
}

fn canonical(elements: &[FieldElement]) -> Vec<u64> {
    elements.iter().map(|e| e.to_canonical_u64()).collect()
}

#[test]
fn permute_returns_a_full_state() {
    let input = state(&[0; 12]);
    assert_eq!(input.len(), SPONGE_WIDTH);
    let out = Blake3Permutation::permute(&input).unwrap();
    assert_eq!(out.len(), SPONGE_WIDTH);
}

#[test]
fn permute_is_deterministic() {
    let input = state(&[0, 1, 2, 3, 4, 5, 6, 7, 8, 9, 10, 11]);
    let out1 = Blake3Permutation::permute(&input).unwrap();
    let out2 = Blake3Permutation::permute(&input).unwrap();
    assert_eq!(canonical(&out1), canonical(&out2));
}

#[test]
fn permute_outputs_are_valid_field_elements() {
    let input = state(&[u64::MAX / 3; 12].map(|v| v % FIELD_ORDER));
    let out = Blake3Permutation::permute(&input).unwrap();
    for e in &out {
        assert!(e.to_canonical_u64() < FIELD_ORDER);
    }
}

#[test]
fn permute_transforms_the_state() {
    let input = state(&[0; 12]);
    let out = Blake3Permutation::permute(&input).unwrap();
    assert_ne!(canonical(&input), canonical(&out));
}

#[test]
fn different_states_permute_differently() {
    let out1 = Blake3Permutation::permute(&state(&[0; 12])).unwrap();
    let out2 = Blake3Permutation::permute(&state(&[1, 0, 0, 0, 0, 0, 0, 0, 0, 0, 0, 0])).unwrap();
    assert_ne!(canonical(&out1), canonical(&out2));
}
