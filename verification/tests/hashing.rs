use trace_hash::field::FieldElement;
use trace_hash::hashing::Blake3_256;

fn elements(values: &[u64]) -> Vec<FieldElement> {
    values.iter().map(|&v| FieldElement::from_canonical_u64(v)).collect()
}

#[test]
fn empty_input_gives_known_blake3_digest() {
    // The empty field-element vector serializes to the empty buffer, so the
    // 32-byte digest is BLAKE3 of the empty input.
    let expected: Vec<u8> = vec![
        0xaf, 0x13, 0x49, 0xb9, 0xf5, 0xf9, 0xa1, 0xa6, 0xa0, 0x40, 0x4d, 0xea, 0x36, 0xdc, 0xc9,
        0x49, 0x9b, 0xcb, 0x25, 0xc9, 0xad, 0xc1, 0x12, 0xb7, 0xcc, 0x9a, 0x93, 0xca, 0xe4, 0x1f,
        0x32, 0x62,
    ];
    let h = Blake3_256::<32>::hash_no_pad(&elements(&[]));
    assert_eq!(h.as_bytes(), &expected);
}

#[test]
fn hash_no_pad_is_deterministic() {
    let input = elements(&[1, 2, 3, 4, 5]);
    let h1 = Blake3_256::<32>::hash_no_pad(&input);
    let h2 = Blake3_256::<32>::hash_no_pad(&input);
    assert_eq!(h1, h2);
}

#[test]
fn changing_one_element_changes_the_digest() {
    let h1 = Blake3_256::<32>::hash_no_pad(&elements(&[1, 2, 3, 4, 5]));
    let h2 = Blake3_256::<32>::hash_no_pad(&elements(&[1, 2, 9, 4, 5]));
    assert_ne!(h1, h2);
}

#[test]
fn empty_and_nonempty_inputs_hash_differently() {
    let h_empty = Blake3_256::<32>::hash_no_pad(&elements(&[]));
    let h_one = Blake3_256::<32>::hash_no_pad(&elements(&[0]));
    assert_ne!(h_empty, h_one);
}

#[test]
fn digest_has_requested_size() {
    let h16 = Blake3_256::<16>::hash_no_pad(&elements(&[7, 8]));
    let h32 = Blake3_256::<32>::hash_no_pad(&elements(&[7, 8]));
    assert_eq!(h16.as_bytes().len(), 16);
    assert_eq!(h32.as_bytes().len(), 32);
}

#[test]
fn truncated_digest_is_a_prefix_of_the_full_digest() {
    let h16 = Blake3_256::<16>::hash_no_pad(&elements(&[7, 8]));
    let h32 = Blake3_256::<32>::hash_no_pad(&elements(&[7, 8]));
    assert_eq!(h16.as_bytes().as_slice(), &h32.as_bytes()[..16]);
}

#[test]
fn two_to_one_is_deterministic() {
    let a = Blake3_256::<32>::hash_no_pad(&elements(&[1]));
    let b = Blake3_256::<32>::hash_no_pad(&elements(&[2]));
    let a2 = Blake3_256::<32>::hash_no_pad(&elements(&[1]));
    let b2 = Blake3_256::<32>::hash_no_pad(&elements(&[2]));
    let parent1 = Blake3_256::<32>::two_to_one(a, b);
    let parent2 = Blake3_256::<32>::two_to_one(a2, b2);
    assert_eq!(parent1, parent2);
}

#[test]
fn two_to_one_is_order_sensitive() {
    let a = Blake3_256::<32>::hash_no_pad(&elements(&[1]));
    let b = Blake3_256::<32>::hash_no_pad(&elements(&[2]));
    assert_ne!(a, b);
    let a2 = Blake3_256::<32>::hash_no_pad(&elements(&[1]));
    let b2 = Blake3_256::<32>::hash_no_pad(&elements(&[2]));
    let left_right = Blake3_256::<32>::two_to_one(a, b);
    let right_left = Blake3_256::<32>::two_to_one(b2, a2);
    assert_ne!(left_right, right_left);
}

#[test]
fn field_element_roundtrip() {
    let e = FieldElement::from_canonical_u64(123_456_789);
    assert_eq!(e.to_canonical_u64(), 123_456_789);
}
