use flowcontrol::fingerprint::{is_renderable, render};

#[test]
fn render_zero_bytes_produces_three_groups() {
    // 5 bytes chunk-by-2 → (2,2,1). Chunks of len 2 emit 3 chars each;
    // the trailing 1-byte chunk emits 2. Total: 3+3+2 = 8 chars + 2
    // separators = 10 chars.
    let s = render(&[0u8; 5]);
    assert_eq!(s.len(), 10);
    assert_eq!(s.matches('-').count(), 2);
}

#[test]
fn same_nonces_yield_same_fingerprint() {
    let client = [1u8; 16];
    let server = [2u8; 16];
    assert_eq!(flowcontrol::fingerprint::derive(&client, &server), flowcontrol::fingerprint::derive(&client, &server));
}

#[test]
fn nonce_order_matters() {
    let a = [1u8; 16];
    let b = [2u8; 16];
    // Both peers must use the same (client, server) ordering; swapping
    // produces a different fingerprint.
    assert_ne!(flowcontrol::fingerprint::derive(&a, &b), flowcontrol::fingerprint::derive(&b, &a));
}

#[test]
fn render_zero_bytes_exact_text() {
    assert_eq!(render(&[0u8; 5]), "222-222-22");
}

#[test]
fn render_known_bytes() {
    // 0x0842 = 0b00001_00001_00001_0 → groups 1,1,1 → "333".
    // 0xFFFD: groups 31 would be out of range; use 0xF7BC = 11110_11110_11110_0 → 30,30,30 → "ZZZ".
    // 0x10 high byte alone: n = 0x1000 → groups 2, 0 → "42".
    assert_eq!(render(&[0x08, 0x42, 0xF7, 0xBC, 0x10]), "333-ZZZ-42");
}

#[test]
fn digest_prefix_matches_blake3() {
    let client = [7u8; 16];
    let server = [9u8; 16];
    let mut input = b"flowcontrol-pair-v1".to_vec();
    input.extend_from_slice(&client);
    input.extend_from_slice(&server);
    let expected = blake3::hash(&input);
    assert_eq!(&flowcontrol::fingerprint::derive(&client, &server)[..], &expected.as_bytes()[..5]);
}

#[test]
fn renderability_excludes_group_31() {
    assert!(is_renderable(&[0u8; 5]));
    // High byte 0xF8 puts 31 in the first group of the first chunk.
    assert!(!is_renderable(&[0xF8, 0, 0, 0, 0]));
    // Low bits 0x3E of the second byte put 31 in the third group.
    assert!(!is_renderable(&[0, 0x3E, 0, 0, 0]));
}
