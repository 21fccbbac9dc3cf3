use xv2_save_convert::layout::{EDITOR_SIZE, FLAG_LEFTOVERS, FLAG_NO_LEFTOVERS, VER_V2};
use xv2_save_convert::marker::{
    has_any_marker_at_08, has_dual_magic, has_magic_at, looks_like_v2, make_marker,
    try_read_marker,
};
use xv2_save_convert::utils::{all_zero, append_zeros, hex_lower_string, sha1_hex};

const SAV: [u8; 4] = [0x23, 0x53, 0x41, 0x56];

fn with_marker(len: usize, flag: u8, version: u8) -> Vec<u8> {
    let mut d = vec![0u8; len];
    d[8..16].copy_from_slice(&[0x58, 0x56, 0x32, 0x53, 0x41, flag, 0xD6, version]);
    d
}

#[test]
fn dual_magic_present_at_both_offsets() {
    let mut d = vec![0u8; 0xA4];
    d[0x20..0x24].copy_from_slice(&SAV);
    d[0xA0..0xA4].copy_from_slice(&SAV);
    assert!(has_dual_magic(&d));
    d[0xA3] = 0;
    assert!(!has_dual_magic(&d));
}

#[test]
fn dual_magic_needs_length() {
    let mut d = vec![0u8; 0xA3];
    d[0x20..0x24].copy_from_slice(&SAV);
    d[0xA0..0xA3].copy_from_slice(&SAV[0..3]);
    assert!(!has_dual_magic(&d));
}

#[test]
fn magic_at_offsets() {
    let mut d = vec![0u8; 10];
    d[6..10].copy_from_slice(&SAV);
    assert!(has_magic_at(&d, 6));
    assert!(!has_magic_at(&d, 5));
    assert!(!has_magic_at(&d, 7));
    assert!(!has_magic_at(&d, 11));
    assert!(!has_magic_at(&d, usize::MAX));
}

#[test]
fn marker_bytes() {
    assert_eq!(make_marker(VER_V2, FLAG_NO_LEFTOVERS), [0x58, 0x56, 0x32, 0x53, 0x41, 0x54, 0xD6, 0x31]);
    assert_eq!(make_marker(7, 9), [0x58, 0x56, 0x32, 0x53, 0x41, 9, 0xD6, 7]);
}

#[test]
fn marker_read_back() {
    let d = with_marker(16, FLAG_NO_LEFTOVERS, VER_V2);
    assert_eq!(try_read_marker(&d), Some((VER_V2, FLAG_NO_LEFTOVERS)));
    assert!(has_any_marker_at_08(&d));
    let d = with_marker(20, FLAG_LEFTOVERS, VER_V2);
    assert_eq!(try_read_marker(&d), Some((VER_V2, FLAG_LEFTOVERS)));
}

#[test]
fn marker_rejected() {
    assert_eq!(try_read_marker(&with_marker(16, 0x41, VER_V2)), None);
    assert_eq!(try_read_marker(&with_marker(16, FLAG_LEFTOVERS, 0x32)), None);
    let mut d = with_marker(16, FLAG_LEFTOVERS, VER_V2);
    d[14] = 0;
    assert_eq!(try_read_marker(&d), None);
    assert!(!has_any_marker_at_08(&d));
    assert_eq!(try_read_marker(&with_marker(16, FLAG_LEFTOVERS, VER_V2)[..15]), None);
}

#[test]
fn v2_layout_checks() {
    let mut d = with_marker(EDITOR_SIZE, FLAG_NO_LEFTOVERS, VER_V2);
    assert!(!looks_like_v2(&d));
    d[EDITOR_SIZE - 0xA0..EDITOR_SIZE - 0x9C].copy_from_slice(&SAV);
    assert!(looks_like_v2(&d));
    d.push(0);
    assert!(!looks_like_v2(&d));
    let mut d = with_marker(EDITOR_SIZE, 0x00, VER_V2);
    d[EDITOR_SIZE - 0xA0..EDITOR_SIZE - 0x9C].copy_from_slice(&SAV);
    assert!(!looks_like_v2(&d));
}

#[test]
fn zero_detection() {
    assert!(all_zero(&[]));
    assert!(all_zero(&[0, 0, 0]));
    assert!(!all_zero(&[0, 0, 1]));
}

#[test]
fn zeros_appended() {
    assert_eq!(append_zeros(vec![1, 2], 3), vec![1, 2, 0, 0, 0]);
    assert_eq!(append_zeros(vec![5], 0), vec![5]);
    assert_eq!(append_zeros(Vec::new(), 2), vec![0, 0]);
}

#[test]
fn hex_encoding() {
    assert_eq!(hex_lower_string(&[0x00, 0x0f, 0xa0, 0xff]), "000fa0ff");
    assert_eq!(hex_lower_string(&[]), "");
}

#[test]
fn sha1_fingerprints() {
    assert_eq!(sha1_hex(b"hello world"), "2aae6c35c94fcfb415dbe95f408b9ce91ee846ed");
    assert_eq!(sha1_hex(b""), "da39a3ee5e6b4b0d3255bfef95601890afd80709");
    assert_eq!(sha1_hex(b"abc"), "a9993e364706816aba3e25717850c26c9cd0d89d");
}
