use cubex_launcher::digest::{digest_matches, verify_sha1};

#[test]
fn sha1_of_known_inputs() {
    assert!(verify_sha1(b"abc", "a9993e364706816aba3e25717850c26c9cd0d89d"));
    assert!(verify_sha1(b"", "da39a3ee5e6b4b0d3255bfef95601890afd80709"));
    assert!(!verify_sha1(b"abd", "a9993e364706816aba3e25717850c26c9cd0d89d"));
}

#[test]
fn sha1_comparison_is_lower_case() {
    assert!(!verify_sha1(b"abc", "A9993E364706816ABA3E25717850C26C9CD0D89D"));
}

#[test]
fn digest_text_is_lower_hex() {
    assert!(digest_matches(&[0x00, 0x0f, 0xa0, 0xff], "000fa0ff"));
    assert!(!digest_matches(&[0x00, 0x0f, 0xa0, 0xff], "000FA0FF"));
    assert!(digest_matches(&[], ""));
}
