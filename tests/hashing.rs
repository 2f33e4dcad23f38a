use mcman::checksum::{digest_hex, eq_ignore_ascii_case, to_hex, verify_checksum, ChecksumTask, Murmur2};
use mcman::hash::{HashFormat, Hashes};

#[test]
fn best_hash_prefers_sha1_over_md5_in_either_order() {
    let mut a = Hashes::new();
    a.insert(HashFormat::Sha1, "X".to_string());
    a.insert(HashFormat::Md5, "Y".to_string());
    let mut b = Hashes::new();
    b.insert(HashFormat::Md5, "Y".to_string());
    b.insert(HashFormat::Sha1, "X".to_string());
    assert_eq!(a.get_best_hash(), Some((HashFormat::Sha1, "X".to_string())));
    assert_eq!(b.get_best_hash(), Some((HashFormat::Sha1, "X".to_string())));
}

#[test]
fn best_hash_follows_the_full_preference_order() {
    let mut h = Hashes::new();
    h.insert(HashFormat::Murmur2, "m".to_string());
    assert_eq!(h.get_best_hash(), Some((HashFormat::Murmur2, "m".to_string())));
    h.insert(HashFormat::Md5, "5".to_string());
    assert_eq!(h.get_best_hash().unwrap().0, HashFormat::Md5);
    h.insert(HashFormat::Sha256, "256".to_string());
    assert_eq!(h.get_best_hash().unwrap().0, HashFormat::Sha256);
    h.insert(HashFormat::Sha384, "384".to_string());
    assert_eq!(h.get_best_hash().unwrap().0, HashFormat::Sha384);
    h.insert(HashFormat::Sha512, "512".to_string());
    assert_eq!(h.get_best_hash(), Some((HashFormat::Sha512, "512".to_string())));
}

#[test]
fn best_hash_of_empty_or_unranked_set_is_none() {
    assert_eq!(Hashes::new().get_best_hash(), None);
    let h = Hashes::new_single(HashFormat::Sha512_256, "z".to_string());
    assert_eq!(h.get_best_hash(), None);
}

#[test]
fn insert_replaces_the_earlier_digest() {
    let mut h = Hashes::new_single(HashFormat::Sha1, "old".to_string());
    h.insert(HashFormat::Sha1, "new".to_string());
    assert_eq!(h.get(HashFormat::Sha1), Some(&"new".to_string()));
    assert_eq!(h.get(HashFormat::Md5), None);
    assert!(!h.is_empty());
    assert!(Hashes::new().is_empty());
}

#[test]
fn format_names() {
    assert_eq!(HashFormat::Sha512_256.as_str_packwiz(), "sha512-256");
    assert_eq!(HashFormat::Murmur2.as_str_packwiz(), "murmur2");
    assert_eq!(HashFormat::Sha256.as_str_unsup(), "SHA-2 256");
    assert_eq!(HashFormat::Murmur2.as_str_unsup(), "Murmur2-CF");
}

#[test]
fn murmur2_ignores_whitespace() {
    let a = digest_hex(HashFormat::Murmur2, b"ABC");
    let b = digest_hex(HashFormat::Murmur2, b"A\tB\nC");
    let c = digest_hex(HashFormat::Murmur2, b" A\r\nB C ");
    assert_eq!(a, b);
    assert_eq!(a, c);
    assert_eq!(a.len(), 8);
    assert_ne!(a, digest_hex(HashFormat::Murmur2, b"ABD"));
}

#[test]
fn murmur2_streaming_matches_one_shot() {
    let mut m = Murmur2::new();
    m.update(b"A\t");
    m.update(b"B\n");
    m.update(b"C");
    assert_eq!(to_hex(&m.finalize()), digest_hex(HashFormat::Murmur2, b"ABC"));
    let expected = murmur2::murmur2(b"ABC", 1).to_be_bytes();
    assert_eq!(m.finalize(), expected.to_vec());
    m.reset();
    assert_eq!(to_hex(&m.finalize()), digest_hex(HashFormat::Murmur2, b""));
}

#[test]
fn known_digests() {
    assert_eq!(digest_hex(HashFormat::Sha1, b"abc"), "a9993e364706816aba3e25717850c26c9cd0d89d");
    assert_eq!(
        digest_hex(HashFormat::Sha256, b"abc"),
        "ba7816bf8f01cfea414140de5dae2223b00361a396177a9cb410ff61f20015ad"
    );
    assert_eq!(digest_hex(HashFormat::Md5, b"abc"), "900150983cd24fb0d6963f7d28e17f72");
    assert_eq!(
        digest_hex(HashFormat::Sha384, b"abc"),
        "cb00753f45a35e8bb5a03d699ac65007272c32ab0eded1631a8b605a43ff5bed8086072ba1e7cc2358baeca134c825a7"
    );
    assert_eq!(digest_hex(HashFormat::Sha512, b"abc").len(), 128);
    assert!(digest_hex(HashFormat::Sha512, b"abc").starts_with("ddaf35a193617aba"));
    assert!(digest_hex(HashFormat::Sha512_256, b"abc").starts_with("53048e2681941ef9"));
}

#[test]
fn hex_rendering() {
    assert_eq!(to_hex(&[0x00, 0x0f, 0xa0, 0xff]), "000fa0ff");
    assert_eq!(to_hex(&[]), "");
}

#[test]
fn checksum_mismatch_is_reported() {
    let hashes = Hashes::new_single(HashFormat::Sha256, "00".repeat(32));
    let err = verify_checksum("server.jar".to_string(), &hashes, b"abc").unwrap_err();
    assert_eq!(err.path, "server.jar");
    assert_eq!(err.format, HashFormat::Sha256);
    assert_eq!(err.expected, "00".repeat(32));
    assert_eq!(err.computed, "ba7816bf8f01cfea414140de5dae2223b00361a396177a9cb410ff61f20015ad");
    assert!(err.message().contains("server.jar"));
}

#[test]
fn checksum_match_ignores_letter_case() {
    let hashes = Hashes::new_single(
        HashFormat::Sha256,
        "BA7816BF8F01CFEA414140DE5DAE2223B00361A396177A9CB410FF61F20015AD".to_string(),
    );
    assert!(verify_checksum("f".to_string(), &hashes, b"abc").is_ok());
    assert!(eq_ignore_ascii_case("AbC", "aBc"));
    assert!(!eq_ignore_ascii_case("abc", "abd"));
    assert!(!eq_ignore_ascii_case("abc", "ab"));
}

#[test]
fn checksum_checks_only_the_best_hash() {
    let mut hashes = Hashes::new();
    hashes.insert(HashFormat::Md5, "wrong".to_string());
    hashes.insert(HashFormat::Sha1, "a9993e364706816aba3e25717850c26c9cd0d89d".to_string());
    let task = ChecksumTask { path: "p".to_string(), hashes };
    assert!(task.run(b"abc").is_ok());
}

#[test]
fn checksum_without_hashes_passes() {
    assert!(verify_checksum("f".to_string(), &Hashes::new(), b"anything").is_ok());
}
