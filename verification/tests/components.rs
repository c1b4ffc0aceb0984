// Component-level checks: the hasher, the pattern set, the head decoder, the
// snippet transform, and hit assembly.

use rustscanner::engine::{build_hit, scanner_version};
use rustscanner::hash::{sha256_hex, Sha256Hasher};
use rustscanner::matcher::{MatchDescriptor, MatchKind};
use rustscanner::patterns::PatternSet;
use rustscanner::text::{decode_head, make_snippet};
use sha2::{Digest, Sha256};

#[test]
fn sha256_hex_matches_known_digests() {
    assert_eq!(
        sha256_hex(b"abc"),
        "ba7816bf8f01cfea414140de5dae2223b00361a396177a9cb410ff61f20015ad"
    );
    assert_eq!(
        sha256_hex(b""),
        "e3b0c44298fc1c149afbf4c8996fb92427ae41e4649b934ca495991b7852b855"
    );
}

#[test]
fn incremental_hashing_equals_one_shot() {
    let mut h = Sha256Hasher::new();
    h.update(b"ab");
    h.update(b"");
    h.update(b"c");
    assert_eq!(
        h.finalize_hex(),
        "ba7816bf8f01cfea414140de5dae2223b00361a396177a9cb410ff61f20015ad"
    );
    // A chunked run over a buffer longer than one 64 KiB chunk agrees with
    // the sha2 crate run directly.
    let big = vec![7u8; 200_000];
    assert_eq!(sha256_hex(&big), hex::encode(Sha256::digest(&big)));
}

#[test]
fn pattern_set_holds_the_fixed_lists_in_order() {
    let ps = PatternSet::new();
    assert_eq!(
        ps.filename_patterns,
        vec![
            "(?i)wallet",
            "(?i)keystore",
            "(?i)mnemonic",
            "(?i)seed",
            "(?i)private.*key",
            "(?i)ethereum",
            "(?i)btc",
        ]
    );
    assert_eq!(
        ps.content_patterns,
        vec![
            "\"crypto\"\\s*:",
            "\"address\"\\s*:",
            "[a-f0-9]{64}",
            "([a-z]+(\\s+[a-z]+){11,24})",
        ]
    );
}

#[test]
fn filename_stage_needs_no_head() {
    let ps = PatternSet::new();
    let d = ps.evaluate("MyWallet.bak", None).expect("a match");
    assert_eq!(d.kind, MatchKind::Filename);
    assert_eq!(d.pattern_id, "filename:(?i)wallet");
}

#[test]
fn filename_evaluation_order_is_the_declared_one() {
    let ps = PatternSet::new();
    // Matches both the wallet and the btc heuristics; the earlier wins.
    let d = ps.evaluate("btc-wallet", None).expect("a match");
    assert_eq!(d.pattern_id, "filename:(?i)wallet");
}

#[test]
fn no_filename_match_and_unreadable_head_is_no_match() {
    let ps = PatternSet::new();
    assert!(ps.evaluate("notes.txt", None).is_none());
}

#[test]
fn content_stage_runs_only_without_a_filename_match() {
    let ps = PatternSet::new();
    let d = ps
        .evaluate("notes.txt", Some("\"crypto\": {}"))
        .expect("a match");
    assert_eq!(d.kind, MatchKind::Content);
    assert_eq!(d.pattern_id, "content:\"crypto\"\\s*:");
}

#[test]
fn decode_head_bounds_the_bytes_and_never_fails() {
    assert_eq!(decode_head(b"hello world", 5), "hello");
    assert_eq!(decode_head(b"hi", 5), "hi");
    assert_eq!(decode_head(b"", 5), "");
    // Invalid UTF-8 decodes permissively to replacement characters.
    let decoded = decode_head(&[b'a', 0xff, 0xfe, b'b'], 10);
    assert_eq!(decoded, "a\u{fffd}\u{fffd}b");
}

#[test]
fn snippet_collapses_newlines_and_truncates() {
    assert_eq!(make_snippet("a\nb\nc"), "a b c");
    assert_eq!(make_snippet(""), "");
    let long = "y\n".repeat(300);
    let snippet = make_snippet(&long);
    assert_eq!(snippet.chars().count(), 200);
    assert_eq!(snippet, "y ".repeat(100));
}

#[test]
fn build_hit_carries_its_arguments_and_a_parseable_timestamp() {
    let d = MatchDescriptor {
        kind: MatchKind::Filename,
        pattern_id: String::from("filename:(?i)seed"),
    };
    let h = build_hit(
        "/case",
        "/case/seed.txt",
        17,
        d,
        String::from("[FILENAME MATCH]"),
        String::from("00").repeat(32),
        "0.1.0",
    );
    assert_eq!(h.case, "/case");
    assert_eq!(h.path, "/case/seed.txt");
    assert_eq!(h.filesize, 17);
    assert_eq!(h.pattern, "filename:(?i)seed");
    assert_eq!(h.snippet, "[FILENAME MATCH]");
    assert_eq!(h.sha256.len(), 64);
    assert_eq!(h.scanner_version, "0.1.0");
    // The detection timestamp is RFC 3339.
    assert!(chrono::DateTime::parse_from_rfc3339(&h.timestamp).is_ok());
}

#[test]
fn scanner_version_is_stable() {
    assert_eq!(scanner_version(), "0.1.0");
}
