// End-to-end scans over in-memory file contents: the two-stage policy, the
// pattern identifiers, the snippet, and the hash field.

use rustscanner::engine::{scan_bytes, Hit};
use rustscanner::patterns::PatternSet;
use sha2::{Digest, Sha256};

fn scan(name: &str, contents: &[u8], head_size: usize) -> Option<Hit> {
    let ps = PatternSet::new();
    scan_bytes(
        &ps,
        "/case",
        &format!("/case/{}", name),
        name,
        contents.len() as u64,
        &contents.to_vec(),
        head_size,
        "0.1.0",
    )
}

#[test]
fn wallet_dat_binary_is_a_filename_hit() {
    let contents: Vec<u8> = vec![0u8, 159, 146, 150, 255, 1, 2, 3];
    let hit = scan("wallet.dat", &contents, 200_000).expect("one hit");
    assert_eq!(hit.pattern, "filename:(?i)wallet");
    assert_eq!(hit.snippet, "[FILENAME MATCH]");
    assert_eq!(hit.case, "/case");
    assert_eq!(hit.path, "/case/wallet.dat");
    assert_eq!(hit.filesize, contents.len() as u64);
    assert_eq!(hit.scanner_version, "0.1.0");
}

#[test]
fn filename_match_ignores_content_that_would_also_match() {
    // The head holds a content-pattern match, but the filename stage wins and
    // the snippet stays the sentinel.
    let contents = b"\"address\": \"0xabc\"".to_vec();
    let hit = scan("keystore.json", &contents, 200_000).expect("one hit");
    assert_eq!(hit.pattern, "filename:(?i)keystore");
    assert_eq!(hit.snippet, "[FILENAME MATCH]");
}

#[test]
fn address_key_in_head_is_a_content_hit() {
    let contents = b"notes\n\"address\": \"0xabc\"\nmore".to_vec();
    let hit = scan("notes.txt", &contents, 200_000).expect("one hit");
    assert!(hit.pattern.starts_with("content:"));
    assert_eq!(hit.pattern, "content:\"address\"\\s*:");
    // The snippet is the head with newlines collapsed to spaces.
    assert_eq!(hit.snippet, "notes \"address\": \"0xabc\" more");
}

#[test]
fn first_content_pattern_wins_over_a_later_one() {
    // Matches both the "crypto" and the "address" heuristics; the earlier one
    // in the declared order is reported.
    let contents = b"{\"crypto\": {}, \"address\": \"0xabc\"}".to_vec();
    let hit = scan("notes.txt", &contents, 200_000).expect("one hit");
    assert_eq!(hit.pattern, "content:\"crypto\"\\s*:");
}

#[test]
fn hex_run_and_word_run_heuristics_match() {
    let hexrun = " ".repeat(10) + &"a1".repeat(32);
    let hit = scan("notes.txt", hexrun.as_bytes(), 200_000).expect("one hit");
    assert_eq!(hit.pattern, "content:[a-f0-9]{64}");

    let mnemonic = "abandon ability able about above absent absorb abstract absurd abuse access accident";
    let hit = scan("phrase.txt", mnemonic.as_bytes(), 200_000).expect("one hit");
    assert_eq!(hit.pattern, "content:([a-z]+(\\s+[a-z]+){11,24})");
}

#[test]
fn empty_file_with_plain_name_produces_no_hit() {
    assert!(scan("notes.txt", b"", 200_000).is_none());
}

#[test]
fn plain_file_produces_no_hit() {
    assert!(scan("report.txt", b"Nothing of interest here.", 200_000).is_none());
}

#[test]
fn content_match_beyond_head_boundary_produces_no_hit() {
    // The triggering bytes sit entirely after the head bound.
    let mut contents = vec![b'.'; 100];
    contents.extend_from_slice(b"\"address\": \"0xabc\"");
    assert!(scan("notes.txt", &contents, 100).is_none());
}

#[test]
fn content_match_inside_head_boundary_is_found() {
    let mut contents = b"\"address\": \"0xabc\"".to_vec();
    contents.extend(vec![b'.'; 100]);
    let hit = scan("notes.txt", &contents, 100).expect("one hit");
    assert_eq!(hit.pattern, "content:\"address\"\\s*:");
}

#[test]
fn hash_covers_the_full_file_not_just_the_head() {
    let mut contents = b"\"crypto\": ".to_vec();
    contents.extend(vec![b'z'; 5000]);
    let hit = scan("notes.txt", &contents, 64).expect("one hit");
    let expected = hex::encode(Sha256::digest(&contents));
    assert_eq!(hit.sha256, expected);
    assert_eq!(hit.filesize, contents.len() as u64);
}

#[test]
fn scanning_twice_yields_identical_fields_except_timestamp() {
    let contents = b"\"address\": \"0xabc\"".to_vec();
    let h1 = scan("notes.txt", &contents, 200_000).expect("one hit");
    let h2 = scan("notes.txt", &contents, 200_000).expect("one hit");
    assert_eq!(h1.path, h2.path);
    assert_eq!(h1.pattern, h2.pattern);
    assert_eq!(h1.sha256, h2.sha256);
    assert_eq!(h1.filesize, h2.filesize);
    assert_eq!(h1.snippet, h2.snippet);
}

#[test]
fn snippet_is_collapsed_and_truncated_to_200_chars() {
    let mut text = String::from("\"crypto\":\nline two\n");
    text.push_str(&"x".repeat(500));
    let hit = scan("notes.txt", text.as_bytes(), 200_000).expect("one hit");
    assert_eq!(hit.snippet.chars().count(), 200);
    assert!(!hit.snippet.contains('\n'));
    assert!(hit.snippet.starts_with("\"crypto\": line two "));
}
