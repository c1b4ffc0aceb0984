//! The per-file scan pipeline: evaluate the two-stage matcher, hash the
//! contents on a match, and assemble the hit record. File enumeration and the
//! worker fan-out hand each file here independently; every hit is a
//! self-contained value, written once to the sink and never revisited.

use vstd::prelude::*;
use vstd::string::StringExecFns;
use crate::hash::{sha256_of, spec_hex_of, sha256_hex};
use crate::matcher::{
    spec_first_match, spec_evaluate, spec_pattern_id, MatchKind, MatchDescriptor,
};
use crate::patterns::PatternSet;
use crate::text::{spec_head_bytes, spec_head_text, spec_snippet, decode_head, make_snippet};

verus! {

/// One emitted detection record for a single file: the case label (the scan
/// root's textual form), the file's path and size, the pattern identifier,
/// a bounded context snippet (or the filename-match sentinel), the
/// hex-encoded SHA-256 of the full contents, the detection timestamp, and the
/// scanner version.
pub struct Hit {
    pub case: String,
    pub path: String,
    pub filesize: u64,
    pub pattern: String,
    pub snippet: String,
    pub sha256: String,
    pub timestamp: String,
    pub scanner_version: String,
}

/// The sentinel snippet on a filename-stage hit, where no content was read.
pub open spec fn spec_filename_sentinel() -> Seq<char> {
    "[FILENAME MATCH]"@
}

/// The scanner's version string, stamped on every hit.
pub open spec fn spec_scanner_version() -> Seq<char> {
    "0.1.0"@
}

/// The version identifier carried on every hit.
pub fn scanner_version() -> (r: String)
    ensures
        r@ == spec_scanner_version(),
{
    String::from_str("0.1.0")
}

/// Relies on chrono::Utc::now and chrono::DateTime::to_rfc3339: the current
/// UTC time in RFC 3339 form. The result depends on the clock, so nothing is
/// promised of it.
#[verifier::external_body]
fn now_rfc3339() -> String {
    chrono::Utc::now().to_rfc3339()
}

/// The scan outcome for one file, before hashing: the stage that matched, the
/// pattern identifier, and the snippet. The filename stage is decided first;
/// on a filename match the snippet is the fixed sentinel and the head text
/// plays no part. Only when no filename pattern matches are the content
/// patterns tried, against the decoded head bounded by `head_size`.
pub open spec fn spec_scan_outcome(
    filename_pats: Seq<Seq<char>>,
    content_pats: Seq<Seq<char>>,
    filename: Seq<char>,
    contents: Seq<u8>,
    head_size: int,
) -> Option<(MatchKind, Seq<char>, Seq<char>)> {
    match spec_evaluate(
        filename_pats,
        content_pats,
        filename,
        Some(spec_head_text(contents, head_size)),
    ) {
        Some((kind, id)) => match kind {
            MatchKind::Filename => Some((kind, id, spec_filename_sentinel())),
            MatchKind::Content => Some(
                (kind, id, spec_snippet(spec_head_text(contents, head_size))),
            ),
        },
        None => None,
    }
}

/// What a hit recorded for a file must hold: the fields demanded by the scan
/// outcome for these inputs, and the hex-encoded SHA-256 of the full
/// contents. The timestamp is deliberately left unconstrained.
pub open spec fn spec_hit_for(
    filename_pats: Seq<Seq<char>>,
    content_pats: Seq<Seq<char>>,
    case_id: Seq<char>,
    path: Seq<char>,
    filesize: u64,
    filename: Seq<char>,
    contents: Seq<u8>,
    head_size: int,
    version: Seq<char>,
    h: Hit,
) -> bool {
    match spec_scan_outcome(filename_pats, content_pats, filename, contents, head_size) {
        Some((kind, id, snippet)) => {
            &&& h.case@ == case_id
            &&& h.path@ == path
            &&& h.filesize == filesize
            &&& h.pattern@ == id
            &&& h.snippet@ == snippet
            &&& h.sha256@ == spec_hex_of(sha256_of(contents))
            &&& h.sha256@.len() == 64
            &&& h.scanner_version@ == version
        },
        None => false,
    }
}

/// Assemble a hit: every field comes from its argument, and the timestamp is
/// the current UTC time at the moment of construction.
pub fn build_hit(
    case_id: &str,
    path: &str,
    filesize: u64,
    descriptor: MatchDescriptor,
    snippet: String,
    sha256_hexdigest: String,
    version: &str,
) -> (h: Hit)
    ensures
        h.case@ == case_id@,
        h.path@ == path@,
        h.filesize == filesize,
        h.pattern@ == descriptor.pattern_id@,
        h.snippet@ == snippet@,
        h.sha256@ == sha256_hexdigest@,
        h.scanner_version@ == version@,
{
    Hit {
        case: case_id.to_owned(),
        path: path.to_owned(),
        filesize,
        pattern: descriptor.pattern_id,
        snippet,
        sha256: sha256_hexdigest,
        timestamp: now_rfc3339(),
        scanner_version: version.to_owned(),
    }
}

/// Scan one file given its full contents in memory: decode the bounded head,
/// evaluate the two-stage matcher, and on a match hash the full contents and
/// build the hit. Every field but the timestamp is a function of the inputs.
pub fn scan_bytes(
    ps: &PatternSet,
    case_id: &str,
    path: &str,
    filename: &str,
    filesize: u64,
    contents: &Vec<u8>,
    head_size: usize,
    version: &str,
) -> (r: Option<Hit>)
    ensures
        match r {
            Some(h) => spec_hit_for(
                ps.filename_texts(),
                ps.content_texts(),
                case_id@,
                path@,
                filesize,
                filename@,
                contents@,
                head_size as int,
                version@,
                h,
            ),
            None => spec_scan_outcome(
                ps.filename_texts(),
                ps.content_texts(),
                filename@,
                contents@,
                head_size as int,
            ) is None,
        },
{
    let head = decode_head(contents.as_slice(), head_size);
    match ps.evaluate(filename, Some(head.as_str())) {
        Some(descriptor) => {
            let snippet = match descriptor.kind {
                MatchKind::Filename => String::from_str("[FILENAME MATCH]"),
                MatchKind::Content => make_snippet(head.as_str()),
            };
            let sha256_hexdigest = sha256_hex(contents.as_slice());
            Some(build_hit(case_id, path, filesize, descriptor, snippet, sha256_hexdigest, version))
        },
        None => None,
    }
}

/// A filename match decides the outcome by itself: whatever the contents hold
/// and whatever head bound is in force, the outcome is filename-kind, carries
/// that pattern's identifier, and its snippet is the fixed sentinel.
pub proof fn lemma_filename_match_ignores_content(
    filename_pats: Seq<Seq<char>>,
    content_pats: Seq<Seq<char>>,
    filename: Seq<char>,
    contents1: Seq<u8>,
    contents2: Seq<u8>,
    head_size1: int,
    head_size2: int,
)
    requires
        spec_first_match(filename_pats, filename) is Some,
    ensures
        spec_scan_outcome(filename_pats, content_pats, filename, contents1, head_size1)
            == spec_scan_outcome(filename_pats, content_pats, filename, contents2, head_size2),
        ({
            let m = spec_scan_outcome(filename_pats, content_pats, filename, contents1, head_size1);
            spec_first_match(filename_pats, filename) matches Some(i) && m matches Some(
                (kind, id, snippet),
            ) && kind == MatchKind::Filename && id == spec_pattern_id(
                MatchKind::Filename,
                filename_pats[i],
            ) && snippet == spec_filename_sentinel()
        }),
{
}

/// Content patterns see only the first `head_size` bytes: bytes appended
/// beyond a full head never change the outcome.
pub proof fn lemma_content_beyond_head_ignored(
    filename_pats: Seq<Seq<char>>,
    content_pats: Seq<Seq<char>>,
    filename: Seq<char>,
    base: Seq<u8>,
    tail: Seq<u8>,
    head_size: int,
)
    requires
        0 <= head_size <= base.len(),
    ensures
        spec_scan_outcome(filename_pats, content_pats, filename, base + tail, head_size)
            == spec_scan_outcome(filename_pats, content_pats, filename, base, head_size),
{
    assert(spec_head_bytes(base + tail, head_size) =~= spec_head_bytes(base, head_size));
}

/// Idempotence: two hits recorded for the same file under the same pattern
/// set agree on path, pattern, hash, and size; only the timestamp may differ.
pub proof fn lemma_scan_idempotent(
    filename_pats: Seq<Seq<char>>,
    content_pats: Seq<Seq<char>>,
    case_id: Seq<char>,
    path: Seq<char>,
    filesize: u64,
    filename: Seq<char>,
    contents: Seq<u8>,
    head_size: int,
    version: Seq<char>,
    h1: Hit,
    h2: Hit,
)
    requires
        spec_hit_for(
            filename_pats,
            content_pats,
            case_id,
            path,
            filesize,
            filename,
            contents,
            head_size,
            version,
            h1,
        ),
        spec_hit_for(
            filename_pats,
            content_pats,
            case_id,
            path,
            filesize,
            filename,
            contents,
            head_size,
            version,
            h2,
        ),
    ensures
        h1.path@ == h2.path@,
        h1.pattern@ == h2.pattern@,
        h1.sha256@ == h2.sha256@,
        h1.filesize == h2.filesize,
{
}

/// Hash correctness: a hit's sha256 field is the hex encoding of the SHA-256
/// digest of the full file contents, whatever head bound the scan ran with.
pub proof fn lemma_hash_covers_full_contents(
    filename_pats: Seq<Seq<char>>,
    content_pats: Seq<Seq<char>>,
    case_id: Seq<char>,
    path: Seq<char>,
    filesize: u64,
    filename: Seq<char>,
    contents: Seq<u8>,
    head_size: int,
    version: Seq<char>,
    h: Hit,
)
    requires
        spec_hit_for(
            filename_pats,
            content_pats,
            case_id,
            path,
            filesize,
            filename,
            contents,
            head_size,
            version,
            h,
        ),
    ensures
        h.sha256@ == spec_hex_of(sha256_of(contents)),
        h.sha256@.len() == 64,
{
}

} // verus!
