//! The fixed heuristic pattern set: two ordered lists of regex sources, one
//! for filenames and one for decoded file heads. Evaluation order is the
//! declared order and is significant: the first matching pattern wins.

use vstd::prelude::*;
use vstd::string::StringExecFns;

verus! {

/// Whether the regex compiled from `pattern` matches somewhere in `text`,
/// as the regex crate decides it; false when the pattern does not compile.
/// Determined by the two strings alone.
pub uninterp spec fn regex_match(pattern: Seq<char>, text: Seq<char>) -> bool;

/// Relies on regex::Regex::new and regex::Regex::is_match: whether the regex
/// compiled from `pattern` matches somewhere in `text`; false when the
/// pattern does not compile. The pattern is compiled on each call.
#[verifier::external_body]
pub(crate) fn regex_is_match(pattern: &str, text: &str) -> (r: bool)
    ensures
        r == regex_match(pattern@, text@),
{
    match regex::Regex::new(pattern) {
        Ok(re) => re.is_match(text),
        Err(_) => false,
    }
}

/// The fixed filename heuristics, in evaluation order: case-insensitive names
/// associated with wallet files and key material.
pub open spec fn spec_filename_patterns() -> Seq<Seq<char>> {
    seq![
        "(?i)wallet"@,
        "(?i)keystore"@,
        "(?i)mnemonic"@,
        "(?i)seed"@,
        "(?i)private.*key"@,
        "(?i)ethereum"@,
        "(?i)btc"@,
    ]
}

/// The fixed content heuristics, in evaluation order: keystore-like JSON keys,
/// a 64-hex-character run, and a 12-to-25 lowercase-word run (mnemonic
/// phrases).
pub open spec fn spec_content_patterns() -> Seq<Seq<char>> {
    seq![
        "\"crypto\"\\s*:"@,
        "\"address\"\\s*:"@,
        "[a-f0-9]{64}"@,
        "([a-z]+(\\s+[a-z]+){11,24})"@,
    ]
}

/// The two ordered pattern lists, shared read-only by every worker.
pub struct PatternSet {
    pub filename_patterns: Vec<String>,
    pub content_patterns: Vec<String>,
}

impl PatternSet {
    /// The filename pattern sources, in evaluation order.
    pub open spec fn filename_texts(&self) -> Seq<Seq<char>> {
        self.filename_patterns@.map_values(|s: String| s@)
    }

    /// The content pattern sources, in evaluation order.
    pub open spec fn content_texts(&self) -> Seq<Seq<char>> {
        self.content_patterns@.map_values(|s: String| s@)
    }

    /// A well-formed set holds exactly the fixed heuristics, in order.
    pub open spec fn wf(&self) -> bool {
        &&& self.filename_texts() == spec_filename_patterns()
        &&& self.content_texts() == spec_content_patterns()
    }

    /// The fixed heuristic set, in its declared evaluation order.
    pub fn new() -> (r: Self)
        ensures
            r.wf(),
    {
        let mut filename_patterns: Vec<String> = Vec::new();
        filename_patterns.push(String::from_str("(?i)wallet"));
        filename_patterns.push(String::from_str("(?i)keystore"));
        filename_patterns.push(String::from_str("(?i)mnemonic"));
        filename_patterns.push(String::from_str("(?i)seed"));
        filename_patterns.push(String::from_str("(?i)private.*key"));
        filename_patterns.push(String::from_str("(?i)ethereum"));
        filename_patterns.push(String::from_str("(?i)btc"));
        let mut content_patterns: Vec<String> = Vec::new();
        content_patterns.push(String::from_str("\"crypto\"\\s*:"));
        content_patterns.push(String::from_str("\"address\"\\s*:"));
        content_patterns.push(String::from_str("[a-f0-9]{64}"));
        content_patterns.push(String::from_str("([a-z]+(\\s+[a-z]+){11,24})"));
        let r = PatternSet { filename_patterns, content_patterns };
        proof {
            assert(r.filename_texts() =~= spec_filename_patterns());
            assert(r.content_texts() =~= spec_content_patterns());
        }
        r
    }
}

} // verus!
