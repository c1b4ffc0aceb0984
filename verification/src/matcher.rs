//! The two-stage matcher: filename patterns first, then content patterns over
//! the decoded head, each list evaluated in declared order with the first
//! match winning. A filename match short-circuits the content stage, so the
//! file's content need never be read for it.

use vstd::prelude::*;
use vstd::string::StringExecFns;
use crate::patterns::{regex_match, regex_is_match, PatternSet};

verus! {

/// The index of the first pattern in `pats` that matches `text`, if any.
pub open spec fn spec_first_match(pats: Seq<Seq<char>>, text: Seq<char>) -> Option<int>
    decreases pats.len(),
{
    if pats.len() == 0 {
        None
    } else if regex_match(pats[0], text) {
        Some(0int)
    } else {
        match spec_first_match(pats.drop_first(), text) {
            Some(i) => Some(i + 1),
            None => None,
        }
    }
}

/// What `spec_first_match` returns is a match, and nothing before it is:
/// a `Some(i)` means pattern `i` matches and no earlier pattern does, and a
/// `None` means no pattern matches.
pub proof fn lemma_first_match_sound(pats: Seq<Seq<char>>, text: Seq<char>)
    ensures
        match spec_first_match(pats, text) {
            Some(i) => 0 <= i < pats.len() && regex_match(pats[i], text) && (forall|j: int|
                0 <= j < i ==> !regex_match(pats[j], text)),
            None => forall|j: int| 0 <= j < pats.len() ==> !regex_match(pats[j], text),
        },
    decreases pats.len(),
{
    if pats.len() > 0 && !regex_match(pats[0], text) {
        lemma_first_match_sound(pats.drop_first(), text);
        assert(forall|j: int| 1 <= j < pats.len() ==> pats[j] == pats.drop_first()[j - 1]);
    }
}

/// A pattern that matches, with none matching before it, is the first match.
pub proof fn lemma_first_match_complete(pats: Seq<Seq<char>>, text: Seq<char>, i: int)
    requires
        0 <= i < pats.len(),
        regex_match(pats[i], text),
        forall|j: int| 0 <= j < i ==> !regex_match(pats[j], text),
    ensures
        spec_first_match(pats, text) == Some(i),
{
    lemma_first_match_sound(pats, text);
    match spec_first_match(pats, text) {
        Some(k) => {
            if k < i {
                assert(!regex_match(pats[k], text));
            } else if k > i {
                assert(!regex_match(pats[i], text));
            }
        },
        None => {
            assert(!regex_match(pats[i], text));
        },
    }
}

/// First match wins: when two patterns both match, the evaluation settles on
/// one no later than the earlier of the two.
pub proof fn lemma_first_match_wins(pats: Seq<Seq<char>>, text: Seq<char>, i: int, j: int)
    requires
        0 <= i < j < pats.len(),
        regex_match(pats[i], text),
        regex_match(pats[j], text),
    ensures
        spec_first_match(pats, text) matches Some(k) && k <= i,
{
    lemma_first_match_sound(pats, text);
}

/// Evaluate the patterns in order against `text`, returning the index of the
/// first match.
pub fn find_first_match(pats: &Vec<String>, text: &str) -> (r: Option<usize>)
    ensures
        match r {
            Some(i) => spec_first_match(pats@.map_values(|s: String| s@), text@) == Some(
                i as int,
            ),
            None => spec_first_match(pats@.map_values(|s: String| s@), text@) is None,
        },
{
    let ghost texts = pats@.map_values(|s: String| s@);
    let mut i: usize = 0;
    while i < pats.len()
        invariant
            i <= pats.len(),
            texts == pats@.map_values(|s: String| s@),
            forall|j: int| 0 <= j < i ==> !regex_match(texts[j], text@),
        decreases pats.len() - i,
    {
        if regex_is_match(pats[i].as_str(), text) {
            proof {
                lemma_first_match_complete(texts, text@, i as int);
            }
            return Some(i);
        }
        i = i + 1;
    }
    proof {
        lemma_first_match_sound(texts, text@);
    }
    None
}

/// Which heuristic stage produced a match.
#[derive(Clone, Copy, Debug, PartialEq, Eq, Structural)]
pub enum MatchKind {
    Filename,
    Content,
}

/// At most one of these is produced per file: the stage that matched and the
/// pattern identifier, `filename:` or `content:` followed by the pattern's
/// source text.
pub struct MatchDescriptor {
    pub kind: MatchKind,
    pub pattern_id: String,
}

/// The pattern identifier carried on a hit: the stage prefix followed by the
/// pattern's source text.
pub open spec fn spec_pattern_id(kind: MatchKind, pattern: Seq<char>) -> Seq<char> {
    match kind {
        MatchKind::Filename => "filename:"@ + pattern,
        MatchKind::Content => "content:"@ + pattern,
    }
}

/// The matcher's result on a file: filename patterns are tried first against
/// the bare filename; only when none matches (and a head could be read) are
/// the content patterns tried against the decoded head. `head` is `None` when
/// the head could not be read.
pub open spec fn spec_evaluate(
    filename_pats: Seq<Seq<char>>,
    content_pats: Seq<Seq<char>>,
    filename: Seq<char>,
    head: Option<Seq<char>>,
) -> Option<(MatchKind, Seq<char>)> {
    match spec_first_match(filename_pats, filename) {
        Some(i) => Some((MatchKind::Filename, spec_pattern_id(MatchKind::Filename, filename_pats[i]))),
        None => match head {
            Some(h) => match spec_first_match(content_pats, h) {
                Some(j) => Some((MatchKind::Content, spec_pattern_id(MatchKind::Content, content_pats[j]))),
                None => None,
            },
            None => None,
        },
    }
}

/// The view of an optional head string.
pub open spec fn spec_head_view(head: Option<&str>) -> Option<Seq<char>> {
    match head {
        Some(h) => Some(h@),
        None => None,
    }
}

/// Whether a descriptor is the one `spec_evaluate` calls for.
pub open spec fn descriptor_matches(r: Option<MatchDescriptor>, m: Option<(MatchKind, Seq<char>)>) -> bool {
    match (r, m) {
        (Some(d), Some((kind, id))) => d.kind == kind && d.pattern_id@ == id,
        (None, None) => true,
        _ => false,
    }
}

impl PatternSet {
    /// Evaluate both stages against a filename and an optionally-read head:
    /// filename patterns first, in order; on the first filename match the
    /// content stage is skipped entirely; otherwise the content patterns are
    /// tried, in order, against the head if one was read.
    pub fn evaluate(&self, filename: &str, head: Option<&str>) -> (r: Option<MatchDescriptor>)
        ensures
            descriptor_matches(
                r,
                spec_evaluate(
                    self.filename_texts(),
                    self.content_texts(),
                    filename@,
                    spec_head_view(head),
                ),
            ),
    {
        match find_first_match(&self.filename_patterns, filename) {
            Some(i) => {
                proof {
                    lemma_first_match_sound(self.filename_texts(), filename@);
                }
                let mut id = String::from_str("filename:");
                id.append(self.filename_patterns[i].as_str());
                Some(MatchDescriptor { kind: MatchKind::Filename, pattern_id: id })
            },
            None => match head {
                Some(h) => match find_first_match(&self.content_patterns, h) {
                    Some(j) => {
                        proof {
                            lemma_first_match_sound(self.content_texts(), h@);
                        }
                        let mut id = String::from_str("content:");
                        id.append(self.content_patterns[j].as_str());
                        Some(MatchDescriptor { kind: MatchKind::Content, pattern_id: id })
                    },
                    None => None,
                },
                None => None,
            },
        }
    }
}

} // verus!
