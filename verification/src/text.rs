//! Head text handling: permissive decoding of a bounded prefix of a file's
//! bytes, and the snippet transform (newlines collapsed, truncated) applied to
//! a matched head for display.

use vstd::prelude::*;
use vstd::slice::slice_subrange;
use vstd::std_specs::iter::IteratorSpec;

verus! {

/// The permissive text decoding of a byte string, as String::from_utf8_lossy
/// produces it: invalid sequences replaced, never failing. Determined by the
/// bytes alone.
pub uninterp spec fn lossy_decode(bytes: Seq<u8>) -> Seq<char>;

/// Relies on String::from_utf8_lossy: the permissive decoding of the bytes.
#[verifier::external_body]
fn utf8_lossy(bytes: &[u8]) -> (r: String)
    ensures
        r@ == lossy_decode(bytes@),
{
    String::from_utf8_lossy(bytes).into_owned()
}

/// Relies on String::push: appends one character.
#[verifier::external_body]
fn push_char(s: &mut String, c: char)
    ensures
        final(s)@ == old(s)@ + seq![c],
{
    s.push(c);
}

/// The head of the contents: the first `head_size` bytes, or all of them if
/// the contents are shorter.
pub open spec fn spec_head_bytes(bytes: Seq<u8>, head_size: int) -> Seq<u8> {
    if bytes.len() <= head_size {
        bytes
    } else {
        bytes.take(head_size)
    }
}

/// The decoded text of the bounded head.
pub open spec fn spec_head_text(bytes: Seq<u8>, head_size: int) -> Seq<char> {
    lossy_decode(spec_head_bytes(bytes, head_size))
}

/// Decode at most the first `head_size` bytes of the contents as permissive
/// text. Bytes beyond the bound cannot influence the result.
pub fn decode_head(bytes: &[u8], head_size: usize) -> (r: String)
    ensures
        r@ == spec_head_text(bytes@, head_size as int),
{
    let n = if bytes.len() <= head_size {
        bytes.len()
    } else {
        head_size
    };
    let head = slice_subrange(bytes, 0, n);
    proof {
        assert(head@ =~= spec_head_bytes(bytes@, head_size as int));
    }
    utf8_lossy(head)
}

/// Newlines collapsed to spaces, every other character kept.
pub open spec fn spec_collapse(s: Seq<char>) -> Seq<char> {
    s.map_values(|c: char| if c == '\n' { ' ' } else { c })
}

/// The snippet carried on a content hit: the decoded head with newlines
/// collapsed to spaces, truncated to at most 200 characters.
pub open spec fn spec_snippet(head: Seq<char>) -> Seq<char> {
    if head.len() <= 200 {
        spec_collapse(head)
    } else {
        spec_collapse(head).take(200)
    }
}

/// Build the display snippet of a decoded head: newlines become spaces and at
/// most the first 200 characters are kept.
pub fn make_snippet(head: &str) -> (r: String)
    ensures
        r@ == spec_snippet(head@),
{
    broadcast use vstd::string::axiom_spec_iter, vstd::string::next_postcondition;

    let mut out = String::new();
    let mut count: usize = 0;
    let mut exhausted = false;
    let mut it = head.chars();
    while count < 200 && !exhausted
        invariant
            count == out@.len(),
            out@.len() <= 200,
            out@.len() <= head@.len(),
            !exhausted ==> it.remaining() =~= head@.skip(out@.len() as int),
            exhausted ==> out@.len() == head@.len(),
            out@ =~= spec_collapse(head@.take(out@.len() as int)),
        decreases head@.len() - out@.len() + (if exhausted {
            0int
        } else {
            1int
        }),
    {
        match it.next() {
            Some(c) => {
                proof {
                    let n = out@.len() as int;
                    assert(head@.skip(n)[0] == head@[n]);
                    assert(head@.skip(n).drop_first() =~= head@.skip(n + 1));
                    assert(head@.take(n + 1) =~= head@.take(n).push(head@[n]));
                    assert(spec_collapse(head@.take(n + 1)) =~= spec_collapse(
                        head@.take(n),
                    ).push(if head@[n] == '\n' {
                        ' '
                    } else {
                        head@[n]
                    }));
                }
                push_char(&mut out, if c == '\n' {
                    ' '
                } else {
                    c
                });
                count = count + 1;
            },
            None => {
                exhausted = true;
            },
        }
    }
    proof {
        if exhausted {
            assert(head@.take(head@.len() as int) =~= head@);
        } else {
            assert(out@.len() == 200);
            if head@.len() <= 200 {
                assert(head@.take(head@.len() as int) =~= head@);
            } else {
                assert(spec_collapse(head@).take(200) =~= spec_collapse(head@.take(200)));
            }
        }
    }
    out
}

} // verus!
