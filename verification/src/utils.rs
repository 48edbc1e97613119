//! Helpers for the fixed-size, zero-terminated UTF-16 names that the graphics
//! stack reports for adapters and outputs.

use vstd::prelude::*;
use vstd::slice::slice_subrange;

verus! {

/// Index of the first zero code unit of `content`, or its length if it holds none.
pub open spec fn terminal_idx(content: Seq<u16>) -> int
    decreases content.len(),
{
    if content.len() == 0 || content[0] == 0 {
        0
    } else {
        1 + terminal_idx(content.drop_first())
    }
}

/// `terminal_idx` is the one position that has no zero before it and either
/// ends the sequence or holds a zero.
pub proof fn lemma_terminal_idx(content: Seq<u16>)
    ensures
        0 <= terminal_idx(content) <= content.len(),
        forall|j: int| 0 <= j < terminal_idx(content) ==> content[j] != 0,
        terminal_idx(content) < content.len() ==> content[terminal_idx(content)] == 0,
    decreases content.len(),
{
    if content.len() == 0 || content[0] == 0 {
    } else {
        let rest = content.drop_first();
        lemma_terminal_idx(rest);
        assert forall|j: int| 0 <= j < terminal_idx(content) implies content[j] != 0 by {
            if j > 0 {
                assert(content[j] == rest[j - 1]);
            }
        }
        if terminal_idx(content) < content.len() {
            assert(content[terminal_idx(content)] == rest[terminal_idx(rest)]);
        }
    }
}

/// A position with no zero before it, which ends the sequence or holds a zero,
/// is `terminal_idx`.
pub proof fn lemma_terminal_idx_unique(content: Seq<u16>, i: int)
    requires
        0 <= i <= content.len(),
        forall|j: int| 0 <= j < i ==> content[j] != 0,
        i < content.len() ==> content[i] == 0,
    ensures
        terminal_idx(content) == i,
{
    lemma_terminal_idx(content);
    let t = terminal_idx(content);
    if t < i {
        assert(content[t] != 0);
    } else if i < t {
        assert(content[i] != 0);
    }
}

/// Finds where a zero-terminated name ends: the index of the first zero, or
/// the length of `content` when no terminator is present.
pub fn find_terminal_idx(content: &[u16]) -> (idx: usize)
    ensures
        idx == terminal_idx(content@),
        idx <= content@.len(),
        forall|j: int| 0 <= j < idx ==> content@[j] != 0,
        idx < content@.len() ==> content@[idx as int] == 0,
{
    let mut i: usize = 0;
    while i < content.len()
        invariant
            i <= content@.len(),
            forall|j: int| 0 <= j < i ==> content@[j] != 0,
        decreases content@.len() - i,
    {
        if content[i] == 0 {
            proof {
                lemma_terminal_idx_unique(content@, i as int);
            }
            return i;
        }
        i += 1;
    }
    proof {
        lemma_terminal_idx_unique(content@, i as int);
    }
    i
}

/// The text that a sequence of UTF-16 code units stands for when every
/// ill-formed unit is replaced by U+FFFD.
pub uninterp spec fn utf16_lossy(units: Seq<u16>) -> Seq<char>;

/// `String::from_utf16_lossy` of the standard library: decodes UTF-16 and
/// puts U+FFFD in place of what cannot be decoded. The result depends on the
/// code units alone.
#[verifier::external_body]
fn from_utf16_lossy(units: &[u16]) -> (text: String)
    ensures
        text@ == utf16_lossy(units@),
{
    String::from_utf16_lossy(units)
}

/// Converts a zero-terminated UTF-16 name into a string: what stands before
/// the first zero is decoded, the rest is ignored.
pub fn convert_u16_to_string(data: &[u16]) -> (text: String)
    ensures
        text@ == utf16_lossy(data@.subrange(0, terminal_idx(data@))),
{
    let terminal_idx = find_terminal_idx(data);
    from_utf16_lossy(slice_subrange(data, 0, terminal_idx))
}

} // verus!
