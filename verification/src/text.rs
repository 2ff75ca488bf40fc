//! Word and byte counting for document content.
//!
//! A word is a maximal run of non-whitespace characters; the byte count is
//! the raw UTF-8 length of the content. Both are recomputed whenever a
//! document body is saved.
use vstd::prelude::*;

verus! {

use vstd::string::StringSliceAdditionalSpecFns;
use vstd::string::StrSliceExecFns;

/// Whitespace as Rust's `char::is_whitespace` defines it: the Unicode
/// `White_Space` property.
pub open spec fn is_wspace(c: char) -> bool {
    c == ' ' || c == '\t' || c == '\n' || c == '\r' || c == '\u{000B}' || c == '\u{000C}'
        || c == '\u{0085}' || c == '\u{00A0}' || c == '\u{1680}' || c == '\u{2000}'
        || c == '\u{2001}' || c == '\u{2002}' || c == '\u{2003}' || c == '\u{2004}'
        || c == '\u{2005}' || c == '\u{2006}' || c == '\u{2007}' || c == '\u{2008}'
        || c == '\u{2009}' || c == '\u{200A}' || c == '\u{2028}' || c == '\u{2029}'
        || c == '\u{202F}' || c == '\u{205F}' || c == '\u{3000}'
}

/// Number of maximal non-whitespace runs in `s[i..]`, given whether position
/// `i` is already inside such a run.
pub open spec fn word_count_from(s: Seq<char>, i: int, in_word: bool) -> nat
    decreases s.len() - i when 0 <= i <= s.len()
{
    if i >= s.len() {
        0
    } else if is_wspace(s[i]) {
        word_count_from(s, i + 1, false)
    } else if in_word {
        word_count_from(s, i + 1, true)
    } else {
        1 + word_count_from(s, i + 1, true)
    }
}

/// Number of whitespace-delimited words in `s`.
pub open spec fn word_count(s: Seq<char>) -> nat {
    word_count_from(s, 0, false)
}

/// The count of words in a suffix never exceeds the length of that suffix.
proof fn lemma_word_count_from_bound(s: Seq<char>, i: int, in_word: bool)
    requires
        0 <= i <= s.len(),
    ensures
        word_count_from(s, i, in_word) <= s.len() - i,
    decreases s.len() - i,
{
    if i < s.len() {
        lemma_word_count_from_bound(s, i + 1, !is_wspace(s[i]));
        lemma_word_count_from_bound(s, i + 1, in_word);
    }
}

fn is_wspace_exec(c: char) -> (b: bool)
    ensures
        b == is_wspace(c),
{
    c == ' ' || c == '\t' || c == '\n' || c == '\r' || c == '\u{000B}' || c == '\u{000C}'
        || c == '\u{0085}' || c == '\u{00A0}' || c == '\u{1680}' || c == '\u{2000}'
        || c == '\u{2001}' || c == '\u{2002}' || c == '\u{2003}' || c == '\u{2004}'
        || c == '\u{2005}' || c == '\u{2006}' || c == '\u{2007}' || c == '\u{2008}'
        || c == '\u{2009}' || c == '\u{200A}' || c == '\u{2028}' || c == '\u{2029}'
        || c == '\u{202F}' || c == '\u{205F}' || c == '\u{3000}'
}

/// Counts the whitespace-delimited words of `s`.
pub fn count_words(s: &str) -> (n: u32)
    requires
        s@.len() <= u32::MAX,
    ensures
        n == word_count(s@),
{
    proof {
        lemma_word_count_from_bound(s@, 0, false);
    }
    let len: usize = s.unicode_len();
    let mut n: u32 = 0;
    let mut in_word: bool = false;
    let mut i: usize = 0;
    while i < len
        invariant
            0 <= i <= len,
            len == s@.len() <= u32::MAX,
            word_count(s@) == n + word_count_from(s@, i as int, in_word),
            n <= i,
        decreases len - i,
    {
        let c = s.get_char(i);
        if is_wspace_exec(c) {
            in_word = false;
        } else {
            if !in_word {
                proof {
                    lemma_word_count_from_bound(s@, i + 1, true);
                }
                n = n + 1;
            }
            in_word = true;
        }
        i = i + 1;
    }
    n
}

/// The raw UTF-8 byte length of `s`, as the stored character count.
pub fn count_bytes(s: &str) -> (n: u32)
    requires
        s.spec_bytes().len() <= u32::MAX,
    ensures
        n == s.spec_bytes().len(),
{
    s.len() as u32
}

} // verus!
