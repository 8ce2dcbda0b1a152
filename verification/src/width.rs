//! Folding full-width Latin letters, digits and the ideographic space to their
//! standard-width counterparts.

use vstd::prelude::*;
use crate::chars::{chars_of, string_of};

verus! {

/// Whether `c` is one of the characters that normalization rewrites: a
/// full-width digit, a full-width Latin letter, or the ideographic space.
pub open spec fn is_fullwidth_target(c: char) -> bool {
    ||| '０' <= c <= '９'
    ||| 'Ａ' <= c <= 'Ｚ'
    ||| 'ａ' <= c <= 'ｚ'
    ||| c == '\u{3000}'
}

/// The standard-width counterpart of `c`, or `c` itself when it has none.
pub open spec fn normalize_char(c: char) -> char {
    if '０' <= c <= '９' {
        ((c as u32 - '０' as u32 + '0' as u32) as u8) as char
    } else if 'Ａ' <= c <= 'Ｚ' {
        ((c as u32 - 'Ａ' as u32 + 'A' as u32) as u8) as char
    } else if 'ａ' <= c <= 'ｚ' {
        ((c as u32 - 'ａ' as u32 + 'a' as u32) as u8) as char
    } else if c == '\u{3000}' {
        ' '
    } else {
        c
    }
}

/// Normalization of a whole text: every character is replaced by its
/// standard-width counterpart, position by position.
pub open spec fn normalize(s: Seq<char>) -> Seq<char> {
    Seq::new(s.len(), |i: int| normalize_char(s[i]))
}

/// Normalization never produces a character that it would rewrite.
pub proof fn lemma_normalized_char_is_settled(c: char)
    ensures
        !is_fullwidth_target(normalize_char(c)),
{
}

/// A character that normalization does not target comes out as it went in.
pub proof fn lemma_normalize_keeps_other_chars(s: Seq<char>, i: int)
    requires
        0 <= i < s.len(),
        !is_fullwidth_target(s[i]),
    ensures
        normalize(s)[i] == s[i],
{
}

/// A text without targeted characters is its own normalization.
pub proof fn lemma_normalize_fixes_settled_text(s: Seq<char>)
    requires
        forall|i: int| 0 <= i < s.len() ==> !is_fullwidth_target(#[trigger] s[i]),
    ensures
        normalize(s) == s,
{
    assert(normalize(s) =~= s);
}

/// Normalization is idempotent: normalizing a normalized text changes
/// nothing.
pub proof fn lemma_normalize_idempotent(s: Seq<char>)
    ensures
        normalize(normalize(s)) == normalize(s),
{
    assert forall|i: int| 0 <= i < s.len() implies normalize_char(normalize_char(s[i]))
        == normalize_char(s[i]) by {
        lemma_normalized_char_is_settled(s[i]);
    }
    assert(normalize(normalize(s)) =~= normalize(s));
}

/// Normalization keeps the number of characters.
pub proof fn lemma_normalize_keeps_length(s: Seq<char>)
    ensures
        normalize(s).len() == s.len(),
{
}

/// Computes `normalize_char`.
pub fn to_hankaku_char(c: char) -> (r: char)
    ensures
        r == normalize_char(c),
{
    if '０' <= c && c <= '９' {
        ((c as u32 - '０' as u32 + '0' as u32) as u8) as char
    } else if 'Ａ' <= c && c <= 'Ｚ' {
        ((c as u32 - 'Ａ' as u32 + 'A' as u32) as u8) as char
    } else if 'ａ' <= c && c <= 'ｚ' {
        ((c as u32 - 'ａ' as u32 + 'a' as u32) as u8) as char
    } else if c == '\u{3000}' {
        ' '
    } else {
        c
    }
}

/// Normalizes a vector of characters.
pub fn normalize_chars(v: &Vec<char>) -> (out: Vec<char>)
    ensures
        out@ == normalize(v@),
{
    let mut out: Vec<char> = Vec::new();
    let mut i: usize = 0;
    while i < v.len()
        invariant
            i <= v.len(),
            out@ == normalize(v@.take(i as int)),
        decreases v.len() - i,
    {
        out.push(to_hankaku_char(v[i]));
        i += 1;
        assert(out@ =~= normalize(v@.take(i as int)));
    }
    assert(v@.take(v.len() as int) =~= v@);
    out
}

/// Converts full-width digits, Latin letters and the ideographic space in `s`
/// to standard width and leaves every other character as it is.
pub fn to_hankaku(s: &str) -> (out: String)
    ensures
        out@ == normalize(s@),
        out@.len() == s@.len(),
{
    let v = chars_of(s);
    let n = normalize_chars(&v);
    string_of(&n)
}

} // verus!
