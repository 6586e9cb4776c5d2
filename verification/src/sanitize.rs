//! Folder-name sanitization.
//!
//! A display name becomes a safe folder name by keeping alphanumeric
//! characters, `-`, `_` and spaces, replacing everything else with `_`,
//! and stripping leading and trailing spaces. After the replacement step
//! a space is the only whitespace character left, so stripping spaces is
//! exactly what trimming whitespace does on the replaced text.

use vstd::prelude::*;
use vstd::string::*;
use crate::strutil::push_char;

verus! {

/// Whether `char::is_alphanumeric` holds of the character: a Unicode
/// classification, a function of the character alone.
pub uninterp spec fn unicode_alphanumeric(c: char) -> bool;

/// Relies on `char::is_alphanumeric`: the classification depends on the
/// character alone.
#[verifier::external_body]
fn char_is_alphanumeric(c: char) -> (r: bool)
    ensures
        r == unicode_alphanumeric(c),
{
    c.is_alphanumeric()
}

/// Characters that survive sanitization unchanged.
pub open spec fn kept_char(c: char) -> bool {
    unicode_alphanumeric(c) || c == '-' || c == '_' || c == ' '
}

/// A single character after the replacement step.
pub open spec fn masked_char(c: char) -> char {
    if kept_char(c) {
        c
    } else {
        '_'
    }
}

/// The replacement step over a whole name.
pub open spec fn mask_chars(s: Seq<char>) -> Seq<char> {
    s.map_values(|c: char| masked_char(c))
}

/// Drops leading spaces.
pub open spec fn trim_start_spaces(s: Seq<char>) -> Seq<char>
    decreases s.len(),
{
    if s.len() > 0 && s[0] == ' ' {
        trim_start_spaces(s.skip(1))
    } else {
        s
    }
}

/// Drops trailing spaces.
pub open spec fn trim_end_spaces(s: Seq<char>) -> Seq<char>
    decreases s.len(),
{
    if s.len() > 0 && s[s.len() - 1] == ' ' {
        trim_end_spaces(s.take(s.len() - 1))
    } else {
        s
    }
}

/// What sanitization returns for a given name.
pub open spec fn sanitize_spec(s: Seq<char>) -> Seq<char> {
    trim_end_spaces(trim_start_spaces(mask_chars(s)))
}

proof fn lemma_trim_start_is_skip(s: Seq<char>, i: int)
    requires
        0 <= i <= s.len(),
        forall|j: int| 0 <= j < i ==> s[j] == ' ',
        i < s.len() ==> s[i] != ' ',
    ensures
        trim_start_spaces(s) =~= s.skip(i),
    decreases i,
{
    if i > 0 {
        lemma_trim_start_is_skip(s.skip(1), i - 1);
        assert(s.skip(1).skip(i - 1) =~= s.skip(i));
    } else {
        assert(s.skip(0) =~= s);
    }
}

proof fn lemma_trim_end_is_take(s: Seq<char>, e: int)
    requires
        0 <= e <= s.len(),
        forall|j: int| e <= j < s.len() ==> s[j] == ' ',
        e > 0 ==> s[e - 1] != ' ',
    ensures
        trim_end_spaces(s) =~= s.take(e),
    decreases s.len() - e,
{
    if e < s.len() {
        lemma_trim_end_is_take(s.take(s.len() - 1), e);
        assert(s.take(s.len() - 1).take(e) =~= s.take(e));
    } else {
        assert(s.take(s.len() as int) =~= s);
    }
}

/// Sanitizes a display name for use as a folder name: alphanumerics, `-`,
/// `_` and spaces are kept, every other character becomes `_`, and leading
/// and trailing spaces are removed.
pub fn sanitize_name(name: &str) -> (r: String)
    ensures
        r@ == sanitize_spec(name@),
{
    let n = name.unicode_len();
    let mut masked: Vec<char> = Vec::new();
    let mut i: usize = 0;
    proof {
        assert(masked@ =~= mask_chars(name@.take(0)));
    }
    while i < n
        invariant
            i <= n,
            n == name@.len(),
            masked@ =~= mask_chars(name@.take(i as int)),
        decreases n - i,
    {
        let c = name.get_char(i);
        let keep = char_is_alphanumeric(c) || c == '-' || c == '_' || c == ' ';
        masked.push(if keep { c } else { '_' });
        proof {
            assert(masked@ =~= mask_chars(name@.take(i + 1)));
        }
        i = i + 1;
    }
    proof {
        assert(name@.take(n as int) =~= name@);
    }
    let len = masked.len();
    let mut start: usize = 0;
    while start < len && masked[start] == ' '
        invariant
            start <= len,
            len == masked@.len(),
            forall|j: int| 0 <= j < start ==> masked@[j] == ' ',
        decreases len - start,
    {
        start = start + 1;
    }
    let mut end: usize = len;
    while end > start && masked[end - 1] == ' '
        invariant
            start <= end <= len,
            len == masked@.len(),
            forall|j: int| end <= j < len ==> masked@[j] == ' ',
        decreases end,
    {
        end = end - 1;
    }
    proof {
        lemma_trim_start_is_skip(masked@, start as int);
        lemma_trim_end_is_take(masked@.skip(start as int), end - start);
        assert(masked@.skip(start as int).take(end - start) =~= masked@.subrange(
            start as int,
            end as int,
        ));
    }
    let mut out = String::new();
    let mut k: usize = start;
    while k < end
        invariant
            start <= k <= end <= len,
            len == masked@.len(),
            out@ =~= masked@.subrange(start as int, k as int),
        decreases end - k,
    {
        push_char(&mut out, masked[k]);
        proof {
            assert(out@ =~= masked@.subrange(start as int, k + 1));
        }
        k = k + 1;
    }
    out
}

/// Sanitizes a folder name; the same rule as `sanitize_name`.
pub fn sanitize_folder_name(name: &str) -> (r: String)
    ensures
        r@ == sanitize_spec(name@),
{
    sanitize_name(name)
}

} // verus!
