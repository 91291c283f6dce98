//! Text helpers over the characters of a string: trimming, comparison without
//! regard to case, prefixes, and the few standard-library calls that the rest
//! of the crate relies on without proof.

use vstd::prelude::*;
use vstd::string::*;

verus! {

/// Whether `c` is white space in the sense of `char::is_whitespace`.
pub uninterp spec fn white_space(c: char) -> bool;

/// The upper-case form of `text` as `str::to_uppercase` gives it.
pub uninterp spec fn uppercase(text: Seq<char>) -> Seq<char>;

/// The text that `String::from_utf8_lossy` reads out of `bytes`.
pub uninterp spec fn lossy_text(bytes: Seq<u8>) -> Seq<char>;

/// `text` without its leading white space.
pub open spec fn trim_start(text: Seq<char>) -> Seq<char>
    decreases text.len(),
{
    if text.len() > 0 && white_space(text.first()) {
        trim_start(text.drop_first())
    } else {
        text
    }
}

/// `text` without its trailing white space.
pub open spec fn trim_end(text: Seq<char>) -> Seq<char>
    decreases text.len(),
{
    if text.len() > 0 && white_space(text.last()) {
        trim_end(text.drop_last())
    } else {
        text
    }
}

/// `text` without leading and trailing white space.
pub open spec fn trimmed(text: Seq<char>) -> Seq<char> {
    trim_end(trim_start(text))
}

/// The form under which commands are compared: trimmed, then upper-cased.
pub open spec fn folded(text: Seq<char>) -> Seq<char> {
    uppercase(trimmed(text))
}

/// Calls `char::is_whitespace`. Trusted: the answer is the one that
/// [`white_space`] names.
#[verifier::external_body]
fn is_space(c: char) -> (space: bool)
    ensures
        space == white_space(c),
{
    c.is_whitespace()
}

/// Calls `str::to_uppercase`. Trusted: the string returned holds the
/// characters that [`uppercase`] names for the characters of `text`.
#[verifier::external_body]
pub(crate) fn to_upper(text: &str) -> (upper: String)
    ensures
        upper@ == uppercase(text@),
{
    text.to_uppercase()
}

/// Calls `String::push`. Trusted: the string afterwards is the string before
/// with `c` appended.
#[verifier::external_body]
pub(crate) fn push_char(text: &mut String, c: char)
    ensures
        final(text)@ == old(text)@.push(c),
{
    text.push(c)
}

/// Calls `String::from_utf8_lossy`. Trusted: the string returned is the one
/// that [`lossy_text`] names, and bytes that are valid UTF-8 decode to the
/// text they encode.
#[verifier::external_body]
pub(crate) fn decode_lossy(bytes: &[u8]) -> (text: String)
    ensures
        text@ == lossy_text(bytes@),
        vstd::utf8::valid_utf8(bytes@) ==> text@ == vstd::utf8::decode_utf8(bytes@),
{
    String::from_utf8_lossy(bytes).into_owned()
}

/// A white-space character at the front of the rest of a text can be left
/// out before the rest is trimmed at its start.
proof fn lemma_trim_start_step(text: Seq<char>, start: int)
    requires
        0 <= start < text.len(),
        white_space(text[start]),
    ensures
        trim_start(text.subrange(start, text.len() as int)) == trim_start(
            text.subrange(start + 1, text.len() as int),
        ),
{
    let rest = text.subrange(start, text.len() as int);
    assert(rest.drop_first() =~= text.subrange(start + 1, text.len() as int));
}

/// A white-space character at the back of a part of a text can be left out
/// before the part is trimmed at its end.
proof fn lemma_trim_end_step(text: Seq<char>, start: int, end: int)
    requires
        0 <= start < end <= text.len(),
        white_space(text[end - 1]),
    ensures
        trim_end(text.subrange(start, end)) == trim_end(text.subrange(start, end - 1)),
{
    let rest = text.subrange(start, end);
    assert(rest.drop_last() =~= text.subrange(start, end - 1));
}

/// The part of `text` that is left when leading and trailing white space is
/// removed.
pub fn trim(text: &str) -> (inner: &str)
    ensures
        inner@ == trimmed(text@),
{
    let len: usize = text.unicode_len();
    let mut start: usize = 0;
    assert(text@.subrange(0, len as int) =~= text@);
    while start < len && is_space(text.get_char(start))
        invariant
            start <= len,
            len == text@.len(),
            trim_start(text@) == trim_start(text@.subrange(start as int, len as int)),
        decreases len - start,
    {
        proof {
            lemma_trim_start_step(text@, start as int);
        }
        start += 1;
    }
    let ghost front = text@.subrange(start as int, len as int);
    assert(trim_start(text@) == front);
    let mut end: usize = len;
    while end > start && is_space(text.get_char(end - 1))
        invariant
            start <= end <= len,
            len == text@.len(),
            trim_end(front) == trim_end(text@.subrange(start as int, end as int)),
        decreases end - start,
    {
        proof {
            lemma_trim_end_step(text@, start as int, end as int);
        }
        end -= 1;
    }
    assert(trim_end(front) == text@.subrange(start as int, end as int));
    text.substring_char(start, end)
}

/// Whether `text` begins with the characters of `prefix`.
pub fn starts_with(text: &str, prefix: &str) -> (begins: bool)
    ensures
        begins == prefix@.is_prefix_of(text@),
{
    let wanted: usize = prefix.unicode_len();
    if text.unicode_len() < wanted {
        return false;
    }
    let mut at: usize = 0;
    while at < wanted
        invariant
            at <= wanted,
            wanted == prefix@.len(),
            wanted <= text@.len(),
            forall|k: int| 0 <= k < at ==> text@[k] == prefix@[k],
        decreases wanted - at,
    {
        if text.get_char(at) != prefix.get_char(at) {
            return false;
        }
        at += 1;
    }
    true
}

/// Whether two strings hold the same characters.
pub fn same_text(left: &str, right: &str) -> (same: bool)
    ensures
        same == (left@ == right@),
{
    if left.unicode_len() != right.unicode_len() {
        return false;
    }
    let begins = starts_with(left, right);
    proof {
        if begins {
            assert(left@.subrange(0, right@.len() as int) =~= left@);
        }
    }
    begins
}

/// `text` trimmed and upper-cased: the form under which commands are compared.
pub fn fold(text: &str) -> (form: String)
    ensures
        form@ == folded(text@),
{
    to_upper(trim(text))
}

} // verus!
