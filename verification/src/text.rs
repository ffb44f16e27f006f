//! Operations on strings, counted in characters.

use crate::color::RESET;
use vstd::prelude::*;
use vstd::string::*;

verus! {

/// The first `limit` characters of `text`, or all of it where it is shorter.
pub open spec fn prefix_of(text: Seq<char>, limit: nat) -> Seq<char> {
    if limit < text.len() {
        text.take(limit as int)
    } else {
        text
    }
}

/// What is left of `text` behind its first `count` characters; nothing where
/// it has no more than that.
pub open spec fn rest_of(text: Seq<char>, count: nat) -> Seq<char> {
    if count < text.len() {
        text.skip(count as int)
    } else {
        Seq::empty()
    }
}

/// `text` between `colour` and the code that ends it. An empty text stays
/// empty, and so does any text while colours are off.
pub open spec fn painted(text: Seq<char>, colour: Seq<char>, on: bool) -> Seq<char> {
    if on && text.len() > 0 {
        colour + text + RESET@
    } else {
        text
    }
}

/// A text is its first characters followed by the rest.
pub proof fn lemma_prefix_and_rest(text: Seq<char>, count: nat)
    ensures
        prefix_of(text, count) + rest_of(text, count) == text,
        prefix_of(text, count).len() == if count < text.len() {
            count
        } else {
            text.len()
        },
{
    assert(prefix_of(text, count) + rest_of(text, count) =~= text);
}

/// Cuts `text` to at most `limit` characters.
pub fn take_chars(text: &str, limit: usize) -> (cut: String)
    ensures
        cut@ == prefix_of(text@, limit as nat),
{
    let len = text.unicode_len();
    if limit < len {
        text.substring_char(0, limit).to_owned()
    } else {
        text.to_owned()
    }
}

/// Drops the first `count` characters of `text`.
pub fn skip_chars(text: &str, count: usize) -> (rest: String)
    ensures
        rest@ == rest_of(text@, count as nat),
{
    let len = text.unicode_len();
    if count < len {
        text.substring_char(count, len).to_owned()
    } else {
        String::new()
    }
}

/// Whether `text` begins with `prefix`.
pub fn starts_with(text: &str, prefix: &str) -> (found: bool)
    ensures
        found == prefix@.is_prefix_of(text@),
{
    let len = prefix.unicode_len();
    if len > text.unicode_len() {
        return false;
    }
    let head = text.substring_char(0, len).to_owned();
    let wanted = prefix.to_owned();
    proof {
        assert(prefix@.is_prefix_of(text@) <==> text@.subrange(0, len as int) =~= prefix@);
    }
    head == wanted
}

/// Wraps `text` in `colour` where colours are on and there is text to colour.
pub fn paint(text: &str, colour: &str, on: bool) -> (out: String)
    ensures
        out@ == painted(text@, colour@, on),
{
    if on && text.unicode_len() > 0 {
        let mut out = colour.to_owned();
        out.append(text);
        out.append(RESET);
        out
    } else {
        text.to_owned()
    }
}

} // verus!
