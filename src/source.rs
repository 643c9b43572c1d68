use vstd::prelude::*;

use itertools::MultiPeek;
use std::str::Chars;

verus! {

#[verifier::external_type_specification]
#[verifier::external_body]
#[verifier::reject_recursive_types(I)]
pub struct ExMultiPeek<I: Iterator>(MultiPeek<I>);

/// The characters that a `MultiPeek` over a string has still to hand out
/// through `next`, the ones already peeked at included.
pub uninterp spec fn pending(m: MultiPeek<Chars<'_>>) -> Seq<char>;

/// The position of a `MultiPeek`'s peeking cursor in `pending`.
pub uninterp spec fn cursor(m: MultiPeek<Chars<'_>>) -> nat;

/// Relies on `str::chars` and `itertools::multipeek`: the adaptor hands out
/// the string's characters in order, and its cursor starts at the front.
#[verifier::external_body]
pub(crate) fn peekable<'a>(source: &'a str) -> (r: MultiPeek<Chars<'a>>)
    ensures
        pending(r) == source@,
        cursor(r) == 0,
{
    itertools::multipeek(source.chars())
}

/// Relies on `MultiPeek::next`: it hands out the first pending character,
/// or `None` when none is left, and moves the cursor back to the front.
#[verifier::external_body]
pub(crate) fn take_next(m: &mut MultiPeek<Chars<'_>>) -> (r: Option<char>)
    ensures
        pending(*old(m)).len() == 0 ==> r is None && pending(*final(m)) == pending(*old(m)),
        pending(*old(m)).len() > 0 ==> r == Some(pending(*old(m))[0]) && pending(*final(m))
            == pending(*old(m)).drop_first(),
        cursor(*final(m)) == 0,
{
    m.next()
}

/// Relies on `MultiPeek::reset_peek`: it moves the cursor back to the front
/// and hands out nothing.
#[verifier::external_body]
pub(crate) fn reset_cursor(m: &mut MultiPeek<Chars<'_>>)
    ensures
        pending(*final(m)) == pending(*old(m)),
        cursor(*final(m)) == 0,
{
    m.reset_peek()
}

/// Relies on `MultiPeek::peek`: it shows the pending character at the
/// cursor and moves the cursor one further; past the end it shows `None` and
/// leaves the cursor. Nothing is handed out.
#[verifier::external_body]
pub(crate) fn peek_at_cursor(m: &mut MultiPeek<Chars<'_>>) -> (r: Option<char>)
    ensures
        pending(*final(m)) == pending(*old(m)),
        cursor(*old(m)) < pending(*old(m)).len() ==> r == Some(pending(*old(m))[cursor(*old(m)) as int])
            && cursor(*final(m)) == cursor(*old(m)) + 1,
        cursor(*old(m)) >= pending(*old(m)).len() ==> r is None && cursor(*final(m)) == cursor(*old(m)),
{
    m.peek().copied()
}

pub open spec fn ascii_letter(c: char) -> bool {
    ('a' <= c && c <= 'z') || ('A' <= c && c <= 'Z')
}

/// Whether `char::is_alphabetic` holds of `c`; read for non-ASCII `c` only.
pub uninterp spec fn alphabetic(c: char) -> bool;

/// Whether `char::is_alphanumeric` holds of `c`; read for non-ASCII `c` only.
pub uninterp spec fn alphanumeric(c: char) -> bool;

/// A letter of any script: among ASCII characters, `a` to `z` and `A` to `Z`.
pub open spec fn letter(c: char) -> bool {
    if (c as u32) < 128 {
        ascii_letter(c)
    } else {
        alphabetic(c)
    }
}

/// A letter or digit of any script: among ASCII characters, the letters and
/// `0` to `9`.
pub open spec fn letter_or_digit(c: char) -> bool {
    if (c as u32) < 128 {
        ascii_letter(c) || ('0' <= c && c <= '9')
    } else {
        alphanumeric(c)
    }
}

/// Relies on `char::is_alphabetic`, which depends on the character alone and
/// holds, among ASCII characters, of the letters exactly.
#[verifier::external_body]
pub(crate) fn is_alphabetic(c: char) -> (r: bool)
    ensures
        (c as u32) < 128 ==> r == ascii_letter(c),
        (c as u32) >= 128 ==> r == alphabetic(c),
{
    c.is_alphabetic()
}

/// Relies on `char::is_alphanumeric`, which depends on the character alone
/// and holds, among ASCII characters, of the letters and digits exactly.
#[verifier::external_body]
pub(crate) fn is_alphanumeric(c: char) -> (r: bool)
    ensures
        (c as u32) < 128 ==> r == (ascii_letter(c) || ('0' <= c && c <= '9')),
        (c as u32) >= 128 ==> r == alphanumeric(c),
{
    c.is_alphanumeric()
}

/// Relies on `String: FromIterator<&char>`: the characters from `from` on,
/// in order, as a string.
#[verifier::external_body]
pub(crate) fn text_from(chars: &Vec<char>, from: usize) -> (r: String)
    requires
        from <= chars@.len(),
    ensures
        r@ == chars@.skip(from as int),
{
    chars[from..].iter().collect()
}

} // verus!
