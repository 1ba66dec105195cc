//! Small operations on strings, stated over their character sequences.

use vstd::prelude::*;

verus! {

broadcast use vstd::string::group_string_axioms;

/// Whether `c` is whitespace: whether Unicode marks it as `White_Space`.
/// These are the tab, the line feed, the vertical tab, the form feed and the
/// carriage return, the space, the next-line character, the no-break space,
/// the Ogham space mark, the spaces of fixed width from the en quad to the
/// hair space, the line and the paragraph separator, the narrow no-break
/// space, the medium mathematical space and the ideographic space.
pub open spec fn is_whitespace(c: char) -> bool {
    let u = c as u32;
    ||| 0x0009 <= u <= 0x000d
    ||| u == 0x0020
    ||| u == 0x0085
    ||| u == 0x00a0
    ||| u == 0x1680
    ||| 0x2000 <= u <= 0x200a
    ||| u == 0x2028
    ||| u == 0x2029
    ||| u == 0x202f
    ||| u == 0x205f
    ||| u == 0x3000
}

/// A text is blank when nothing but whitespace is in it, so that trimming
/// its surrounding whitespace leaves the empty text.
pub open spec fn is_blank(s: Seq<char>) -> bool {
    forall|i: int| 0 <= i < s.len() ==> is_whitespace(#[trigger] s[i])
}

/// Calls `char::is_whitespace`, which answers whether the character has the
/// `White_Space` mark of the Unicode character database. The contract
/// writes that set out, as [`is_whitespace`] has it.
#[verifier::external_body]
fn char_is_whitespace(c: char) -> (b: bool)
    ensures
        b == is_whitespace(c),
{
    c.is_whitespace()
}

/// The characters of `s`, in order.
pub fn chars_of(s: &str) -> (v: Vec<char>)
    ensures
        v@ == s@,
{
    let mut v: Vec<char> = Vec::new();
    for c in it: s.chars()
        invariant
            it.seq() == s@,
            v@ == s@.take(it.index()),
    {
        v.push(c);
    }
    v
}

/// Whether two texts hold the same characters.
pub fn str_eq(a: &str, b: &str) -> (same: bool)
    ensures
        same == (a@ == b@),
{
    let x = a.to_owned();
    let y = b.to_owned();
    x == y
}

/// Whether `s` is blank.
pub fn blank(s: &str) -> (b: bool)
    ensures
        b == is_blank(s@),
{
    for c in it: s.chars()
        invariant
            it.seq() == s@,
            forall|i: int| 0 <= i < it.index() ==> is_whitespace(#[trigger] s@[i]),
    {
        if !char_is_whitespace(c) {
            return false;
        }
    }
    true
}

} // verus!
