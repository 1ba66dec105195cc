//! The top-level domain of a lookup target.

use crate::text::chars_of;
use vstd::prelude::*;
use vstd::string::*;

verus! {

/// `s` without the dots that end it.
pub open spec fn strip_trailing_dots(s: Seq<char>) -> Seq<char>
    decreases s.len(),
{
    if s.len() > 0 && s.last() == '.' {
        strip_trailing_dots(s.drop_last())
    } else {
        s
    }
}

/// What follows the last dot of `s`; all of `s` where it has no dot.
pub open spec fn last_label(s: Seq<char>) -> Seq<char>
    decreases s.len(),
{
    if s.len() == 0 || s.last() == '.' {
        Seq::empty()
    } else {
        last_label(s.drop_last()).push(s.last())
    }
}

/// The top-level domain of a target: the last non-empty segment between
/// dots. A target without any dot has none, and neither has one made of
/// dots alone.
pub open spec fn tld_of(target: Seq<char>) -> Option<Seq<char>> {
    let label = last_label(strip_trailing_dots(target));
    if target.contains('.') && label.len() > 0 {
        Some(label)
    } else {
        None
    }
}

/// Whether `s[start..end]` is the last non-empty segment of `s`: it is not
/// empty and holds no dot, a dot or the start of `s` stands before it, and
/// nothing but dots follows it.
pub open spec fn is_last_segment(s: Seq<char>, start: int, end: int) -> bool {
    &&& 0 <= start < end <= s.len()
    &&& forall|k: int| start <= k < end ==> s[k] != '.'
    &&& start == 0 || s[start - 1] == '.'
    &&& forall|k: int| end <= k < s.len() ==> s[k] == '.'
}

/// Cutting `s` where its final dots begin strips them.
proof fn lemma_strip_trailing_dots(s: Seq<char>, end: int)
    requires
        0 <= end <= s.len(),
        forall|k: int| end <= k < s.len() ==> s[k] == '.',
        end == 0 || s[end - 1] != '.',
    ensures
        strip_trailing_dots(s) == s.take(end),
    decreases s.len() - end,
{
    if end < s.len() {
        lemma_strip_trailing_dots(s.drop_last(), end);
    }
}

/// What follows the last dot of `s` is its last label.
proof fn lemma_last_label(s: Seq<char>, start: int)
    requires
        0 <= start <= s.len(),
        forall|k: int| start <= k < s.len() ==> s[k] != '.',
        start == 0 || s[start - 1] == '.',
    ensures
        last_label(s) == s.subrange(start, s.len() as int),
    decreases s.len() - start,
{
    if start < s.len() {
        lemma_last_label(s.drop_last(), start);
    }
}

/// The top-level domain of `target`, a slice of it.
pub fn get_tld(target: &str) -> (tld: Option<&str>)
    ensures
        match tld {
            Some(t) => tld_of(target@) == Some(t@),
            None => tld_of(target@) is None,
        },
{
    let chars = chars_of(target);
    let n = chars.len();
    let mut end: usize = n;
    while end > 0 && chars[end - 1] == '.'
        invariant
            end <= n == chars.len(),
            forall|k: int| end <= k < n ==> chars@[k] == '.',
        decreases end,
    {
        end -= 1;
    }
    let mut start: usize = end;
    while start > 0 && chars[start - 1] != '.'
        invariant
            start <= end <= n == chars.len(),
            forall|k: int| start <= k < end ==> chars@[k] != '.',
        decreases start,
    {
        start -= 1;
    }
    proof {
        lemma_strip_trailing_dots(target@, end as int);
        lemma_last_label(target@.take(end as int), start as int);
    }
    if start < end && (end < n || start > 0) {
        Some(target.substring_char(start, end))
    } else {
        None
    }
}

/// Stripping the final dots leaves a prefix that does not end in a dot.
proof fn lemma_strip_is_prefix(s: Seq<char>)
    ensures
        strip_trailing_dots(s).len() <= s.len(),
        strip_trailing_dots(s) == s.take(strip_trailing_dots(s).len() as int),
        forall|k: int| strip_trailing_dots(s).len() <= k < s.len() ==> s[k] == '.',
        strip_trailing_dots(s).len() == 0 || strip_trailing_dots(s).last() != '.',
    decreases s.len(),
{
    if s.len() > 0 && s.last() == '.' {
        let d = s.drop_last();
        let t = strip_trailing_dots(d);
        lemma_strip_is_prefix(d);
        assert forall|k: int| t.len() <= k < s.len() implies s[k] == '.' by {
            if k < d.len() {
                assert(d[k] == s[k]);
            }
        }
    }
}

/// The last label is a suffix without a dot, and a dot stands before it.
proof fn lemma_label_is_suffix(s: Seq<char>)
    ensures
        last_label(s).len() <= s.len(),
        last_label(s) == s.subrange(s.len() - last_label(s).len(), s.len() as int),
        forall|k: int| s.len() - last_label(s).len() <= k < s.len() ==> s[k] != '.',
        last_label(s).len() == s.len() || s[s.len() - last_label(s).len() - 1] == '.',
    decreases s.len(),
{
    if s.len() > 0 && s.last() != '.' {
        let d = s.drop_last();
        let l = last_label(d);
        lemma_label_is_suffix(d);
        let start = d.len() - l.len();
        assert forall|k: int| start <= k < s.len() implies s[k] != '.' by {
            if k < d.len() {
                assert(d[k] == s[k]);
            }
        }
    }
}

/// The top-level domain, where there is one, is the last non-empty segment
/// of the target, and the target has a dot. There is none exactly where the
/// target has no dot or is made of dots alone.
pub proof fn lemma_tld_is_last_segment(target: Seq<char>)
    ensures
        match tld_of(target) {
            Some(t) => target.contains('.') && exists|start: int, end: int|
                #[trigger] is_last_segment(target, start, end) && t == target.subrange(start, end),
            None => !target.contains('.') || forall|k: int|
                0 <= k < target.len() ==> target[k] == '.',
        },
{
    let stripped = strip_trailing_dots(target);
    let label = last_label(stripped);
    let end = stripped.len() as int;
    let start = end - label.len();
    lemma_strip_is_prefix(target);
    lemma_label_is_suffix(stripped);
    assert forall|k: int| start <= k < end implies target[k] != '.' by {
        assert(stripped[k] == target[k]);
    }
    if tld_of(target) is Some {
        assert(is_last_segment(target, start, end));
    }
}

/// Conversely, the last non-empty segment of a target that has a dot is its
/// top-level domain: there is one such segment at most.
pub proof fn lemma_last_segment_is_tld(target: Seq<char>, start: int, end: int)
    requires
        target.contains('.'),
        is_last_segment(target, start, end),
    ensures
        tld_of(target) == Some(target.subrange(start, end)),
{
    let stripped = target.take(end);
    lemma_strip_trailing_dots(target, end);
    lemma_last_label(stripped, start);
}

} // verus!
