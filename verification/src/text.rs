//! Text helpers shared by the extraction and naming code.

use vstd::prelude::*;
use vstd::std_specs::iter::IteratorSpec;

verus! {

/// The part of `s` behind its last `#`, or all of `s` where it holds none.
pub open spec fn after_last_hash(s: Seq<char>) -> Seq<char>
    decreases s.len(),
{
    if s.len() == 0 {
        s
    } else if s.last() == '#' {
        Seq::empty()
    } else {
        after_last_hash(s.drop_last()).push(s.last())
    }
}

/// The part behind the last `#` is the longest end of the text that holds
/// no `#`: it holds none, it is an end of the text, and what stands before
/// it is nothing or ends in `#`.
pub proof fn lemma_after_last_hash(s: Seq<char>)
    ensures
        !after_last_hash(s).contains('#'),
        after_last_hash(s).len() <= s.len(),
        after_last_hash(s) == s.subrange(s.len() - after_last_hash(s).len(), s.len() as int),
        after_last_hash(s).len() < s.len() ==> s[s.len() - after_last_hash(s).len() - 1] == '#',
    decreases s.len(),
{
    if s.len() == 0 {
        assert(s.subrange(0, 0) =~= s);
    } else if s.last() == '#' {
        assert(s.subrange(s.len() as int, s.len() as int) =~= Seq::<char>::empty());
    } else {
        let rest = s.drop_last();
        let part = after_last_hash(rest);
        lemma_after_last_hash(rest);
        assert(part.push(s.last()) =~= s.subrange(s.len() - part.len() - 1, s.len() as int));
        assert forall|i: int| 0 <= i < part.push(s.last()).len() implies part.push(s.last())[i]
            != '#' by {
            if i < part.len() {
                assert(part.contains(part[i]));
            }
        }
    }
}

/// A text without `#` is its own part behind the last `#`.
pub proof fn lemma_after_last_hash_whole(s: Seq<char>)
    requires
        !s.contains('#'),
    ensures
        after_last_hash(s) == s,
    decreases s.len(),
{
    if s.len() > 0 {
        assert(s.contains(s.last()));
        assert forall|i: int| 0 <= i < s.drop_last().len() implies s.drop_last()[i] != '#' by {
            assert(s.contains(s[i]));
        }
        lemma_after_last_hash_whole(s.drop_last());
        assert(s.drop_last().push(s.last()) =~= s);
    }
}

/// The text that an optional string slice holds.
pub open spec fn text_of(value: Option<&str>) -> Option<Seq<char>> {
    match value {
        Some(text) => Some(text@),
        None => None,
    }
}

/// The text itself, or the empty text where there is none.
pub open spec fn or_empty(value: Option<Seq<char>>) -> Seq<char> {
    match value {
        Some(text) => text,
        None => Seq::empty(),
    }
}

/// The empty string slice holds the empty text.
pub proof fn lemma_empty_text()
    ensures
        ""@ == Seq::<char>::empty(),
{
    reveal_strlit("");
    assert(""@ =~= Seq::<char>::empty());
}

/// Tells whether two string slices hold the same text.
pub fn same_text(a: &str, b: &str) -> (same: bool)
    ensures
        same == (a@ == b@),
{
    let mut left = a.chars();
    let mut right = b.chars();
    let ghost mut seen = Seq::<char>::empty();
    assert(a@ =~= seen + left.remaining());
    assert(b@ =~= seen + right.remaining());
    loop
        invariant
            left.obeys_prophetic_iter_laws(),
            right.obeys_prophetic_iter_laws(),
            a@ == seen + left.remaining(),
            b@ == seen + right.remaining(),
        decreases a@.len() - seen.len(),
    {
        match (left.next(), right.next()) {
            (Some(x), Some(y)) => {
                assert(a@[seen.len() as int] == x);
                assert(b@[seen.len() as int] == y);
                if x != y {
                    return false;
                }
                proof {
                    seen = seen.push(x);
                }
                assert(a@ =~= seen + left.remaining());
                assert(b@ =~= seen + right.remaining());
            },
            (None, None) => {
                assert(a@ =~= seen);
                assert(b@ =~= seen);
                return true;
            },
            _ => {
                assert(a@.len() != b@.len());
                return false;
            },
        }
    }
}

/// Takes the fragment of a reference: what follows its last `#`.
pub fn fragment<'a>(raw: &'a str) -> (part: &'a str)
    ensures
        part@ == after_last_hash(raw@),
{
    let len = raw.unicode_len();
    let mut start: usize = 0;
    let mut count: usize = 0;
    assert(raw@.subrange(0, 0) =~= Seq::<char>::empty());
    for c in it: raw.chars()
        invariant
            it.seq() == raw@,
            len == raw@.len(),
            count == it.index(),
            start <= count <= len,
            raw@.subrange(start as int, count as int) == after_last_hash(raw@.subrange(0, count as int)),
    {
        proof {
            let before = raw@.subrange(0, count as int);
            let now = raw@.subrange(0, count + 1);
            assert(now.drop_last() =~= before);
            assert(now.last() == c);
            assert(raw@.subrange(start as int, count + 1) =~= raw@.subrange(start as int, count as int).push(c));
            assert(raw@.subrange(count + 1, count + 1) =~= Seq::<char>::empty());
        }
        count = count + 1;
        if c == '#' {
            start = count;
        }
    }
    assert(raw@.subrange(0, count as int) =~= raw@);
    raw.substring_char(start, count)
}

} // verus!
