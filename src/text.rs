//! Character-level helpers on strings: searching, splitting and joining.

use vstd::prelude::*;
use vstd::utf8::encode_utf8;

verus! {

/// The parts of `s` before and after the first occurrence of `c`, if `c` occurs.
pub open spec fn split_first(s: Seq<char>, c: char) -> Option<(Seq<char>, Seq<char>)>
    decreases s.len(),
{
    if s.len() == 0 {
        None
    } else if s[0] == c {
        Some((Seq::empty(), s.drop_first()))
    } else {
        match split_first(s.drop_first(), c) {
            Some(parts) => Some((seq![s[0]] + parts.0, parts.1)),
            None => None,
        }
    }
}

/// Relies on `str::len`, the length of `s` in bytes of UTF-8. No string is
/// longer than `isize::MAX` bytes, as no allocation is larger.
#[verifier::external_body]
pub(crate) fn byte_len(s: &str) -> (r: usize)
    ensures
        r == encode_utf8(s@).len(),
        r <= isize::MAX,
{
    s.len()
}

/// Splitting at the first occurrence, found at `i`, gives what lies around `i`.
pub proof fn lemma_split_first_found(s: Seq<char>, c: char, i: int)
    requires
        0 <= i < s.len(),
        s[i] == c,
        !s.take(i).contains(c),
    ensures
        split_first(s, c) == Some((s.take(i), s.skip(i + 1))),
    decreases i,
{
    if i == 0 {
        assert(s.take(0) =~= Seq::<char>::empty());
        assert(s.skip(1) =~= s.drop_first());
    } else {
        assert(s.take(i)[0] == s[0]);
        let t = s.drop_first();
        assert(t.take(i - 1) =~= s.take(i).drop_first());
        if t.take(i - 1).contains(c) {
            let k = choose|k: int| 0 <= k < t.take(i - 1).len() && #[trigger] t.take(i - 1)[k] == c;
            assert(s.take(i)[k + 1] == c);
        }
        lemma_split_first_found(t, c, i - 1);
        assert(seq![s[0]] + t.take(i - 1) =~= s.take(i));
        assert(t.skip(i) =~= s.skip(i + 1));
    }
}

/// Splitting fails where `c` does not occur.
pub proof fn lemma_split_first_absent(s: Seq<char>, c: char)
    requires
        !s.contains(c),
    ensures
        split_first(s, c) is None,
    decreases s.len(),
{
    if s.len() > 0 {
        assert(s[0] != c);
        if s.drop_first().contains(c) {
            let t = s.drop_first();
            let k = choose|k: int| 0 <= k < t.len() && #[trigger] t[k] == c;
            assert(s[k + 1] == c);
        }
        lemma_split_first_absent(s.drop_first(), c);
    }
}

/// Splitting fails only where `c` does not occur.
pub proof fn lemma_split_first_none(s: Seq<char>, c: char)
    requires
        split_first(s, c) is None,
    ensures
        !s.contains(c),
    decreases s.len(),
{
    if s.len() > 0 {
        lemma_split_first_none(s.drop_first(), c);
        if s.contains(c) {
            let k = choose|k: int| 0 <= k < s.len() && #[trigger] s[k] == c;
            assert(k != 0);
            assert(s.drop_first()[k - 1] == c);
        }
    }
}

/// Index of the first occurrence of `c` in `s`.
pub(crate) fn find_char(s: &str, c: char) -> (r: Option<usize>)
    ensures
        r matches Some(i) ==> i < s@.len() && s@[i as int] == c && !s@.take(i as int).contains(c),
        r is None ==> !s@.contains(c),
{
    let n = s.unicode_len();
    let mut i: usize = 0;
    for ch in it: s.chars()
        invariant
            n == s@.len(),
            i == it.index(),
            it.seq() == s@,
            !s@.take(i as int).contains(c),
    {
        if ch == c {
            return Some(i);
        }
        assert(s@.take(i + 1) == s@.take(i as int).push(ch));
        i = i + 1;
    }
    assert(s@.take(i as int) == s@);
    None
}

/// The parts of `s` before and after the first occurrence of `c`.
pub(crate) fn split_once(s: &str, c: char) -> (r: Option<(String, String)>)
    ensures
        r is None <==> split_first(s@, c) is None,
        r matches Some(p) ==> split_first(s@, c) == Some((p.0@, p.1@)),
{
    match find_char(s, c) {
        None => {
            proof {
                lemma_split_first_absent(s@, c);
            }
            None
        },
        Some(i) => {
            proof {
                lemma_split_first_found(s@, c, i as int);
            }
            let n = s.unicode_len();
            let before = s.substring_char(0, i).to_owned();
            let after = s.substring_char(i + 1, n).to_owned();
            assert(s@.skip(i + 1) =~= s@.subrange(i + 1, n as int));
            Some((before, after))
        },
    }
}

/// Index of the last occurrence of `c` in `s`.
pub(crate) fn rfind_char(s: &str, c: char) -> (r: Option<usize>)
    ensures
        r matches Some(i) ==> i < s@.len() && s@[i as int] == c && !s@.skip(i + 1).contains(c),
        r is None ==> !s@.contains(c),
{
    let n = s.unicode_len();
    let mut i: usize = 0;
    let mut last: Option<usize> = None;
    for ch in it: s.chars()
        invariant
            n == s@.len(),
            i == it.index(),
            it.seq() == s@,
            last matches Some(j) ==> j < i && s@[j as int] == c && !s@.subrange(
                j + 1,
                i as int,
            ).contains(c),
            last is None ==> !s@.take(i as int).contains(c),
    {
        if ch == c {
            last = Some(i);
            assert(s@.subrange(i + 1, i + 1) =~= Seq::<char>::empty());
        } else {
            assert(s@.take(i + 1) == s@.take(i as int).push(ch));
            if let Some(j) = last {
                assert(s@.subrange(j + 1, i + 1) == s@.subrange(j + 1, i as int).push(ch));
            }
        }
        i = i + 1;
    }
    assert(s@.take(i as int) == s@);
    if let Some(j) = last {
        assert(s@.subrange(j + 1, i as int) == s@.skip(j + 1));
    }
    last
}

} // verus!
