//! Substring search over sequences of characters.
//!
//! Everything the library decides about a piece of text it decides by the
//! position of a literal marker in it. This module says what "the first
//! occurrence" is and provides the searches, proved against that statement.

use vstd::prelude::*;

verus! {

/// `needle` stands in `hay` at index `i`.
pub open spec fn occurs_at(hay: Seq<char>, needle: Seq<char>, i: int) -> bool {
    &&& 0 <= i
    &&& i + needle.len() <= hay.len()
    &&& hay.subrange(i, i + needle.len()) == needle
}

/// `needle` stands somewhere in `hay`.
pub open spec fn occurs(hay: Seq<char>, needle: Seq<char>) -> bool {
    exists|i: int| occurs_at(hay, needle, i)
}

/// `i` is the least index not below `from` at which `needle` stands in `hay`.
pub open spec fn first_at(hay: Seq<char>, needle: Seq<char>, from: int, i: int) -> bool {
    &&& from <= i
    &&& occurs_at(hay, needle, i)
    &&& forall|j: int| from <= j < i ==> !occurs_at(hay, needle, j)
}

/// The least index not below `from` at which `needle` stands in `hay`, if
/// there is one.
pub open spec fn first_from(hay: Seq<char>, needle: Seq<char>, from: int) -> Option<int> {
    if exists|i: int| first_at(hay, needle, from, i) {
        Some(choose|i: int| first_at(hay, needle, from, i))
    } else {
        None
    }
}

/// The least index at which `needle` stands in `hay`, if there is one.
pub open spec fn first(hay: Seq<char>, needle: Seq<char>) -> Option<int> {
    first_from(hay, needle, 0)
}

/// The index of the first `c` not below `from`, or the length of `hay` where
/// there is none: where a field that `c` ends stops.
pub open spec fn stop(hay: Seq<char>, c: char, from: int) -> int {
    match first_from(hay, seq![c], from) {
        Some(i) => i,
        None => hay.len() as int,
    }
}

/// The field that starts at `from` and that `c` ends: the text from `from`
/// up to the first `c`, or up to the end where there is none.
pub open spec fn field(hay: Seq<char>, from: int, c: char) -> Seq<char> {
    hay.subrange(from, stop(hay, c, from))
}

/// Whether every character is an ASCII digit. The empty text has none that
/// is not.
pub open spec fn all_digits(s: Seq<char>) -> bool {
    forall|i: int| 0 <= i < s.len() ==> '0' <= #[trigger] s[i] <= '9'
}

/// Unicode's white space: what `char::is_whitespace` accepts.
pub open spec fn is_space(c: char) -> bool {
    ||| '\u{9}' <= c <= '\u{d}'
    ||| c == ' '
    ||| c == '\u{85}'
    ||| c == '\u{a0}'
    ||| c == '\u{1680}'
    ||| '\u{2000}' <= c <= '\u{200a}'
    ||| c == '\u{2028}'
    ||| c == '\u{2029}'
    ||| c == '\u{202f}'
    ||| c == '\u{205f}'
    ||| c == '\u{3000}'
}

/// `s` without the white space it starts with.
pub open spec fn trimmed_start(s: Seq<char>) -> Seq<char>
    decreases s.len(),
{
    if s.len() > 0 && is_space(s[0]) {
        trimmed_start(s.drop_first())
    } else {
        s
    }
}

/// `s` without the white space it ends with.
pub open spec fn trimmed_end(s: Seq<char>) -> Seq<char>
    decreases s.len(),
{
    if s.len() > 0 && is_space(s.last()) {
        trimmed_end(s.drop_last())
    } else {
        s
    }
}

/// `s` without the white space around it.
pub open spec fn trimmed(s: Seq<char>) -> Seq<char> {
    trimmed_end(trimmed_start(s))
}

/// `s` without the run of `c` it starts with.
pub open spec fn without_leading(s: Seq<char>, c: char) -> Seq<char>
    decreases s.len(),
{
    if s.len() > 0 && s[0] == c {
        without_leading(s.drop_first(), c)
    } else {
        s
    }
}

/// A least occurrence is the only one: `first_from` returns it.
pub proof fn lemma_first_at(hay: Seq<char>, needle: Seq<char>, from: int, i: int)
    requires
        first_at(hay, needle, from, i),
    ensures
        first_from(hay, needle, from) == Some(i),
{
    let c = choose|k: int| first_at(hay, needle, from, k);
    if c < i {
        assert(!occurs_at(hay, needle, c));
    } else if i < c {
        assert(!occurs_at(hay, needle, i));
    }
}

/// Below an occurrence there is a least one.
proof fn lemma_least_exists(hay: Seq<char>, needle: Seq<char>, from: int, k: int)
    requires
        from <= k,
        occurs_at(hay, needle, k),
    ensures
        exists|i: int| first_at(hay, needle, from, i),
    decreases k - from,
{
    if exists|j: int| from <= j < k && occurs_at(hay, needle, j) {
        let j = choose|j: int| from <= j < k && occurs_at(hay, needle, j);
        lemma_least_exists(hay, needle, from, j);
    } else {
        assert(first_at(hay, needle, from, k));
    }
}

/// What `first_from` returns: the least occurrence, and `None` only where
/// `needle` stands nowhere from `from` on.
pub proof fn lemma_first_from(hay: Seq<char>, needle: Seq<char>, from: int)
    ensures
        match first_from(hay, needle, from) {
            Some(i) => first_at(hay, needle, from, i),
            None => forall|j: int| from <= j ==> !occurs_at(hay, needle, j),
        },
{
    if first_from(hay, needle, from) is None {
        assert forall|j: int| from <= j implies !occurs_at(hay, needle, j) by {
            if occurs_at(hay, needle, j) {
                lemma_least_exists(hay, needle, from, j);
            }
        }
    }
}

/// `needle` stands somewhere in `hay` exactly if it has a first occurrence.
pub proof fn lemma_occurs_first(hay: Seq<char>, needle: Seq<char>)
    ensures
        occurs(hay, needle) <==> first(hay, needle) is Some,
{
    lemma_first_from(hay, needle, 0);
    if occurs(hay, needle) {
        let k = choose|k: int| occurs_at(hay, needle, k);
        assert(!(forall|j: int| 0 <= j ==> !occurs_at(hay, needle, j)));
    }
}

/// Where a field stops lies between its start and the end of the text, and
/// no `c` stands before it.
pub proof fn lemma_stop(hay: Seq<char>, c: char, from: int)
    requires
        0 <= from <= hay.len(),
    ensures
        from <= stop(hay, c, from) <= hay.len(),
        forall|j: int| from <= j < stop(hay, c, from) ==> hay[j] != c,
        stop(hay, c, from) < hay.len() ==> hay[stop(hay, c, from)] == c,
{
    lemma_first_from(hay, seq![c], from);
    let e = stop(hay, c, from);
    assert forall|j: int| from <= j < e implies hay[j] != c by {
        if hay[j] == c {
            assert(hay.subrange(j, j + 1) =~= seq![c]);
            assert(occurs_at(hay, seq![c], j));
        }
    }
    if e < hay.len() {
        assert(hay.subrange(e, e + 1)[0] == hay[e]);
    }
}

/// A field stops at `end` where no `c` stands before `end` and `end` is a
/// `c` or the end of the text.
pub proof fn lemma_stop_at(hay: Seq<char>, c: char, from: int, end: int)
    requires
        0 <= from <= end <= hay.len(),
        forall|j: int| from <= j < end ==> hay[j] != c,
        end < hay.len() ==> hay[end] == c,
    ensures
        stop(hay, c, from) == end,
{
    assert forall|j: int| from <= j < end implies !occurs_at(hay, seq![c], j) by {
        if occurs_at(hay, seq![c], j) {
            assert(hay.subrange(j, j + 1)[0] == hay[j]);
        }
    }
    if end < hay.len() {
        assert(hay.subrange(end, end + 1) =~= seq![c]);
        lemma_first_at(hay, seq![c], from, end);
    } else {
        lemma_first_from(hay, seq![c], from);
    }
}

/// The characters of `s`, one by one.
pub fn to_chars(s: &str) -> (v: Vec<char>)
    ensures
        v@ == s@,
{
    let mut v: Vec<char> = Vec::new();
    for c in it: s.chars()
        invariant
            v@ == it.seq().take(it.index()),
            it.seq() == s@,
    {
        v.push(c);
    }
    v
}

/// The characters of `hay` from `from` up to `to`.
pub fn slice(hay: &Vec<char>, from: usize, to: usize) -> (v: Vec<char>)
    requires
        from <= to <= hay.len(),
    ensures
        v@ == hay@.subrange(from as int, to as int),
{
    let mut v: Vec<char> = Vec::new();
    let mut i: usize = from;
    while i < to
        invariant
            from <= i <= to <= hay.len(),
            v@ == hay@.subrange(from as int, i as int),
        decreases to - i,
    {
        v.push(hay[i]);
        i += 1;
    }
    v
}

/// Whether `needle` stands in `hay` at index `i`.
pub fn matches_at(hay: &Vec<char>, needle: &Vec<char>, i: usize) -> (b: bool)
    ensures
        b == occurs_at(hay@, needle@, i as int),
{
    if needle.len() > hay.len() || i > hay.len() - needle.len() {
        return false;
    }
    let mut k: usize = 0;
    while k < needle.len()
        invariant
            k <= needle.len(),
            i + needle.len() <= hay.len(),
            forall|j: int| 0 <= j < k ==> hay@[i + j] == needle@[j],
        decreases needle.len() - k,
    {
        if hay[i + k] != needle[k] {
            assert(hay@.subrange(i as int, i + needle@.len())[k as int] == hay@[i + k]);
            return false;
        }
        k += 1;
    }
    assert(hay@.subrange(i as int, i + needle@.len()) =~= needle@);
    true
}

/// The least index not below `from` at which `needle` stands in `hay`.
pub fn find_from(hay: &Vec<char>, needle: &Vec<char>, from: usize) -> (r: Option<usize>)
    ensures
        match r {
            Some(i) => first_from(hay@, needle@, from as int) == Some(i as int),
            None => first_from(hay@, needle@, from as int) is None,
        },
{
    if needle.len() > hay.len() {
        proof {
            lemma_first_from(hay@, needle@, from as int);
        }
        return None;
    }
    let last: usize = hay.len() - needle.len();
    let mut i: usize = from;
    while i <= last
        invariant
            from <= i,
            last == hay.len() - needle.len(),
            forall|j: int| from <= j < i ==> !occurs_at(hay@, needle@, j),
        decreases last + 1 - i,
    {
        if matches_at(hay, needle, i) {
            proof {
                lemma_first_at(hay@, needle@, from as int, i as int);
            }
            return Some(i);
        }
        if i == last {
            proof {
                lemma_first_from(hay@, needle@, from as int);
            }
            return None;
        }
        i += 1;
    }
    proof {
        lemma_first_from(hay@, needle@, from as int);
    }
    None
}

/// The least index at which `needle` stands in `hay`.
pub fn find(hay: &Vec<char>, needle: &Vec<char>) -> (r: Option<usize>)
    ensures
        match r {
            Some(i) => first(hay@, needle@) == Some(i as int),
            None => first(hay@, needle@) is None,
        },
{
    find_from(hay, needle, 0)
}

/// Whether `needle` stands somewhere in `hay`.
pub fn contains(hay: &Vec<char>, needle: &Vec<char>) -> (b: bool)
    ensures
        b == occurs(hay@, needle@),
{
    proof {
        lemma_occurs_first(hay@, needle@);
    }
    find(hay, needle).is_some()
}

/// Where the field that starts at `from` and that `c` ends stops.
pub fn find_stop(hay: &Vec<char>, c: char, from: usize) -> (e: usize)
    requires
        from <= hay.len(),
    ensures
        e as int == stop(hay@, c, from as int),
        from <= e <= hay.len(),
{
    let mut i: usize = from;
    while i < hay.len()
        invariant
            from <= i <= hay.len(),
            forall|j: int| from <= j < i ==> !occurs_at(hay@, seq![c], j),
        decreases hay.len() - i,
    {
        if hay[i] == c {
            proof {
                assert(hay@.subrange(i as int, i + 1) =~= seq![c]);
                lemma_first_at(hay@, seq![c], from as int, i as int);
            }
            return i;
        }
        proof {
            assert(hay@.subrange(i as int, i + 1)[0] == hay@[i as int]);
        }
        i += 1;
    }
    proof {
        lemma_first_from(hay@, seq![c], from as int);
    }
    i
}

/// Whether every character is an ASCII digit.
pub fn is_all_digits(s: &Vec<char>) -> (b: bool)
    ensures
        b == all_digits(s@),
{
    let mut i: usize = 0;
    while i < s.len()
        invariant
            i <= s.len(),
            forall|j: int| 0 <= j < i ==> '0' <= #[trigger] s@[j] <= '9',
        decreases s.len() - i,
    {
        if s[i] < '0' || s[i] > '9' {
            return false;
        }
        i += 1;
    }
    true
}

/// Whether `c` is white space.
pub fn is_whitespace(c: char) -> (b: bool)
    ensures
        b == is_space(c),
{
    ('\u{9}' <= c && c <= '\u{d}') || c == ' ' || c == '\u{85}' || c == '\u{a0}' || c
        == '\u{1680}' || ('\u{2000}' <= c && c <= '\u{200a}') || c == '\u{2028}' || c
        == '\u{2029}' || c == '\u{202f}' || c == '\u{205f}' || c == '\u{3000}'
}

/// Where `s` without the white space around it starts and ends.
pub fn trim(s: &Vec<char>) -> (r: (usize, usize))
    ensures
        r.0 <= r.1 <= s.len(),
        s@.subrange(r.0 as int, r.1 as int) == trimmed(s@),
{
    let mut start: usize = 0;
    assert(s@.skip(0) =~= s@);
    while start < s.len() && is_whitespace(s[start])
        invariant
            start <= s.len(),
            trimmed_start(s@) == trimmed_start(s@.skip(start as int)),
        decreases s.len() - start,
    {
        assert(s@.skip(start as int).drop_first() =~= s@.skip(start + 1));
        start += 1;
    }
    let mut end: usize = s.len();
    assert(s@.subrange(start as int, end as int) =~= s@.skip(start as int));
    while start < end && is_whitespace(s[end - 1])
        invariant
            start <= end <= s.len(),
            trimmed_start(s@) == s@.skip(start as int),
            trimmed(s@) == trimmed_end(s@.subrange(start as int, end as int)),
        decreases end - start,
    {
        assert(s@.subrange(start as int, end as int).drop_last() =~= s@.subrange(
            start as int,
            end - 1,
        ));
        end -= 1;
    }
    (start, end)
}

/// Where `s` without the run of `c` it starts with starts.
pub fn skip_leading(s: &Vec<char>, c: char) -> (start: usize)
    ensures
        start <= s.len(),
        s@.skip(start as int) == without_leading(s@, c),
{
    let mut start: usize = 0;
    assert(s@.skip(0) =~= s@);
    while start < s.len() && s[start] == c
        invariant
            start <= s.len(),
            without_leading(s@, c) == without_leading(s@.skip(start as int), c),
        decreases s.len() - start,
    {
        assert(s@.skip(start as int).drop_first() =~= s@.skip(start + 1));
        start += 1;
    }
    start
}

} // verus!
