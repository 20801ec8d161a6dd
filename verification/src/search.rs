//! Finding one sequence inside another: the model shared by the byte-level
//! frame search and the text-level parsers, and the two executable searches.

use vstd::prelude::*;

verus! {

/// `needle` lies in `hay` starting at index `i`.
pub open spec fn occurs_at<T>(hay: Seq<T>, needle: Seq<T>, i: int) -> bool {
    &&& 0 <= i
    &&& i + needle.len() <= hay.len()
    &&& hay.subrange(i, i + needle.len()) =~= needle
}

/// `needle` lies somewhere in `hay`. The empty needle lies in every sequence.
pub open spec fn contains<T>(hay: Seq<T>, needle: Seq<T>) -> bool {
    exists|i: int| occurs_at(hay, needle, i)
}

/// `tail` lies at the very end of `hay`.
pub open spec fn ends_with<T>(hay: Seq<T>, tail: Seq<T>) -> bool {
    occurs_at(hay, tail, hay.len() - tail.len())
}

/// The index just behind the last place of `hay` that holds `x`, or zero if
/// none does.
pub open spec fn after_last<T>(hay: Seq<T>, x: T) -> int
    decreases hay.len(),
{
    if hay.len() == 0 {
        0
    } else if hay.last() == x {
        hay.len() as int
    } else {
        after_last(hay.drop_last(), x)
    }
}

/// The least index at or after `start` where `needle` lies in `hay`.
pub open spec fn first_index_from<T>(hay: Seq<T>, needle: Seq<T>, start: int) -> Option<int>
    decreases hay.len() - start,
{
    if start < 0 || start + needle.len() > hay.len() {
        None
    } else if occurs_at(hay, needle, start) {
        Some(start)
    } else {
        first_index_from(hay, needle, start + 1)
    }
}

/// The least index where `needle` lies in `hay`.
pub open spec fn first_index<T>(hay: Seq<T>, needle: Seq<T>) -> Option<int> {
    first_index_from(hay, needle, 0)
}

/// The least index of `hay` that holds `x`, or the length of `hay` if none does.
pub open spec fn position<T>(hay: Seq<T>, x: T) -> int
    decreases hay.len(),
{
    if hay.len() == 0 {
        0
    } else if hay[0] == x {
        0
    } else {
        1 + position(hay.drop_first(), x)
    }
}

/// `first_index_from` finds the least occurrence at or after `start`, and
/// finds none exactly when there is none.
pub proof fn lemma_first_index_from<T>(hay: Seq<T>, needle: Seq<T>, start: int)
    requires
        0 <= start,
    ensures
        match first_index_from(hay, needle, start) {
            Some(i) => {
                &&& start <= i
                &&& occurs_at(hay, needle, i)
                &&& forall|j: int| start <= j < i ==> !occurs_at(hay, needle, j)
            },
            None => forall|j: int| start <= j ==> !occurs_at(hay, needle, j),
        },
    decreases hay.len() - start,
{
    if start + needle.len() > hay.len() {
    } else if occurs_at(hay, needle, start) {
    } else {
        lemma_first_index_from(hay, needle, start + 1);
    }
}

/// `first_index` is `Some` exactly when the needle is contained, and then
/// names its first occurrence.
pub proof fn lemma_first_index<T>(hay: Seq<T>, needle: Seq<T>)
    ensures
        first_index(hay, needle) is Some <==> contains(hay, needle),
        first_index(hay, needle) matches Some(i) ==> {
            &&& occurs_at(hay, needle, i)
            &&& forall|j: int| 0 <= j < i ==> !occurs_at(hay, needle, j)
        },
{
    lemma_first_index_from(hay, needle, 0);
}

/// `position` stays within the sequence, points at `x` when it is inside,
/// and nothing before it is `x`.
pub proof fn lemma_position<T>(hay: Seq<T>, x: T)
    ensures
        0 <= position(hay, x) <= hay.len(),
        position(hay, x) < hay.len() ==> hay[position(hay, x)] == x,
        forall|j: int| 0 <= j < position(hay, x) ==> hay[j] != x,
    decreases hay.len(),
{
    if hay.len() > 0 && hay[0] != x {
        let rest = hay.drop_first();
        lemma_position(rest, x);
        assert forall|j: int| 0 <= j < position(hay, x) implies hay[j] != x by {
            if j > 0 {
                assert(hay[j] == rest[j - 1]);
            }
        }
    }
}

/// `after_last` stays within the sequence, stands right behind an `x`
/// unless it is zero, and nothing from it on is `x`.
pub proof fn lemma_after_last<T>(hay: Seq<T>, x: T)
    ensures
        0 <= after_last(hay, x) <= hay.len(),
        after_last(hay, x) > 0 ==> hay[after_last(hay, x) - 1] == x,
        forall|j: int| after_last(hay, x) <= j < hay.len() ==> hay[j] != x,
    decreases hay.len(),
{
    if hay.len() > 0 && hay.last() != x {
        let front = hay.drop_last();
        lemma_after_last(front, x);
        assert forall|j: int| after_last(hay, x) <= j < hay.len() implies hay[j] != x by {
            if j < hay.len() - 1 {
                assert(hay[j] == front[j]);
            }
        }
    }
}

/// Whether `needle` lies in `hay` at index `i`.
fn bytes_match_at(hay: &[u8], needle: &[u8], i: usize) -> (r: bool)
    requires
        i + needle.len() <= hay.len(),
    ensures
        r == occurs_at(hay@, needle@, i as int),
{
    let mut j: usize = 0;
    while j < needle.len()
        invariant
            j <= needle.len(),
            i + needle.len() <= hay.len(),
            forall|k: int| 0 <= k < j ==> hay@[i + k] == needle@[k],
        decreases needle.len() - j,
    {
        if hay[i + j] != needle[j] {
            proof {
                let w = hay@.subrange(i as int, i + needle.len());
                assert(w[j as int] == hay@[i + j]);
            }
            return false;
        }
        j += 1;
    }
    true
}

/// The first index at which `needle` lies in `hay`.
pub fn find_bytes(hay: &[u8], needle: &[u8]) -> (r: Option<usize>)
    ensures
        match r {
            Some(i) => first_index(hay@, needle@) == Some(i as int),
            None => first_index(hay@, needle@) is None,
        },
{
    if needle.len() > hay.len() {
        return None;
    }
    let last: usize = hay.len() - needle.len();
    let mut i: usize = 0;
    while i <= last
        invariant
            last == hay.len() - needle.len(),
            i <= last + 1,
            first_index(hay@, needle@) == first_index_from(hay@, needle@, i as int),
        decreases last + 1 - i,
    {
        if bytes_match_at(hay, needle, i) {
            return Some(i);
        }
        i += 1;
    }
    None
}

/// Whether `needle` lies anywhere in `hay`.
pub fn contains_bytes(hay: &[u8], needle: &[u8]) -> (r: bool)
    ensures
        r == contains(hay@, needle@),
{
    proof {
        lemma_first_index(hay@, needle@);
    }
    find_bytes(hay, needle).is_some()
}

/// Whether `tail` lies at the very end of `hay`.
pub fn bytes_end_with(hay: &[u8], tail: &[u8]) -> (r: bool)
    ensures
        r == ends_with(hay@, tail@),
{
    if tail.len() > hay.len() {
        return false;
    }
    bytes_match_at(hay, tail, hay.len() - tail.len())
}

/// Whether `needle` lies in `hay` at index `i`.
fn chars_match_at(hay: &[char], needle: &[char], i: usize) -> (r: bool)
    requires
        i + needle.len() <= hay.len(),
    ensures
        r == occurs_at(hay@, needle@, i as int),
{
    let mut j: usize = 0;
    while j < needle.len()
        invariant
            j <= needle.len(),
            i + needle.len() <= hay.len(),
            forall|k: int| 0 <= k < j ==> hay@[i + k] == needle@[k],
        decreases needle.len() - j,
    {
        if hay[i + j] != needle[j] {
            proof {
                let w = hay@.subrange(i as int, i + needle.len());
                assert(w[j as int] == hay@[i + j]);
            }
            return false;
        }
        j += 1;
    }
    true
}

/// The first index at which `needle` lies in `hay`.
pub fn find_chars(hay: &[char], needle: &[char]) -> (r: Option<usize>)
    ensures
        match r {
            Some(i) => first_index(hay@, needle@) == Some(i as int),
            None => first_index(hay@, needle@) is None,
        },
{
    if needle.len() > hay.len() {
        return None;
    }
    let last: usize = hay.len() - needle.len();
    let mut i: usize = 0;
    while i <= last
        invariant
            last == hay.len() - needle.len(),
            i <= last + 1,
            first_index(hay@, needle@) == first_index_from(hay@, needle@, i as int),
        decreases last + 1 - i,
    {
        if chars_match_at(hay, needle, i) {
            return Some(i);
        }
        i += 1;
    }
    None
}

/// Whether `needle` lies anywhere in `hay`.
pub fn contains_chars(hay: &[char], needle: &[char]) -> (r: bool)
    ensures
        r == contains(hay@, needle@),
{
    proof {
        lemma_first_index(hay@, needle@);
    }
    find_chars(hay, needle).is_some()
}

/// Whether `tail` lies at the very end of `hay`.
pub fn chars_end_with(hay: &[char], tail: &[char]) -> (r: bool)
    ensures
        r == ends_with(hay@, tail@),
{
    if tail.len() > hay.len() {
        return false;
    }
    chars_match_at(hay, tail, hay.len() - tail.len())
}

/// The index just behind the last place before `to` that holds `x`, or zero
/// if none does.
pub fn after_last_char(hay: &[char], to: usize, x: char) -> (r: usize)
    requires
        to <= hay.len(),
    ensures
        r == after_last(hay@.take(to as int), x),
        r <= to,
{
    let mut i: usize = to;
    while i > 0
        invariant
            i <= to <= hay.len(),
            after_last(hay@.take(to as int), x) == after_last(hay@.take(i as int), x),
        decreases i,
    {
        if hay[i - 1] == x {
            return i;
        }
        proof {
            assert(hay@.take(i as int).drop_last() =~= hay@.take(i - 1));
        }
        i -= 1;
    }
    i
}

/// The first index at or after `from` that holds `x`, or the length of `hay`.
pub fn position_of_char(hay: &[char], from: usize, x: char) -> (r: usize)
    requires
        from <= hay.len(),
    ensures
        r == from + position(hay@.skip(from as int), x),
        from <= r <= hay.len(),
{
    let mut i: usize = from;
    while i < hay.len()
        invariant
            from <= i <= hay.len(),
            from + position(hay@.skip(from as int), x) == i + position(hay@.skip(i as int), x),
        decreases hay.len() - i,
    {
        if hay[i] == x {
            return i;
        }
        proof {
            assert(hay@.skip(i as int).drop_first() =~= hay@.skip(i + 1));
        }
        i += 1;
    }
    i
}

} // verus!
