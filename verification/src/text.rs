//! Text helpers shared by the parsers: the characters of a string, lossy
//! decoding of received bytes, whitespace, trimming, lines and joining.

use vstd::prelude::*;
use crate::search::{
    chars_end_with,
    contains,
    contains_chars,
    ends_with,
    occurs_at,
    position,
    position_of_char,
};

verus! {

/// `String::push` appends one character to the string.
pub assume_specification[ String::push ](s: &mut String, ch: char)
    ensures
        final(s)@ == old(s)@.push(ch),
;

/// The text that lossy UTF-8 decoding makes of a byte sequence: the decoded
/// characters, with U+FFFD standing for every invalid sequence.
pub uninterp spec fn utf8_lossy(bytes: Seq<u8>) -> Seq<char>;

/// `String::from_utf8_lossy`, made into an owned string. The text depends on
/// the bytes alone; nothing more is claimed of it here.
#[verifier::external_body]
pub(crate) fn decode_lossy(bytes: &[u8]) -> (s: String)
    ensures
        s@ == utf8_lossy(bytes@),
{
    String::from_utf8_lossy(bytes).into_owned()
}

/// The characters of `s`, in order.
pub fn chars_of(s: &str) -> (v: Vec<char>)
    ensures
        v@ == s@,
{
    let mut v: Vec<char> = Vec::new();
    for c in it: s.chars()
        invariant
            v@ == it.seq().take(it.index() as int),
            it.seq() == s@,
    {
        v.push(c);
    }
    v
}

/// The string made of the characters of `v`, in order.
pub fn string_of(v: &[char]) -> (s: String)
    ensures
        s@ == v@,
{
    let mut s = String::new();
    let mut i: usize = 0;
    while i < v.len()
        invariant
            i <= v.len(),
            s@ == v@.take(i as int),
        decreases v.len() - i,
    {
        s.push(v[i]);
        i += 1;
    }
    s
}

/// The characters of `v` from index `from` up to, not including, `to`.
pub fn copy_chars(v: &[char], from: usize, to: usize) -> (r: Vec<char>)
    requires
        from <= to <= v.len(),
    ensures
        r@ == v@.subrange(from as int, to as int),
{
    let mut r: Vec<char> = Vec::new();
    let mut i: usize = from;
    while i < to
        invariant
            from <= i <= to <= v.len(),
            r@ == v@.subrange(from as int, i as int),
        decreases to - i,
    {
        r.push(v[i]);
        i += 1;
    }
    r
}

/// Whether the text holds the given token anywhere.
pub fn text_contains(hay: &[char], token: &str) -> (r: bool)
    ensures
        r == contains(hay@, token@),
{
    let needle = chars_of(token);
    contains_chars(hay, needle.as_slice())
}

/// Whether the text ends with the given token.
pub fn text_ends_with(hay: &[char], token: &str) -> (r: bool)
    ensures
        r == ends_with(hay@, token@),
{
    let tail = chars_of(token);
    chars_end_with(hay, tail.as_slice())
}

/// `prefix` lies at the very start of `s`.
pub open spec fn has_prefix(s: Seq<char>, prefix: Seq<char>) -> bool {
    occurs_at(s, prefix, 0)
}

/// Whether the text begins with the given token.
pub fn text_starts_with(hay: &[char], token: &str) -> (r: bool)
    ensures
        r == has_prefix(hay@, token@),
{
    let needle = chars_of(token);
    if needle.len() > hay.len() {
        return false;
    }
    let mut j: usize = 0;
    while j < needle.len()
        invariant
            j <= needle.len() <= hay.len(),
            needle@ == token@,
            forall|k: int| 0 <= k < j ==> hay@[k] == needle@[k],
        decreases needle.len() - j,
    {
        if hay[j] != needle[j] {
            proof {
                let w = hay@.subrange(0, 0 + needle@.len() as int);
                assert(w[j as int] == hay@[j as int]);
                assert(!occurs_at(hay@, needle@, 0));
            }
            return false;
        }
        j += 1;
    }
    true
}

/// The characters with the Unicode property White_Space.
pub open spec fn is_space(c: char) -> bool {
    let n = c as u32;
    ||| 0x09 <= n <= 0x0D
    ||| n == 0x20
    ||| n == 0x85
    ||| n == 0xA0
    ||| n == 0x1680
    ||| 0x2000 <= n <= 0x200A
    ||| n == 0x2028
    ||| n == 0x2029
    ||| n == 0x202F
    ||| n == 0x205F
    ||| n == 0x3000
}

/// Whether `c` is a white-space character.
pub fn is_whitespace(c: char) -> (r: bool)
    ensures
        r == is_space(c),
{
    let n: u32 = c as u32;
    (0x09 <= n && n <= 0x0D) || n == 0x20 || n == 0x85 || n == 0xA0 || n == 0x1680 || (0x2000 <= n
        && n <= 0x200A) || n == 0x2028 || n == 0x2029 || n == 0x202F || n == 0x205F || n == 0x3000
}

/// `s` without its leading white space.
pub open spec fn trim_start(s: Seq<char>) -> Seq<char>
    decreases s.len(),
{
    if s.len() > 0 && is_space(s.first()) {
        trim_start(s.drop_first())
    } else {
        s
    }
}

/// `s` without its trailing white space.
pub open spec fn trim_end(s: Seq<char>) -> Seq<char>
    decreases s.len(),
{
    if s.len() > 0 && is_space(s.last()) {
        trim_end(s.drop_last())
    } else {
        s
    }
}

/// `s` without the white space at either end.
pub open spec fn trimmed(s: Seq<char>) -> Seq<char> {
    trim_end(trim_start(s))
}

/// What is cut from the front is white space, and what is left does not
/// begin with any.
pub proof fn lemma_trim_start(s: Seq<char>)
    ensures
        trim_start(s).len() <= s.len(),
        trim_start(s) == s.skip(s.len() - trim_start(s).len()),
        forall|i: int| 0 <= i < s.len() - trim_start(s).len() ==> is_space(#[trigger] s[i]),
        trim_start(s).len() > 0 ==> !is_space(trim_start(s).first()),
    decreases s.len(),
{
    if s.len() > 0 && is_space(s.first()) {
        let rest = s.drop_first();
        lemma_trim_start(rest);
        let cut = rest.len() - trim_start(rest).len();
        assert(rest.skip(cut) =~= s.skip(cut + 1));
        assert forall|i: int| 0 <= i < s.len() - trim_start(s).len() implies is_space(
            #[trigger] s[i],
        ) by {
            if i > 0 {
                assert(s[i] == rest[i - 1]);
            }
        }
    } else {
        assert(s.skip(0) =~= s);
    }
}

/// What is cut from the back is white space, and what is left does not end
/// with any.
pub proof fn lemma_trim_end(s: Seq<char>)
    ensures
        trim_end(s).len() <= s.len(),
        trim_end(s) == s.take(trim_end(s).len() as int),
        forall|i: int| trim_end(s).len() <= i < s.len() ==> is_space(#[trigger] s[i]),
        trim_end(s).len() > 0 ==> !is_space(trim_end(s).last()),
    decreases s.len(),
{
    if s.len() > 0 && is_space(s.last()) {
        let rest = s.drop_last();
        lemma_trim_end(rest);
        assert(rest.take(trim_end(rest).len() as int) =~= s.take(trim_end(rest).len() as int));
        assert forall|i: int| trim_end(s).len() <= i < s.len() implies is_space(
            #[trigger] s[i],
        ) by {
            if i < s.len() - 1 {
                assert(s[i] == rest[i]);
            }
        }
    } else {
        assert(s.take(s.len() as int) =~= s);
    }
}

/// A trimmed text is one piece of the text it was cut from; everything
/// before and after that piece is white space, and the piece itself neither
/// begins nor ends with white space.
pub proof fn lemma_trimmed(s: Seq<char>)
    ensures
        ({
            let from = s.len() - trim_start(s).len();
            let to = from + trimmed(s).len();
            &&& 0 <= from <= to <= s.len()
            &&& trimmed(s) == s.subrange(from, to)
            &&& forall|i: int| 0 <= i < from ==> is_space(#[trigger] s[i])
            &&& forall|i: int| to <= i < s.len() ==> is_space(#[trigger] s[i])
            &&& trimmed(s).len() > 0 ==> !is_space(trimmed(s).first()) && !is_space(
                trimmed(s).last(),
            )
        }),
{
    let front = trim_start(s);
    lemma_trim_start(s);
    lemma_trim_end(front);
    let from = s.len() - front.len();
    let to = from + trimmed(s).len();
    assert(front.take(trimmed(s).len() as int) =~= s.subrange(from, to));
    assert forall|i: int| to <= i < s.len() implies is_space(#[trigger] s[i]) by {
        assert(s[i] == front[i - from]);
    }
    if trimmed(s).len() > 0 {
        assert(trimmed(s).first() == front.first());
    }
}

/// The text without the white space at either end.
pub fn trim(v: &[char]) -> (r: Vec<char>)
    ensures
        r@ == trimmed(v@),
{
    let mut a: usize = 0;
    proof {
        assert(v@.skip(0) =~= v@);
    }
    while a < v.len() && is_whitespace(v[a])
        invariant
            a <= v.len(),
            trim_start(v@) == trim_start(v@.skip(a as int)),
        decreases v.len() - a,
    {
        proof {
            assert(v@.skip(a as int).drop_first() =~= v@.skip(a + 1));
        }
        a += 1;
    }
    proof {
        assert(trim_start(v@) == v@.skip(a as int));
        assert(v@.skip(a as int) =~= v@.subrange(a as int, v@.len() as int));
    }
    let mut b: usize = v.len();
    while b > a && is_whitespace(v[b - 1])
        invariant
            a <= b <= v.len(),
            trimmed(v@) == trim_end(v@.subrange(a as int, b as int)),
        decreases b,
    {
        proof {
            assert(v@.subrange(a as int, b as int).drop_last() =~= v@.subrange(
                a as int,
                b - 1,
            ));
        }
        b -= 1;
    }
    copy_chars(v, a, b)
}

/// A line without the carriage return that may end it.
pub open spec fn strip_cr(line: Seq<char>) -> Seq<char> {
    if line.len() > 0 && line.last() == '\r' {
        line.drop_last()
    } else {
        line
    }
}

/// The lines of a text. A line ends at a line feed; the line feed, and a
/// carriage return right before it, belong to no line. Text after the last
/// line feed is a line of its own, kept as it stands; an empty rest is none.
pub open spec fn lines(s: Seq<char>) -> Seq<Seq<char>>
    decreases s.len(),
{
    if s.len() == 0 {
        Seq::empty()
    } else {
        let i = position(s, '\n');
        if 0 <= i < s.len() {
            seq![strip_cr(s.take(i))] + lines(s.skip(i + 1))
        } else {
            seq![s]
        }
    }
}

/// The rows of a table of characters, each as a sequence.
pub open spec fn rows(table: Seq<Vec<char>>) -> Seq<Seq<char>> {
    table.map_values(|row: Vec<char>| row@)
}

/// The lines of the text.
pub fn split_lines(v: &[char]) -> (r: Vec<Vec<char>>)
    ensures
        rows(r@) == lines(v@),
{
    let mut r: Vec<Vec<char>> = Vec::new();
    let mut pos: usize = 0;
    proof {
        assert(v@.skip(0) =~= v@);
        assert(rows(r@) =~= Seq::<Seq<char>>::empty());
    }
    while pos < v.len()
        invariant
            pos <= v.len(),
            lines(v@) == rows(r@) + lines(v@.skip(pos as int)),
        decreases v.len() - pos,
    {
        let ghost before = rows(r@);
        let ghost rest = v@.skip(pos as int);
        let nl: usize = position_of_char(v, pos, '\n');
        proof {
            crate::search::lemma_position(rest, '\n');
        }
        if nl < v.len() {
            let end: usize = if nl > pos && v[nl - 1] == '\r' {
                nl - 1
            } else {
                nl
            };
            let line = copy_chars(v, pos, end);
            proof {
                assert(rest.take(nl - pos) =~= v@.subrange(pos as int, nl as int));
                assert(strip_cr(rest.take(nl - pos)) =~= line@);
                assert(rest.skip(nl - pos + 1) =~= v@.skip(nl + 1));
            }
            r.push(line);
            proof {
                assert(rows(r@) =~= before + seq![line@]);
            }
            pos = nl + 1;
        } else {
            let line = copy_chars(v, pos, v.len());
            proof {
                assert(line@ =~= rest);
                assert(lines(v@.skip(v@.len() as int)) =~= Seq::<Seq<char>>::empty());
            }
            r.push(line);
            proof {
                assert(rows(r@) =~= before + seq![line@]);
            }
            pos = v.len();
        }
    }
    proof {
        assert(lines(v@.skip(pos as int)) =~= Seq::<Seq<char>>::empty());
    }
    r
}

/// The rows put one after another, with `sep` between neighbours.
pub open spec fn joined(rows: Seq<Seq<char>>, sep: Seq<char>) -> Seq<char>
    decreases rows.len(),
{
    if rows.len() == 0 {
        Seq::empty()
    } else if rows.len() == 1 {
        rows[0]
    } else {
        joined(rows.drop_last(), sep) + sep + rows.last()
    }
}

/// The rows from index `from` up to `to`, joined by `sep`.
pub fn join_rows(table: &Vec<Vec<char>>, from: usize, to: usize, sep: &[char]) -> (r: Vec<char>)
    requires
        from <= to <= table.len(),
    ensures
        r@ == joined(rows(table@).subrange(from as int, to as int), sep@),
{
    let mut r: Vec<char> = Vec::new();
    let mut i: usize = from;
    while i < to
        invariant
            from <= i <= to <= table.len(),
            r@ == joined(rows(table@).subrange(from as int, i as int), sep@),
        decreases to - i,
    {
        let ghost done = rows(table@).subrange(from as int, i as int);
        let ghost next = rows(table@).subrange(from as int, i + 1);
        proof {
            assert(next.drop_last() =~= done);
            assert(next.last() == table@[i as int]@);
        }
        if i > from {
            let mut k: usize = 0;
            while k < sep.len()
                invariant
                    k <= sep.len(),
                    r@ == joined(done, sep@) + sep@.take(k as int),
                decreases sep.len() - k,
            {
                r.push(sep[k]);
                k += 1;
            }
            proof {
                assert(sep@.take(sep@.len() as int) =~= sep@);
            }
        }
        let row = &table[i];
        let mut j: usize = 0;
        while j < row.len()
            invariant
                j <= row.len(),
                r@ == (if i > from {
                    joined(done, sep@) + sep@
                } else {
                    Seq::<char>::empty()
                }) + row@.take(j as int),
            decreases row.len() - j,
        {
            r.push(row[j]);
            j += 1;
        }
        proof {
            assert(row@.take(row@.len() as int) =~= row@);
            assert(r@ =~= joined(next, sep@));
        }
        i += 1;
    }
    r
}

/// The texts of a list of strings, each as a sequence.
pub open spec fn texts(list: Seq<String>) -> Seq<Seq<char>> {
    list.map_values(|s: String| s@)
}

/// The rows as strings.
pub fn to_strings(table: &Vec<Vec<char>>) -> (r: Vec<String>)
    ensures
        texts(r@) == rows(table@),
{
    let mut r: Vec<String> = Vec::new();
    let mut i: usize = 0;
    while i < table.len()
        invariant
            i <= table.len(),
            texts(r@) == rows(table@).take(i as int),
        decreases table.len() - i,
    {
        let ghost before = texts(r@);
        let s = string_of(table[i].as_slice());
        r.push(s);
        proof {
            assert(texts(r@) =~= before.push(s@));
            assert(rows(table@).take(i + 1) =~= rows(table@).take(i as int).push(table@[i as int]@));
        }
        i += 1;
    }
    proof {
        assert(rows(table@).take(table@.len() as int) =~= rows(table@));
    }
    r
}

} // verus!
