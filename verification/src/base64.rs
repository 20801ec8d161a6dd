//! The binary-to-text encoding used to move file content through a text-only
//! channel: three bytes become four characters of the alphabet
//! `A-Z a-z 0-9 + /`, and `=` pads the last group.

use vstd::prelude::*;
use crate::text::{chars_of, is_space, is_whitespace};

verus! {

/// The character that stands for a six-bit value.
pub open spec fn sextet_char(v: u8) -> char {
    if v < 26 {
        ((65 + v) as u8) as char
    } else if v < 52 {
        ((71 + v) as u8) as char
    } else if v < 62 {
        ((v - 4) as u8) as char
    } else if v == 62 {
        '+'
    } else {
        '/'
    }
}

/// The six-bit value that a character stands for; zero for every character
/// outside the alphabet.
pub open spec fn char_value(c: char) -> u8 {
    let n = c as u32;
    if 65 <= n <= 90 {
        (n - 65) as u8
    } else if 97 <= n <= 122 {
        (n - 71) as u8
    } else if 48 <= n <= 57 {
        (n + 4) as u8
    } else if n == 43 {
        62
    } else if n == 47 {
        63
    } else {
        0
    }
}

/// The byte of `data` at index `i`, or zero past its end.
pub open spec fn byte_or_zero(data: Seq<u8>, i: int) -> u8 {
    if 0 <= i < data.len() {
        data[i]
    } else {
        0
    }
}

/// The number of characters that encode `n` bytes.
pub open spec fn encoded_len(n: nat) -> nat {
    4 * ((n + 2) / 3)
}

/// The character at index `i` of the encoding of `data`.
pub open spec fn encoded_char(data: Seq<u8>, i: int) -> char {
    let g = i / 4;
    let b0 = byte_or_zero(data, 3 * g);
    let b1 = byte_or_zero(data, 3 * g + 1);
    let b2 = byte_or_zero(data, 3 * g + 2);
    if i % 4 == 0 {
        sextet_char(b0 >> 2)
    } else if i % 4 == 1 {
        sextet_char(((b0 & 0x03) << 4) | (b1 >> 4))
    } else if i % 4 == 2 {
        if 3 * g + 1 < data.len() {
            sextet_char(((b1 & 0x0f) << 2) | (b2 >> 6))
        } else {
            '='
        }
    } else {
        if 3 * g + 2 < data.len() {
            sextet_char(b2 & 0x3f)
        } else {
            '='
        }
    }
}

/// The encoding of `data`: four characters for every group of three bytes,
/// the last group padded with `=` (two for one byte left, one for two).
pub open spec fn encode(data: Seq<u8>) -> Seq<char> {
    Seq::new(encoded_len(data.len()), |i: int| encoded_char(data, i))
}

/// A character that carries a value: neither padding nor white space.
pub open spec fn is_significant(c: char) -> bool {
    c != '=' && !is_space(c)
}

/// The characters of `s` that carry a value, in order.
pub open spec fn significant(s: Seq<char>) -> Seq<char> {
    s.filter(|c: char| is_significant(c))
}

/// The value of the character of `c` at index `i`, or zero past its end.
pub open spec fn value_at(c: Seq<char>, i: int) -> u8 {
    if 0 <= i < c.len() {
        char_value(c[i])
    } else {
        0
    }
}

/// The number of bytes that `m` significant characters decode to: three for
/// every four, one for two left over, two for three left over.
pub open spec fn decoded_len(m: nat) -> nat {
    3 * (m / 4) + if m % 4 == 2 {
        1nat
    } else if m % 4 == 3 {
        2nat
    } else {
        0nat
    }
}

/// The byte at index `k` that the significant characters `c` decode to.
pub open spec fn decoded_byte(c: Seq<char>, k: int) -> u8 {
    let g = k / 3;
    let v0 = value_at(c, 4 * g);
    let v1 = value_at(c, 4 * g + 1);
    let v2 = value_at(c, 4 * g + 2);
    let v3 = value_at(c, 4 * g + 3);
    if k % 3 == 0 {
        (v0 << 2) | (v1 >> 4)
    } else if k % 3 == 1 {
        ((v1 & 0x0f) << 4) | (v2 >> 2)
    } else {
        ((v2 & 0x03) << 6) | v3
    }
}

/// The bytes that a text decodes to. Padding and white space are skipped
/// wherever they stand, and a character outside the alphabet counts as zero.
pub open spec fn decode(s: Seq<char>) -> Seq<u8> {
    let c = significant(s);
    Seq::new(decoded_len(c.len()), |k: int| decoded_byte(c, k))
}

/// The six-bit value that a character stands for, zero for a character
/// outside the alphabet.
pub fn base64_char_value(c: char) -> (v: u8)
    ensures
        v == char_value(c),
        v < 64,
{
    let n: u32 = c as u32;
    if 65 <= n && n <= 90 {
        (n - 65) as u8
    } else if 97 <= n && n <= 122 {
        (n - 71) as u8
    } else if 48 <= n && n <= 57 {
        (n + 4) as u8
    } else if n == 43 {
        62
    } else if n == 47 {
        63
    } else {
        0
    }
}

/// The character that stands for a six-bit value.
fn alphabet_char(v: u8) -> (c: char)
    requires
        v < 64,
    ensures
        c == sextet_char(v),
{
    if v < 26 {
        (65 + v) as char
    } else if v < 52 {
        (71 + v) as char
    } else if v < 62 {
        (v - 4) as char
    } else if v == 62 {
        '+'
    } else {
        '/'
    }
}

/// The four six-bit values of a group of three bytes stay below 64, and the
/// three bytes are got back from them.
proof fn lemma_group_bits(b0: u8, b1: u8, b2: u8)
    by (bit_vector)
    ensures
        (b0 >> 2) < 64,
        (((b0 & 0x03) << 4) | (b1 >> 4)) < 64,
        (((b1 & 0x0f) << 2) | (b2 >> 6)) < 64,
        (b2 & 0x3f) < 64,
        ((b0 >> 2) << 2) | ((((b0 & 0x03) << 4) | (b1 >> 4)) >> 4) == b0,
        (((((b0 & 0x03) << 4) | (b1 >> 4)) & 0x0f) << 4) | ((((b1 & 0x0f) << 2) | (b2 >> 6)) >> 2)
            == b1,
        (((((b1 & 0x0f) << 2) | (b2 >> 6)) & 0x03) << 6) | (b2 & 0x3f) == b2,
{
}

/// The encoding of a byte string.
pub fn base64_encode(data: &[u8]) -> (s: String)
    ensures
        s@ == encode(data@),
{
    let len: usize = data.len();
    let groups: usize = len / 3 + if len % 3 != 0 {
        1
    } else {
        0
    };
    let mut s = String::new();
    let mut g: usize = 0;
    while g < groups
        invariant
            len == data.len(),
            groups == (len + 2) / 3,
            g <= groups,
            s@.len() == 4 * g,
            forall|i: int| 0 <= i < 4 * g ==> s@[i] == encoded_char(data@, i),
        decreases groups - g,
    {
        let base: usize = 3 * g;
        let b0: u8 = data[base];
        let b1: u8 = if base + 1 < len {
            data[base + 1]
        } else {
            0
        };
        let b2: u8 = if base + 2 < len {
            data[base + 2]
        } else {
            0
        };
        proof {
            lemma_group_bits(b0, b1, b2);
        }
        let ghost before = s@;
        s.push(alphabet_char(b0 >> 2));
        s.push(alphabet_char(((b0 & 0x03) << 4) | (b1 >> 4)));
        if base + 1 < len {
            s.push(alphabet_char(((b1 & 0x0f) << 2) | (b2 >> 6)));
        } else {
            s.push('=');
        }
        if base + 2 < len {
            s.push(alphabet_char(b2 & 0x3f));
        } else {
            s.push('=');
        }
        proof {
            assert forall|i: int| 0 <= i < 4 * (g + 1) implies s@[i] == encoded_char(data@, i) by {
                if i < 4 * g {
                    assert(s@[i] == before[i]);
                } else {
                    assert(i / 4 == g as int);
                }
            }
        }
        g += 1;
    }
    proof {
        assert(s@ =~= encode(data@));
    }
    s
}

/// The bytes that a text decodes to. Nothing is rejected: padding and white
/// space are skipped, and a character outside the alphabet counts as zero.
pub fn base64_decode(s: &str) -> (r: Vec<u8>)
    ensures
        r@ == decode(s@),
{
    let all = chars_of(s);
    let ghost keep = |c: char| is_significant(c);
    let mut sig: Vec<char> = Vec::new();
    let mut i: usize = 0;
    proof {
        reveal(Seq::filter);
        assert(all@.take(0).filter(keep) =~= Seq::<char>::empty());
    }
    while i < all.len()
        invariant
            i <= all.len(),
            keep == |c: char| is_significant(c),
            sig@ == all@.take(i as int).filter(keep),
        decreases all.len() - i,
    {
        let c: char = all[i];
        proof {
            assert(all@.take(i + 1) =~= all@.take(i as int).push(c));
            all@.take(i as int).lemma_filter_push(c, keep);
        }
        if !(c == '=' || is_whitespace(c)) {
            sig.push(c);
        }
        i += 1;
    }
    proof {
        assert(all@.take(all@.len() as int) =~= all@);
        assert(sig@ == significant(s@));
    }
    let m: usize = sig.len();
    let full: usize = m / 4;
    let mut out: Vec<u8> = Vec::new();
    let mut g: usize = 0;
    while g < full
        invariant
            m == sig.len(),
            full == m / 4,
            g <= full,
            out@.len() == 3 * g,
            forall|k: int| 0 <= k < 3 * g ==> out@[k] == decoded_byte(sig@, k),
        decreases full - g,
    {
        let base: usize = 4 * g;
        let v0: u8 = base64_char_value(sig[base]);
        let v1: u8 = base64_char_value(sig[base + 1]);
        let v2: u8 = base64_char_value(sig[base + 2]);
        let v3: u8 = base64_char_value(sig[base + 3]);
        let ghost before = out@;
        out.push((v0 << 2) | (v1 >> 4));
        out.push(((v1 & 0x0f) << 4) | (v2 >> 2));
        out.push(((v2 & 0x03) << 6) | v3);
        proof {
            assert forall|k: int| 0 <= k < 3 * (g + 1) implies out@[k] == decoded_byte(sig@, k) by {
                if k < 3 * g {
                    assert(out@[k] == before[k]);
                } else {
                    assert(k / 3 == g as int);
                }
            }
        }
        g += 1;
    }
    let base: usize = 4 * full;
    let left: usize = m - base;
    if left >= 2 {
        let v0: u8 = base64_char_value(sig[base]);
        let v1: u8 = base64_char_value(sig[base + 1]);
        out.push((v0 << 2) | (v1 >> 4));
        if left > 2 {
            let v2: u8 = base64_char_value(sig[base + 2]);
            out.push(((v1 & 0x0f) << 4) | (v2 >> 2));
        }
    }
    proof {
        assert(out@.len() == decoded_len(m as nat));
        assert forall|k: int| 0 <= k < out@.len() implies out@[k] == decoded_byte(sig@, k) by {
            if k >= 3 * full {
                assert(k / 3 == full as int);
            }
        }
        assert(out@ =~= decode(s@));
    }
    out
}

/// A sequence whose first `m` items all pass a test and whose other items all
/// fail it is filtered to those first `m` items.
proof fn lemma_filter_keeps_prefix(s: Seq<char>, m: int)
    requires
        0 <= m <= s.len(),
        forall|i: int| 0 <= i < m ==> is_significant(#[trigger] s[i]),
        forall|i: int| m <= i < s.len() ==> !is_significant(#[trigger] s[i]),
    ensures
        significant(s) == s.take(m),
    decreases s.len(),
{
    let keep = |c: char| is_significant(c);
    if s.len() == 0 {
        reveal(Seq::filter);
        assert(s.filter(keep) =~= s.take(m));
    } else {
        let front = s.drop_last();
        assert(s =~= front.push(s.last()));
        front.lemma_filter_push(s.last(), keep);
        if m == s.len() {
            lemma_filter_keeps_prefix(front, m - 1);
            assert(front.take(m - 1).push(s.last()) =~= s.take(m));
        } else {
            lemma_filter_keeps_prefix(front, m);
            assert(front.take(m) =~= s.take(m));
        }
    }
}

/// Every character of the alphabet carries its own value and is significant.
proof fn lemma_alphabet(v: u8)
    requires
        v < 64,
    ensures
        char_value(sextet_char(v)) == v,
        is_significant(sextet_char(v)),
        is_alphabet(sextet_char(v)),
{
}

/// A character of the alphabet `A-Z a-z 0-9 + /`.
pub open spec fn is_alphabet(c: char) -> bool {
    let n = c as u32;
    ||| 65 <= n <= 90
    ||| 97 <= n <= 122
    ||| 48 <= n <= 57
    ||| n == 43
    ||| n == 47
}

/// An encoding is made of the alphabet and the padding sign alone.
pub proof fn lemma_encoding_alphabet(data: Seq<u8>, i: int)
    requires
        0 <= i < encode(data).len(),
    ensures
        is_alphabet(encode(data)[i]) || encode(data)[i] == '=',
        !is_space(encode(data)[i]),
{
    let g = i / 4;
    let b0 = byte_or_zero(data, 3 * g);
    let b1 = byte_or_zero(data, 3 * g + 1);
    let b2 = byte_or_zero(data, 3 * g + 2);
    lemma_group_bits(b0, b1, b2);
    lemma_alphabet(b0 >> 2);
    lemma_alphabet(((b0 & 0x03) << 4) | (b1 >> 4));
    lemma_alphabet(((b1 & 0x0f) << 2) | (b2 >> 6));
    lemma_alphabet(b2 & 0x3f);
}

/// The number of significant characters in the encoding of `n` bytes.
pub open spec fn payload_len(n: nat) -> nat {
    4 * (n / 3) + if n % 3 == 0 {
        0nat
    } else {
        (n % 3 + 1) as nat
    }
}

/// Decoding gives back what was encoded, for every byte string: whatever its
/// length, and so whatever padding its last group has.
pub proof fn lemma_decode_encode(data: Seq<u8>)
    ensures
        decode(encode(data)) == data,
{
    let e = encode(data);
    let n = data.len();
    let m = payload_len(n) as int;
    assert forall|i: int| 0 <= i < e.len() implies (i < m ==> is_significant(#[trigger] e[i])) && (
    i >= m ==> !is_significant(e[i])) by {
        let g = i / 4;
        let b0 = byte_or_zero(data, 3 * g);
        let b1 = byte_or_zero(data, 3 * g + 1);
        let b2 = byte_or_zero(data, 3 * g + 2);
        lemma_group_bits(b0, b1, b2);
        lemma_alphabet(b0 >> 2);
        lemma_alphabet(((b0 & 0x03) << 4) | (b1 >> 4));
        lemma_alphabet(((b1 & 0x0f) << 2) | (b2 >> 6));
        lemma_alphabet(b2 & 0x3f);
    }
    lemma_filter_keeps_prefix(e, m);
    let c = e.take(m);
    assert(decoded_len(c.len()) == n);
    assert forall|k: int| 0 <= k < n implies decoded_byte(c, k) == data[k] by {
        let g = k / 3;
        let b0 = byte_or_zero(data, 3 * g);
        let b1 = byte_or_zero(data, 3 * g + 1);
        let b2 = byte_or_zero(data, 3 * g + 2);
        lemma_group_bits(b0, b1, b2);
        lemma_alphabet(b0 >> 2);
        lemma_alphabet(((b0 & 0x03) << 4) | (b1 >> 4));
        lemma_alphabet(((b1 & 0x0f) << 2) | (b2 >> 6));
        lemma_alphabet(b2 & 0x3f);
        assert((4 * g) / 4 == g && (4 * g) % 4 == 0);
        assert((4 * g + 1) / 4 == g && (4 * g + 1) % 4 == 1);
        assert((4 * g + 2) / 4 == g && (4 * g + 2) % 4 == 2);
        assert((4 * g + 3) / 4 == g && (4 * g + 3) % 4 == 3);
        assert(c[4 * g] == e[4 * g]);
        assert(c[4 * g + 1] == e[4 * g + 1]);
        if k % 3 >= 1 {
            assert(c[4 * g + 2] == e[4 * g + 2]);
        }
        if k % 3 == 2 {
            assert(c[4 * g + 3] == e[4 * g + 3]);
        }
    }
    assert(decode(e) =~= data);
}

/// The padding of an encoding: none when the length is a multiple of three,
/// two `=` after one byte left over, one `=` after two.
pub proof fn lemma_padding(data: Seq<u8>)
    ensures
        encode(data).len() == encoded_len(data.len()),
        data.len() % 3 == 1 ==> {
            &&& encode(data)[encode(data).len() - 1] == '='
            &&& encode(data)[encode(data).len() - 2] == '='
            &&& is_significant(encode(data)[encode(data).len() - 3])
        },
        data.len() % 3 == 2 ==> {
            &&& encode(data)[encode(data).len() - 1] == '='
            &&& is_significant(encode(data)[encode(data).len() - 2])
        },
        data.len() % 3 == 0 && data.len() > 0 ==> is_significant(
            encode(data)[encode(data).len() - 1],
        ),
{
    let n = data.len() as int;
    let e = encode(data);
    if n > 0 {
        let g = (n - 1) / 3;
        let b0 = byte_or_zero(data, 3 * g);
        let b1 = byte_or_zero(data, 3 * g + 1);
        let b2 = byte_or_zero(data, 3 * g + 2);
        lemma_group_bits(b0, b1, b2);
        lemma_alphabet(b0 >> 2);
        lemma_alphabet(((b0 & 0x03) << 4) | (b1 >> 4));
        lemma_alphabet(((b1 & 0x0f) << 2) | (b2 >> 6));
        lemma_alphabet(b2 & 0x3f);
        assert(e.len() == 4 * g + 4);
        assert((4 * g + 3) / 4 == g && (4 * g + 3) % 4 == 3);
        assert((4 * g + 2) / 4 == g && (4 * g + 2) % 4 == 2);
        assert((4 * g + 1) / 4 == g && (4 * g + 1) % 4 == 1);
    }
}

} // verus!
