//! Byte offsets in UTF-8 text held as characters: how many bytes a character
//! and a text take, and which character starts at a given byte offset.
use vstd::prelude::*;

verus! {

/// The number of bytes a character takes in UTF-8.
pub open spec fn utf8_len(c: char) -> nat {
    if (c as u32) < 0x80 {
        1
    } else if (c as u32) < 0x800 {
        2
    } else if (c as u32) < 0x10000 {
        3
    } else {
        4
    }
}

/// The number of bytes a text takes in UTF-8.
pub open spec fn byte_len(s: Seq<char>) -> nat
    decreases s.len(),
{
    if s.len() == 0 {
        0
    } else {
        byte_len(s.drop_last()) + utf8_len(s.last())
    }
}

/// Byte offset `b` is where a character of `s` starts (or the end of `s`).
pub open spec fn at_boundary(s: Seq<char>, b: int) -> bool {
    exists|k: int| 0 <= k <= s.len() && byte_len(s.take(k)) == b
}

/// The index of the character that starts at byte offset `b`, where `b` is
/// a boundary.
pub open spec fn char_index(s: Seq<char>, b: int) -> int {
    choose|k: int| 0 <= k <= s.len() && byte_len(s.take(k)) == b
}

/// The bytes of a concatenation are those of its parts.
pub proof fn lemma_byte_len_concat(a: Seq<char>, b: Seq<char>)
    ensures
        byte_len(a + b) == byte_len(a) + byte_len(b),
    decreases b.len(),
{
    if b.len() == 0 {
        assert(a + b =~= a);
    } else {
        assert((a + b).len() > 0);
        assert((a + b).drop_last() =~= a + b.drop_last());
        assert((a + b).last() == b.last());
        lemma_byte_len_concat(a, b.drop_last());
    }
}

/// A single character takes its own bytes.
pub proof fn lemma_byte_len_single(c: char)
    ensures
        byte_len(seq![c]) == utf8_len(c),
{
    let s = seq![c];
    assert(s.len() == 1);
    assert(s.drop_last() =~= Seq::<char>::empty());
    assert(byte_len(Seq::<char>::empty()) == 0);
    assert(s.last() == c);
    assert(byte_len(s) == byte_len(s.drop_last()) + utf8_len(s.last()));
}

/// Each character adds at least one byte: byte offsets of characters grow
/// strictly with their index.
pub proof fn lemma_byte_len_take_grows(s: Seq<char>, j: int, k: int)
    requires
        0 <= j < k <= s.len(),
    ensures
        byte_len(s.take(j)) + (k - j) <= byte_len(s.take(k)),
    decreases k - j,
{
    assert(s.take(k).drop_last() =~= s.take(k - 1));
    if j < k - 1 {
        lemma_byte_len_take_grows(s, j, k - 1);
    }
}

/// A prefix takes no more bytes than the whole text.
pub proof fn lemma_byte_len_take_le(s: Seq<char>, k: int)
    requires
        0 <= k <= s.len(),
    ensures
        byte_len(s.take(k)) <= byte_len(s),
{
    if k < s.len() {
        lemma_byte_len_take_grows(s, k, s.len() as int);
    }
    assert(s.take(s.len() as int) =~= s);
}

/// The character at a boundary is the only one starting there.
pub proof fn lemma_char_index_unique(s: Seq<char>, k: int)
    requires
        0 <= k <= s.len(),
    ensures
        at_boundary(s, byte_len(s.take(k)) as int),
        char_index(s, byte_len(s.take(k)) as int) == k,
{
    let b = byte_len(s.take(k)) as int;
    assert(0 <= k <= s.len() && byte_len(s.take(k)) == b);
    let j = char_index(s, b);
    if j < k {
        lemma_byte_len_take_grows(s, j, k);
    } else if k < j {
        lemma_byte_len_take_grows(s, k, j);
    }
}

/// The bytes of `c` in UTF-8.
pub fn char_utf8_len(c: char) -> (n: usize)
    ensures
        n == utf8_len(c),
{
    let u = c as u32;
    if u < 0x80 {
        1
    } else if u < 0x800 {
        2
    } else if u < 0x10000 {
        3
    } else {
        4
    }
}

/// The bytes a text takes in UTF-8, where that fits in `usize`.
pub fn byte_count(s: &Vec<char>) -> (n: usize)
    requires
        byte_len(s@) <= usize::MAX,
    ensures
        n == byte_len(s@),
{
    let mut acc: usize = 0;
    let mut i: usize = 0;
    while i < s.len()
        invariant
            i <= s@.len(),
            acc == byte_len(s@.take(i as int)),
            byte_len(s@) <= usize::MAX,
        decreases s@.len() - i,
    {
        assert(s@.take(i + 1).drop_last() =~= s@.take(i as int));
        proof {
            lemma_byte_len_take_le(s@, i + 1);
        }
        acc = acc + char_utf8_len(s[i]);
        i = i + 1;
    }
    assert(s@.take(i as int) =~= s@);
    acc
}

/// Whether the text takes more than `b` bytes.
pub fn bytes_exceed(s: &Vec<char>, b: usize) -> (r: bool)
    ensures
        r == (b < byte_len(s@)),
{
    let mut acc: u128 = 0;
    let mut i: usize = 0;
    while i < s.len() && acc <= b as u128
        invariant
            i <= s@.len(),
            acc == byte_len(s@.take(i as int)),
            acc <= b + 4,
        decreases s@.len() - i,
    {
        assert(s@.take(i + 1).drop_last() =~= s@.take(i as int));
        acc = acc + char_utf8_len(s[i]) as u128;
        i = i + 1;
    }
    proof {
        if i == s@.len() {
            assert(s@.take(i as int) =~= s@);
        } else {
            lemma_byte_len_take_le(s@, i as int);
        }
    }
    acc > b as u128
}

/// The index of the character that starts at byte offset `b`, or `None`
/// where `b` falls inside a character or past the end.
pub fn char_index_at(s: &Vec<char>, b: usize) -> (r: Option<usize>)
    ensures
        match r {
            Some(k) => at_boundary(s@, b as int) && k == char_index(s@, b as int),
            None => !at_boundary(s@, b as int),
        },
{
    let mut acc: u128 = 0;
    let mut i: usize = 0;
    while i < s.len() && acc < b as u128
        invariant
            i <= s@.len(),
            acc == byte_len(s@.take(i as int)),
            acc < b + 4,
            i > 0 ==> byte_len(s@.take(i - 1)) < b,
        decreases s@.len() - i,
    {
        assert(s@.take(i + 1).drop_last() =~= s@.take(i as int));
        acc = acc + char_utf8_len(s[i]) as u128;
        i = i + 1;
    }
    if acc == b as u128 {
        proof {
            lemma_char_index_unique(s@, i as int);
        }
        Some(i)
    } else {
        proof {
            assert forall|k: int| 0 <= k <= s@.len() implies byte_len(s@.take(k)) != b by {
                if k < i {
                    if k < i - 1 {
                        lemma_byte_len_take_grows(s@, k, i - 1);
                    }
                } else if k > i {
                    lemma_byte_len_take_grows(s@, i as int, k);
                }
            }
        }
        None
    }
}

} // verus!
