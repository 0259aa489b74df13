//! The little-endian word layout that `SimpleBlock` is written in.
use vstd::bytes::{
    lemma_auto_spec_u64_to_from_le_bytes, spec_u64_from_le_bytes, spec_u64_to_le_bytes,
    u64_from_le_bytes, u64_to_le_bytes,
};
use vstd::prelude::*;
use vstd::slice::slice_subrange;

verus! {

/// The eight little-endian bytes of a word.
pub open spec fn word_bytes(x: u64) -> Seq<u8> {
    spec_u64_to_le_bytes(x)
}

/// A sequence of words written one after another, eight bytes each.
pub open spec fn words_bytes(s: Seq<u64>) -> Seq<u8>
    decreases s.len(),
{
    if s.len() == 0 {
        Seq::empty()
    } else {
        words_bytes(s.drop_last()) + word_bytes(s.last())
    }
}

pub proof fn lemma_word_bytes(x: u64)
    ensures
        word_bytes(x).len() == 8,
        spec_u64_from_le_bytes(word_bytes(x)) == x,
{
    lemma_auto_spec_u64_to_from_le_bytes();
}

pub proof fn lemma_bytes_word(s: Seq<u8>)
    requires
        s.len() == 8,
    ensures
        word_bytes(spec_u64_from_le_bytes(s)) == s,
{
    lemma_auto_spec_u64_to_from_le_bytes();
}

pub proof fn lemma_words_len(s: Seq<u64>)
    ensures
        words_bytes(s).len() == 8 * s.len(),
    decreases s.len(),
{
    if s.len() > 0 {
        lemma_words_len(s.drop_last());
        lemma_word_bytes(s.last());
    }
}

pub proof fn lemma_words_push(s: Seq<u64>, x: u64)
    ensures
        words_bytes(s.push(x)) == words_bytes(s) + word_bytes(x),
{
    assert(s.push(x).drop_last() =~= s);
}

/// The `i`-th word of a sequence occupies bytes `8 * i` to `8 * i + 8`.
pub proof fn lemma_words_index(s: Seq<u64>, i: int)
    requires
        0 <= i < s.len(),
    ensures
        words_bytes(s).subrange(8 * i, 8 * i + 8) == word_bytes(s[i]),
    decreases s.len(),
{
    let init = s.drop_last();
    lemma_words_len(init);
    lemma_word_bytes(s.last());
    if i < s.len() - 1 {
        lemma_words_index(init, i);
        assert(words_bytes(s).subrange(8 * i, 8 * i + 8) =~= words_bytes(init).subrange(
            8 * i,
            8 * i + 8,
        ));
    } else {
        assert(words_bytes(s).subrange(8 * i, 8 * i + 8) =~= word_bytes(s.last()));
    }
}

/// Equal bytes come from equal words.
pub proof fn lemma_words_injective(a: Seq<u64>, b: Seq<u64>)
    requires
        a.len() == b.len(),
        words_bytes(a) == words_bytes(b),
    ensures
        a == b,
{
    assert forall|i: int| 0 <= i < a.len() implies a[i] == b[i] by {
        lemma_words_index(a, i);
        lemma_words_index(b, i);
        lemma_word_bytes(a[i]);
        lemma_word_bytes(b[i]);
    }
    assert(a =~= b);
}

/// Appends the eight bytes of a word.
pub fn push_word(out: &mut Vec<u8>, x: u64)
    ensures
        final(out)@ == old(out)@ + word_bytes(x),
{
    let b = u64_to_le_bytes(x);
    let mut i: usize = 0;
    while i < b.len()
        invariant
            b@ == word_bytes(x),
            b@.len() == 8,
            i <= 8,
            out@ == old(out)@ + b@.subrange(0, i as int),
        decreases 8 - i,
    {
        out.push(b[i]);
        assert(b@.subrange(0, i + 1) =~= b@.subrange(0, i as int).push(b@[i as int]));
        i = i + 1;
    }
    assert(b@.subrange(0, 8) =~= b@);
}

/// Appends each word of a slice in order.
pub fn push_words(out: &mut Vec<u8>, s: &[u64])
    ensures
        final(out)@ == old(out)@ + words_bytes(s@),
{
    let mut i: usize = 0;
    while i < s.len()
        invariant
            i <= s@.len(),
            out@ == old(out)@ + words_bytes(s@.subrange(0, i as int)),
        decreases s@.len() - i,
    {
        push_word(out, s[i]);
        proof {
            let pre = s@.subrange(0, i as int);
            lemma_words_push(pre, s@[i as int]);
            assert(s@.subrange(0, i + 1) =~= pre.push(s@[i as int]));
            assert(out@ =~= old(out)@ + words_bytes(s@.subrange(0, i + 1)));
        }
        i = i + 1;
    }
    assert(s@.subrange(0, s@.len() as int) =~= s@);
}

/// The word stored at bytes `at` to `at + 8`.
pub fn read_word(bytes: &[u8], at: usize) -> (r: u64)
    requires
        at + 8 <= bytes@.len() <= usize::MAX,
    ensures
        word_bytes(r) == bytes@.subrange(at as int, at + 8),
{
    let r = u64_from_le_bytes(slice_subrange(bytes, at, at + 8));
    proof {
        lemma_bytes_word(bytes@.subrange(at as int, at + 8));
    }
    r
}

/// Reads `count` consecutive words starting at byte `at`.
pub fn read_words(bytes: &[u8], at: usize, count: usize) -> (r: Vec<u64>)
    requires
        at + 8 * count <= bytes@.len() <= usize::MAX,
    ensures
        r@.len() == count,
        words_bytes(r@) == bytes@.subrange(at as int, at + 8 * count),
{
    let mut r: Vec<u64> = Vec::new();
    let mut i: usize = 0;
    while i < count
        invariant
            bytes@.len() <= usize::MAX,
            at + 8 * count <= bytes@.len(),
            i <= count,
            r@.len() == i,
            words_bytes(r@) == bytes@.subrange(at as int, at + 8 * i),
        decreases count - i,
    {
        assert(8 * i + 8 <= 8 * count) by (nonlinear_arith)
            requires
                i < count,
        ;
        let x = read_word(bytes, at + 8 * i);
        proof {
            lemma_words_push(r@, x);
            assert(bytes@.subrange(at as int, at + 8 * (i + 1)) =~= bytes@.subrange(
                at as int,
                at + 8 * i,
            ) + bytes@.subrange(at + 8 * i, at + 8 * i + 8));
        }
        r.push(x);
        i = i + 1;
    }
    r
}

} // verus!
