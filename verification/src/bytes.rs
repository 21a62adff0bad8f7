//! Little-endian byte layouts of the integer fields used by the records
//! and frames.

use vstd::prelude::*;

verus! {

/// Little-endian bytes of a 16-bit value.
pub open spec fn u16_le(value: u16) -> Seq<u8> {
    seq![(value & 0xff) as u8, (value >> 8u16) as u8]
}

/// Little-endian bytes of a 32-bit value.
pub open spec fn u32_le(value: u32) -> Seq<u8> {
    seq![
        (value & 0xff) as u8,
        ((value >> 8u32) & 0xff) as u8,
        ((value >> 16u32) & 0xff) as u8,
        (value >> 24u32) as u8,
    ]
}

/// The 16-bit value stored little-endian at `at`.
pub open spec fn u16_at(bytes: Seq<u8>, at: int) -> u16 {
    (bytes[at] as u16) | ((bytes[at + 1] as u16) << 8u16)
}

/// The 32-bit value stored little-endian at `at`.
pub open spec fn u32_at(bytes: Seq<u8>, at: int) -> u32 {
    (bytes[at] as u32) | ((bytes[at + 1] as u32) << 8u32) | ((bytes[at + 2] as u32) << 16u32)
        | ((bytes[at + 3] as u32) << 24u32)
}

pub proof fn lemma_u16_round_trip(value: u16)
    ensures
        u16_at(u16_le(value), 0) == value,
{
    let low = (value & 0xff) as u8;
    let high = (value >> 8u16) as u8;
    assert((low as u16) | ((high as u16) << 8u16) == value) by (bit_vector)
        requires
            low == (value & 0xff) as u8,
            high == (value >> 8u16) as u8,
    ;
}

pub proof fn lemma_u32_round_trip(value: u32)
    ensures
        u32_at(u32_le(value), 0) == value,
{
    let b0 = (value & 0xff) as u8;
    let b1 = ((value >> 8u32) & 0xff) as u8;
    let b2 = ((value >> 16u32) & 0xff) as u8;
    let b3 = (value >> 24u32) as u8;
    assert((b0 as u32) | ((b1 as u32) << 8u32) | ((b2 as u32) << 16u32) | ((b3 as u32) << 24u32)
        == value) by (bit_vector)
        requires
            b0 == (value & 0xff) as u8,
            b1 == ((value >> 8u32) & 0xff) as u8,
            b2 == ((value >> 16u32) & 0xff) as u8,
            b3 == (value >> 24u32) as u8,
    ;
}

/// Bytes that decode to the same 32-bit value are the bytes of that value.
pub proof fn lemma_u32_bytes_determined(bytes: Seq<u8>, at: int)
    requires
        0 <= at,
        at + 4 <= bytes.len(),
    ensures
        bytes.subrange(at, at + 4) == u32_le(u32_at(bytes, at)),
{
    let b0 = bytes[at];
    let b1 = bytes[at + 1];
    let b2 = bytes[at + 2];
    let b3 = bytes[at + 3];
    let v = u32_at(bytes, at);
    assert(b0 == (v & 0xff) as u8 && b1 == ((v >> 8u32) & 0xff) as u8 && b2 == ((v >> 16u32)
        & 0xff) as u8 && b3 == (v >> 24u32) as u8) by (bit_vector)
        requires
            v == (b0 as u32) | ((b1 as u32) << 8u32) | ((b2 as u32) << 16u32) | ((b3 as u32)
                << 24u32),
    ;
    assert(bytes.subrange(at, at + 4) =~= u32_le(v));
}

/// Appends the little-endian bytes of a 16-bit value.
pub fn push_u16_le(out: &mut Vec<u8>, value: u16)
    ensures
        final(out)@ == old(out)@ + u16_le(value),
{
    out.push((value & 0xff) as u8);
    out.push((value >> 8) as u8);
    assert(final(out)@ =~= old(out)@ + u16_le(value));
}

/// Appends the little-endian bytes of a 32-bit value.
pub fn push_u32_le(out: &mut Vec<u8>, value: u32)
    ensures
        final(out)@ == old(out)@ + u32_le(value),
{
    out.push((value & 0xff) as u8);
    out.push(((value >> 8) & 0xff) as u8);
    out.push(((value >> 16) & 0xff) as u8);
    out.push((value >> 24) as u8);
    assert(final(out)@ =~= old(out)@ + u32_le(value));
}

/// Reads a little-endian 16-bit value.
pub fn read_u16_le(bytes: &[u8], at: usize) -> (value: u16)
    requires
        at + 2 <= bytes@.len(),
    ensures
        value == u16_at(bytes@, at as int),
{
    (bytes[at] as u16) | ((bytes[at + 1] as u16) << 8)
}

/// Reads a little-endian 32-bit value.
pub fn read_u32_le(bytes: &[u8], at: usize) -> (value: u32)
    requires
        at + 4 <= bytes@.len(),
    ensures
        value == u32_at(bytes@, at as int),
{
    (bytes[at] as u32) | ((bytes[at + 1] as u32) << 8) | ((bytes[at + 2] as u32) << 16) | ((
    bytes[at + 3] as u32) << 24)
}

/// Little-endian bytes of a sequence of 32-bit words, in order.
pub open spec fn words_le(words: Seq<u32>) -> Seq<u8>
    decreases words.len(),
{
    if words.len() == 0 {
        seq![]
    } else {
        u32_le(words[0]) + words_le(words.drop_first())
    }
}

pub proof fn lemma_words_le_len(words: Seq<u32>)
    ensures
        words_le(words).len() == 4 * words.len(),
    decreases words.len(),
{
    if words.len() > 0 {
        lemma_words_le_len(words.drop_first());
    }
}

pub proof fn lemma_words_le_at(words: Seq<u32>, i: int)
    requires
        0 <= i < words.len(),
    ensures
        u32_at(words_le(words), 4 * i) == words[i],
    decreases words.len(),
{
    lemma_words_le_len(words.drop_first());
    if i == 0 {
        lemma_u32_round_trip(words[0]);
    } else {
        lemma_words_le_at(words.drop_first(), i - 1);
    }
}

pub proof fn lemma_words_le_push(words: Seq<u32>, word: u32)
    ensures
        words_le(words.push(word)) == words_le(words) + u32_le(word),
    decreases words.len(),
{
    if words.len() == 0 {
        assert(words.push(word).drop_first() =~= Seq::<u32>::empty());
        assert(words_le(Seq::<u32>::empty()) =~= Seq::<u8>::empty());
        assert(words_le(words.push(word)) =~= u32_le(word));
    } else {
        assert(words.push(word).drop_first() =~= words.drop_first().push(word));
        lemma_words_le_push(words.drop_first(), word);
        assert(words_le(words.push(word)) =~= words_le(words) + u32_le(word));
    }
}

pub proof fn lemma_words_of_bytes(bytes: Seq<u8>, count: nat)
    requires
        bytes.len() == 4 * count,
    ensures
        words_le(Seq::new(count, |i: int| u32_at(bytes, 4 * i))) == bytes,
    decreases count,
{
    let words = Seq::new(count, |i: int| u32_at(bytes, 4 * i));
    if count == 0 {
        assert(bytes =~= Seq::<u8>::empty());
    } else {
        let rest = bytes.skip(4);
        let tail = Seq::new((count - 1) as nat, |i: int| u32_at(rest, 4 * i));
        assert(words.drop_first() =~= tail);
        lemma_words_of_bytes(rest, (count - 1) as nat);
        lemma_u32_bytes_determined(bytes, 0);
        assert(bytes =~= bytes.subrange(0, 4) + rest);
    }
}

pub proof fn lemma_u16_bytes_determined(bytes: Seq<u8>, at: int)
    requires
        0 <= at,
        at + 2 <= bytes.len(),
    ensures
        bytes.subrange(at, at + 2) == u16_le(u16_at(bytes, at)),
{
    let b0 = bytes[at];
    let b1 = bytes[at + 1];
    let v = u16_at(bytes, at);
    assert(b0 == (v & 0xff) as u8 && b1 == (v >> 8u16) as u8) by (bit_vector)
        requires
            v == (b0 as u16) | ((b1 as u16) << 8u16),
    ;
    assert(bytes.subrange(at, at + 2) =~= u16_le(v));
}

/// Appends the little-endian bytes of each word in turn.
pub fn push_words_le(out: &mut Vec<u8>, words: &[u32])
    ensures
        final(out)@ == old(out)@ + words_le(words@),
{
    let ghost start = out@;
    let mut index: usize = 0;
    assert(words@.take(0) =~= Seq::<u32>::empty());
    assert(start + words_le(Seq::<u32>::empty()) =~= start);
    while index < words.len()
        invariant
            index <= words@.len(),
            out@ == start + words_le(words@.take(index as int)),
        decreases words@.len() - index,
    {
        let word = words[index];
        push_u32_le(out, word);
        proof {
            assert(words@.take(index + 1) =~= words@.take(index as int).push(word));
            lemma_words_le_push(words@.take(index as int), word);
            assert(out@ =~= start + words_le(words@.take(index + 1)));
        }
        index += 1;
    }
    assert(words@.take(words@.len() as int) =~= words@);
}

} // verus!
