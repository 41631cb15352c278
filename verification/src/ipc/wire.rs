//! Little-endian encodings of integers as byte sequences, and the facts that
//! relate writing a value into a sequence to reading it back.

use vstd::prelude::*;

verus! {

/// The two bytes of `x`, least significant first.
pub open spec fn u16_bytes(x: u16) -> Seq<u8> {
    seq![(x % 0x100) as u8, (x / 0x100) as u8]
}

/// The four bytes of `x`, least significant first.
pub open spec fn u32_bytes(x: u32) -> Seq<u8> {
    seq![
        (x % 0x100) as u8,
        ((x / 0x100) % 0x100) as u8,
        ((x / 0x1_0000) % 0x100) as u8,
        (x / 0x100_0000) as u8,
    ]
}

/// The integer whose little-endian bytes are `b0`, `b1`.
pub open spec fn u16_of(b0: u8, b1: u8) -> u16 {
    (b0 + b1 * 0x100) as u16
}

/// The integer whose little-endian bytes are `b0` to `b3`.
pub open spec fn u32_of(b0: u8, b1: u8, b2: u8, b3: u8) -> u32 {
    (b0 + b1 * 0x100 + b2 * 0x1_0000 + b3 * 0x100_0000) as u32
}

/// The 64-bit integer made of a low and a high word.
pub open spec fn u64_of(low: u32, high: u32) -> u64 {
    (low + high * 0x1_0000_0000) as u64
}

/// The 16-bit integer stored at `off`.
pub open spec fn u16_at(s: Seq<u8>, off: int) -> u16 {
    u16_of(s[off], s[off + 1])
}

/// The 32-bit integer stored at `off`.
pub open spec fn u32_at(s: Seq<u8>, off: int) -> u32 {
    u32_of(s[off], s[off + 1], s[off + 2], s[off + 3])
}

/// The 64-bit integer stored at `off`.
pub open spec fn u64_at(s: Seq<u8>, off: int) -> u64 {
    u64_of(u32_at(s, off), u32_at(s, off + 4))
}

/// The bytes of a sequence of 32-bit words, one word after the other.
#[verifier::opaque]
pub open spec fn words_bytes(ws: Seq<u32>) -> Seq<u8> {
    Seq::new(4 * ws.len(), |i: int| u32_bytes(ws[i / 4])[i % 4])
}

/// The bytes of a sequence of 16-bit values, one after the other.
#[verifier::opaque]
pub open spec fn halves_bytes(hs: Seq<u16>) -> Seq<u8> {
    Seq::new(2 * hs.len(), |i: int| u16_bytes(hs[i / 2])[i % 2])
}

/// The `n` 32-bit words stored from `off` on.
pub open spec fn words_at(s: Seq<u8>, off: int, n: nat) -> Seq<u32> {
    Seq::new(n, |i: int| u32_at(s, off + 4 * i))
}

/// The `n` 16-bit values stored from `off` on.
pub open spec fn halves_at(s: Seq<u8>, off: int, n: nat) -> Seq<u16> {
    Seq::new(n, |i: int| u16_at(s, off + 2 * i))
}

/// `s` with the bytes from `off` on replaced by `data`; the length stays.
pub open spec fn splice(s: Seq<u8>, off: int, data: Seq<u8>) -> Seq<u8> {
    Seq::new(
        s.len(),
        |i: int|
            if off <= i < off + data.len() {
                data[i - off]
            } else {
                s[i]
            },
    )
}

/// Decoding the bytes of a 16-bit value gives the value back.
pub proof fn lemma_u16_round_trip(x: u16)
    ensures
        u16_bytes(x).len() == 2,
        u16_at(u16_bytes(x), 0) == x,
{
}

/// Decoding the bytes of a 32-bit value gives the value back.
pub proof fn lemma_u32_round_trip(x: u32)
    ensures
        u32_bytes(x).len() == 4,
        u32_at(u32_bytes(x), 0) == x,
{
}

/// A 32-bit value written at `off` is read back from `off`.
pub proof fn lemma_u32_at_written(s: Seq<u8>, off: int, x: u32)
    requires
        0 <= off,
        off + 4 <= s.len(),
    ensures
        u32_at(splice(s, off, u32_bytes(x)), off) == x,
{
    lemma_u32_round_trip(x);
}

/// A 32-bit read is unchanged by a write that does not overlap it.
pub proof fn lemma_u32_at_apart(s: Seq<u8>, off: int, data: Seq<u8>, at: int)
    requires
        0 <= at,
        at + 4 <= s.len(),
        at + 4 <= off || off + data.len() <= at,
    ensures
        u32_at(splice(s, off, data), at) == u32_at(s, at),
{
}

/// A sequence of words takes four bytes for each word.
pub proof fn lemma_words_bytes_len(ws: Seq<u32>)
    ensures
        words_bytes(ws).len() == 4 * ws.len(),
{
    reveal(words_bytes);
}

/// A sequence of 16-bit values takes two bytes for each value.
pub proof fn lemma_halves_bytes_len(hs: Seq<u16>)
    ensures
        halves_bytes(hs).len() == 2 * hs.len(),
{
    reveal(halves_bytes);
}

/// Byte `j` of word `i` in the bytes of a sequence of words.
pub proof fn lemma_words_bytes_index(ws: Seq<u32>, i: int, j: int)
    requires
        0 <= i < ws.len(),
        0 <= j < 4,
    ensures
        words_bytes(ws).len() == 4 * ws.len(),
        words_bytes(ws)[4 * i + j] == u32_bytes(ws[i])[j],
{
    reveal(words_bytes);
    assert((4 * i + j) / 4 == i);
    assert((4 * i + j) % 4 == j);
}

/// Word `k` of a sequence of words written at `off` is read back from its
/// place.
pub proof fn lemma_u32_at_in_words(s: Seq<u8>, off: int, ws: Seq<u32>, k: int)
    requires
        0 <= off,
        off + 4 * ws.len() <= s.len(),
        0 <= k < ws.len(),
    ensures
        u32_at(splice(s, off, words_bytes(ws)), off + 4 * k) == ws[k],
{
    let d = words_bytes(ws);
    let t = splice(s, off, d);
    let e = u32_bytes(ws[k]);
    let at = off + 4 * k;
    assert(t[at] == e[0]) by {
        lemma_words_bytes_index(ws, k, 0);
        assert(t[at] == d[4 * k + 0]);
    }
    assert(t[at + 1] == e[1]) by {
        lemma_words_bytes_index(ws, k, 1);
        assert(t[at + 1] == d[4 * k + 1]);
    }
    assert(t[at + 2] == e[2]) by {
        lemma_words_bytes_index(ws, k, 2);
        assert(t[at + 2] == d[4 * k + 2]);
    }
    assert(t[at + 3] == e[3]) by {
        lemma_words_bytes_index(ws, k, 3);
        assert(t[at + 3] == d[4 * k + 3]);
    }
    assert(u32_of(e[0], e[1], e[2], e[3]) == ws[k]) by {
        lemma_u32_round_trip(ws[k]);
    }
}

/// A part of a sequence of words written at `off` is read back from its
/// place.
pub proof fn lemma_words_at_in_words(s: Seq<u8>, off: int, ws: Seq<u32>, k: int, n: nat)
    requires
        0 <= off,
        off + 4 * ws.len() <= s.len(),
        0 <= k,
        k + n <= ws.len(),
    ensures
        words_at(splice(s, off, words_bytes(ws)), off + 4 * k, n) == ws.subrange(k, k + n),
{
    lemma_words_bytes_len(ws);
    let t = splice(s, off, words_bytes(ws));
    assert forall|i: int| 0 <= i < n implies #[trigger] u32_at(t, off + 4 * k + 4 * i) == ws[k
        + i] by {
        lemma_u32_at_in_words(s, off, ws, k + i);
    }
    assert(words_at(t, off + 4 * k, n) =~= ws.subrange(k, k + n));
}

/// A sequence of words written at `off` is read back from `off`.
pub proof fn lemma_words_at_written(s: Seq<u8>, off: int, ws: Seq<u32>)
    requires
        0 <= off,
        off + 4 * ws.len() <= s.len(),
    ensures
        words_at(splice(s, off, words_bytes(ws)), off, ws.len()) == ws,
{
    lemma_words_at_in_words(s, off, ws, 0, ws.len());
    assert(ws.subrange(0, ws.len() as int) =~= ws);
}

/// Byte `j` of value `i` in the bytes of a sequence of 16-bit values.
pub proof fn lemma_halves_bytes_index(hs: Seq<u16>, i: int, j: int)
    requires
        0 <= i < hs.len(),
        0 <= j < 2,
    ensures
        halves_bytes(hs).len() == 2 * hs.len(),
        halves_bytes(hs)[2 * i + j] == u16_bytes(hs[i])[j],
{
    reveal(halves_bytes);
    assert((2 * i + j) / 2 == i);
    assert((2 * i + j) % 2 == j);
}

/// A sequence of 16-bit values written at `off` is read back from `off`.
pub proof fn lemma_halves_at_written(s: Seq<u8>, off: int, hs: Seq<u16>)
    requires
        0 <= off,
        off + 2 * hs.len() <= s.len(),
    ensures
        halves_at(splice(s, off, halves_bytes(hs)), off, hs.len()) == hs,
{
    lemma_halves_bytes_len(hs);
    let d = halves_bytes(hs);
    let t = splice(s, off, d);
    assert forall|i: int| 0 <= i < hs.len() implies #[trigger] u16_at(t, off + 2 * i) == hs[i] by {
        let e = u16_bytes(hs[i]);
        lemma_halves_bytes_index(hs, i, 0);
        lemma_halves_bytes_index(hs, i, 1);
        assert(t[off + 2 * i] == e[0]);
        assert(t[off + 2 * i + 1] == e[1]);
        lemma_u16_round_trip(hs[i]);
        assert(u16_at(t, off + 2 * i) == u16_at(e, 0));
    }
    assert(halves_at(t, off, hs.len()) =~= hs);
}

/// A read of words is unchanged by a write that does not overlap it.
pub proof fn lemma_words_at_apart(s: Seq<u8>, off: int, data: Seq<u8>, at: int, n: nat)
    requires
        0 <= at,
        at + 4 * n <= s.len(),
        at + 4 * n <= off || off + data.len() <= at,
    ensures
        words_at(splice(s, off, data), at, n) == words_at(s, at, n),
{
    assert(words_at(splice(s, off, data), at, n) =~= words_at(s, at, n));
}

} // verus!
