//! Words and bytes of the display-list wire format.
//!
//! Everything on the wire is a sequence of 32-bit words, each stored as four
//! little-endian bytes. Signed values are stored in two's complement.

use vstd::prelude::*;

verus! {

/// The word that stores the signed value `x`.
pub open spec fn word_of_i32(x: i32) -> u32 {
    if x >= 0 {
        x as u32
    } else {
        (x as int + 0x1_0000_0000int) as u32
    }
}

/// The signed value stored in word `w`.
pub open spec fn i32_of_word(w: u32) -> i32 {
    if w < 0x8000_0000u32 {
        w as i32
    } else {
        (w as int - 0x1_0000_0000int) as i32
    }
}

pub proof fn lemma_i32_word(x: i32)
    ensures
        i32_of_word(word_of_i32(x)) == x,
{
}

pub fn encode_i32(x: i32) -> (w: u32)
    ensures
        w == word_of_i32(x),
        i32_of_word(w) == x,
{
    if x >= 0 {
        x as u32
    } else {
        (x as i64 + 0x1_0000_0000i64) as u32
    }
}

pub fn decode_i32(w: u32) -> (x: i32)
    ensures
        x == i32_of_word(w),
        word_of_i32(x) == w,
{
    if w < 0x8000_0000u32 {
        w as i32
    } else {
        (w as i64 - 0x1_0000_0000i64) as i32
    }
}

/// The four little-endian bytes of `w`.
pub open spec fn bytes_of_word(w: u32) -> Seq<u8> {
    seq![(w & 0xff) as u8, ((w >> 8u32) & 0xff) as u8, ((w >> 16u32) & 0xff) as u8, ((w >> 24u32) & 0xff) as u8]
}

/// The word held by four little-endian bytes.
pub open spec fn word_of_bytes(b0: u8, b1: u8, b2: u8, b3: u8) -> u32 {
    (b0 as u32) | ((b1 as u32) << 8u32) | ((b2 as u32) << 16u32) | ((b3 as u32) << 24u32)
}

/// The bytes of a sequence of words.
pub open spec fn bytes_of_words(ws: Seq<u32>) -> Seq<u8>
    decreases ws.len(),
{
    if ws.len() == 0 {
        Seq::empty()
    } else {
        bytes_of_words(ws.drop_last()) + bytes_of_word(ws.last())
    }
}

/// The words held by a byte sequence whose length is a multiple of four.
pub open spec fn words_of_bytes(b: Seq<u8>) -> Seq<u32> {
    Seq::new(b.len() / 4, |i: int| word_of_bytes(b[4 * i], b[4 * i + 1], b[4 * i + 2], b[4 * i + 3]))
}

proof fn lemma_word_bytes(w: u32)
    ensures
        word_of_bytes(
            bytes_of_word(w)[0],
            bytes_of_word(w)[1],
            bytes_of_word(w)[2],
            bytes_of_word(w)[3],
        ) == w,
{
    let b0 = (w & 0xff) as u8;
    let b1 = ((w >> 8u32) & 0xff) as u8;
    let b2 = ((w >> 16u32) & 0xff) as u8;
    let b3 = ((w >> 24u32) & 0xff) as u8;
    assert((b0 as u32) | ((b1 as u32) << 8u32) | ((b2 as u32) << 16u32) | ((b3 as u32) << 24u32) == w)
        by (bit_vector)
        requires
            b0 == (w & 0xff) as u8,
            b1 == ((w >> 8u32) & 0xff) as u8,
            b2 == ((w >> 16u32) & 0xff) as u8,
            b3 == ((w >> 24u32) & 0xff) as u8,
    ;
}

proof fn lemma_bytes_of_words_index(ws: Seq<u32>, i: int, j: int)
    requires
        0 <= i < ws.len(),
        0 <= j < 4,
    ensures
        bytes_of_words(ws).len() == 4 * ws.len(),
        bytes_of_words(ws)[4 * i + j] == bytes_of_word(ws[i])[j],
    decreases ws.len(),
{
    lemma_bytes_of_words_len(ws);
    if i < ws.len() - 1 {
        lemma_bytes_of_words_index(ws.drop_last(), i, j);
        lemma_bytes_of_words_len(ws.drop_last());
    } else {
        lemma_bytes_of_words_len(ws.drop_last());
    }
}

pub proof fn lemma_bytes_of_words_len(ws: Seq<u32>)
    ensures
        bytes_of_words(ws).len() == 4 * ws.len(),
    decreases ws.len(),
{
    if ws.len() > 0 {
        lemma_bytes_of_words_len(ws.drop_last());
    }
}

/// Reading back the bytes of a word sequence gives that sequence.
pub proof fn lemma_words_bytes_round_trip(ws: Seq<u32>)
    ensures
        words_of_bytes(bytes_of_words(ws)) == ws,
{
    lemma_bytes_of_words_len(ws);
    let b = bytes_of_words(ws);
    assert forall|i: int| 0 <= i < ws.len() implies words_of_bytes(b)[i] == ws[i] by {
        lemma_bytes_of_words_index(ws, i, 0);
        lemma_bytes_of_words_index(ws, i, 1);
        lemma_bytes_of_words_index(ws, i, 2);
        lemma_bytes_of_words_index(ws, i, 3);
        lemma_word_bytes(ws[i]);
    }
    assert(words_of_bytes(b) =~= ws);
}

/// Appends the four bytes of each word to `out`.
pub fn put_words_as_bytes(ws: &Vec<u32>, out: &mut Vec<u8>)
    ensures
        final(out)@ == old(out)@ + bytes_of_words(ws@),
{
    let ghost start = out@;
    let mut i: usize = 0;
    while i < ws.len()
        invariant
            i <= ws.len(),
            out@ == start + bytes_of_words(ws@.take(i as int)),
        decreases ws.len() - i,
    {
        let w = ws[i];
        out.push((w & 0xff) as u8);
        out.push(((w >> 8u32) & 0xff) as u8);
        out.push(((w >> 16u32) & 0xff) as u8);
        out.push(((w >> 24u32) & 0xff) as u8);
        proof {
            let t = ws@.take(i as int + 1);
            assert(t.drop_last() =~= ws@.take(i as int));
            assert(t.last() == w);
            assert(out@ =~= start + bytes_of_words(t));
        }
        i = i + 1;
    }
    assert(ws@.take(ws.len() as int) =~= ws@);
}

/// The words held by `b[start..end]`; `end - start` is a multiple of four.
pub fn words_from_bytes(b: &Vec<u8>, start: usize, end: usize) -> (ws: Vec<u32>)
    requires
        start <= end <= b.len(),
        (end - start) % 4 == 0,
    ensures
        ws@ == words_of_bytes(b@.subrange(start as int, end as int)),
{
    let ghost sub = b@.subrange(start as int, end as int);
    let n = (end - start) / 4;
    let mut ws: Vec<u32> = Vec::new();
    let mut i: usize = 0;
    while i < n
        invariant
            n == (end - start) / 4,
            start <= end <= b.len(),
            (end - start) % 4 == 0,
            sub == b@.subrange(start as int, end as int),
            i <= n,
            ws@ == words_of_bytes(sub).take(i as int),
        decreases n - i,
    {
        let p = start + 4 * i;
        let w = (b[p] as u32) | ((b[p + 1] as u32) << 8u32) | ((b[p + 2] as u32) << 16u32) | (
        (b[p + 3] as u32) << 24u32);
        ws.push(w);
        proof {
            assert(ws@ =~= words_of_bytes(sub).take(i as int + 1));
        }
        i = i + 1;
    }
    assert(words_of_bytes(sub).take(n as int) =~= words_of_bytes(sub));
    ws
}

} // verus!
