//! A buffer as four 64-bit words.
//!
//! The cell keeps its 32 bytes in four words, eight bytes each with the lowest
//! byte first. The two directions are plain shifts and masks, total and
//! without a branch, and each undoes the other.

use vstd::prelude::*;

verus! {

/// Words of a buffer.
pub const NAME_WORDS: usize = 4;

/// The word with the given bytes, lowest first.
pub open spec fn word_of(b0: u8, b1: u8, b2: u8, b3: u8, b4: u8, b5: u8, b6: u8, b7: u8) -> u64 {
    (b0 as u64) | (b1 as u64) << 8 | (b2 as u64) << 16 | (b3 as u64) << 24 | (b4 as u64) << 32 | (
    b5 as u64) << 40 | (b6 as u64) << 48 | (b7 as u64) << 56
}

/// Word `i` of a buffer: its bytes `8 * i` to `8 * i + 7`.
pub open spec fn word_at(bytes: Seq<u8>, i: int) -> u64 {
    word_of(
        bytes[8 * i],
        bytes[8 * i + 1],
        bytes[8 * i + 2],
        bytes[8 * i + 3],
        bytes[8 * i + 4],
        bytes[8 * i + 5],
        bytes[8 * i + 6],
        bytes[8 * i + 7],
    )
}

/// The byte of `word` that starts at bit `shift`.
pub open spec fn byte_of(word: u64, shift: u64) -> u8 {
    (word >> shift) as u8
}

/// The four words of a buffer.
pub open spec fn pack(bytes: Seq<u8>) -> Seq<u64> {
    Seq::new(4, |i: int| word_at(bytes, i))
}

/// The buffer of four words.
pub open spec fn unpack(words: Seq<u64>) -> Seq<u8> {
    Seq::new(32, |j: int| byte_of(words[j / 8], (8 * (j % 8)) as u64))
}

/// Each byte of a word made of eight bytes is the byte that went in.
pub proof fn lemma_word_bytes(b0: u8, b1: u8, b2: u8, b3: u8, b4: u8, b5: u8, b6: u8, b7: u8)
    by (bit_vector)
    ensures
        byte_of(word_of(b0, b1, b2, b3, b4, b5, b6, b7), 0) == b0,
        byte_of(word_of(b0, b1, b2, b3, b4, b5, b6, b7), 8) == b1,
        byte_of(word_of(b0, b1, b2, b3, b4, b5, b6, b7), 16) == b2,
        byte_of(word_of(b0, b1, b2, b3, b4, b5, b6, b7), 24) == b3,
        byte_of(word_of(b0, b1, b2, b3, b4, b5, b6, b7), 32) == b4,
        byte_of(word_of(b0, b1, b2, b3, b4, b5, b6, b7), 40) == b5,
        byte_of(word_of(b0, b1, b2, b3, b4, b5, b6, b7), 48) == b6,
        byte_of(word_of(b0, b1, b2, b3, b4, b5, b6, b7), 56) == b7,
{
}

/// A word is made of its own eight bytes.
pub proof fn lemma_bytes_word(word: u64)
    by (bit_vector)
    ensures
        word_of(
            byte_of(word, 0),
            byte_of(word, 8),
            byte_of(word, 16),
            byte_of(word, 24),
            byte_of(word, 32),
            byte_of(word, 40),
            byte_of(word, 48),
            byte_of(word, 56),
        ) == word,
{
}

/// Taking a buffer's words apart gives the buffer back.
pub proof fn lemma_unpack_pack(bytes: Seq<u8>)
    requires
        bytes.len() == 32,
    ensures
        unpack(pack(bytes)) == bytes,
{
    let words = pack(bytes);
    assert forall|j: int| 0 <= j < 32 implies unpack(words)[j] == bytes[j] by {
        let i = j / 8;
        lemma_word_bytes(
            bytes[8 * i],
            bytes[8 * i + 1],
            bytes[8 * i + 2],
            bytes[8 * i + 3],
            bytes[8 * i + 4],
            bytes[8 * i + 5],
            bytes[8 * i + 6],
            bytes[8 * i + 7],
        );
        assert(words[i] == word_at(bytes, i));
        assert(j == 8 * i + j % 8);
    }
    assert(unpack(words) =~= bytes);
}

/// Putting the bytes of four words together gives the words back.
pub proof fn lemma_pack_unpack(words: Seq<u64>)
    requires
        words.len() == 4,
    ensures
        pack(unpack(words)) == words,
{
    let bytes = unpack(words);
    assert forall|i: int| 0 <= i < 4 implies pack(bytes)[i] == words[i] by {
        lemma_bytes_word(words[i]);
        assert((8 * i) / 8 == i && (8 * i) % 8 == 0);
        assert((8 * i + 1) / 8 == i && (8 * i + 1) % 8 == 1);
        assert((8 * i + 2) / 8 == i && (8 * i + 2) % 8 == 2);
        assert((8 * i + 3) / 8 == i && (8 * i + 3) % 8 == 3);
        assert((8 * i + 4) / 8 == i && (8 * i + 4) % 8 == 4);
        assert((8 * i + 5) / 8 == i && (8 * i + 5) % 8 == 5);
        assert((8 * i + 6) / 8 == i && (8 * i + 6) % 8 == 6);
        assert((8 * i + 7) / 8 == i && (8 * i + 7) % 8 == 7);
    }
    assert(pack(bytes) =~= words);
}

/// Word `i` of `buffer`.
fn word(buffer: &[u8; 32], i: usize) -> (w: u64)
    requires
        i < 4,
    ensures
        w == word_at(buffer@, i as int),
{
    let at: usize = 8 * i;
    (buffer[at] as u64) | (buffer[at + 1] as u64) << 8 | (buffer[at + 2] as u64) << 16 | (buffer[at
        + 3] as u64) << 24 | (buffer[at + 4] as u64) << 32 | (buffer[at + 5] as u64) << 40 | (
    buffer[at + 6] as u64) << 48 | (buffer[at + 7] as u64) << 56
}

/// The four words that hold `buffer`.
pub fn pack_words(buffer: &[u8; 32]) -> (words: [u64; 4])
    ensures
        words@ == pack(buffer@),
{
    let words: [u64; 4] = [word(buffer, 0), word(buffer, 1), word(buffer, 2), word(buffer, 3)];
    assert(words@ =~= pack(buffer@));
    words
}

/// The buffer that `words` hold.
pub fn unpack_words(words: &[u64; 4]) -> (buffer: [u8; 32])
    ensures
        buffer@ == unpack(words@),
{
    let mut buffer: [u8; 32] = [0u8; 32];
    let mut j: usize = 0;
    while j < 32
        invariant
            j <= 32,
            forall|i: int| 0 <= i < j ==> buffer@[i] == unpack(words@)[i],
        decreases 32 - j,
    {
        let shift: u64 = 8 * ((j % 8) as u64);
        buffer[j] = (words[j / 8] >> shift) as u8;
        j += 1;
    }
    assert(buffer@ =~= unpack(words@));
    buffer
}

} // verus!
