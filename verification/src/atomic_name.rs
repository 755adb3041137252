//! An optional short text that many threads write and read without a lock.
//!
//! The cell keeps one name buffer in four atomic words. A store writes the four
//! words one after the other and a load reads them one after the other; the four
//! accesses are not one atomic step. A reader that races a writer may therefore
//! see words of the old value beside words of the new one. For telemetry that is
//! accepted: four words are the fewest that hold sixteen code units, which keeps
//! the window small, and whatever words a reader meets, it gets a buffer and a
//! text that are well formed.
//!
//! What a cell holds is memory shared with other threads, so the functions here
//! promise of a loaded value only what holds of every word pattern. What is
//! written for a text, and what is read out of given words, is computed by
//! [`crate::buffer`] and [`crate::words`], whose contracts are exact. The one
//! thing that is fixed of a cell for good is what it was made with: contracts
//! speak of it as [`AtomicName::initial`].

use vstd::prelude::*;
use std::sync::atomic::AtomicU64;
use std::sync::atomic::Ordering;
use crate::buffer::{blank, buffer_text, buffer_units, decode_text, encode_option, encode_text, is_blank, is_name, lemma_blank_is_absent, lemma_buffer_text_is_name, lemma_text_buffer, lemma_text_round_trip, lemma_text_truncated, option_buffer, present, present_buffer, text_buffer};
use crate::utf16::{encode, no_zero, str_view, text_view};
use crate::words::{lemma_unpack_pack, pack, pack_words, unpack, unpack_words};

verus! {

/// An ordering that a load accepts: any but `Release` and `AcqRel`.
pub open spec fn load_ordering(order: Ordering) -> bool {
    order != Ordering::Release && order != Ordering::AcqRel
}

/// An ordering that a store accepts: any but `Acquire` and `AcqRel`.
pub open spec fn store_ordering(order: Ordering) -> bool {
    order != Ordering::Acquire && order != Ordering::AcqRel
}

/// A lock-free cell for an optional text of at most sixteen UTF-16 code units.
pub struct AtomicName {
    words: [AtomicU64; 4],
    made_with: Ghost<Seq<u64>>,
}

impl AtomicName {
    /// The four words that the cell was made with. Stores do not change it:
    /// it says what the cell held first, not what it holds now.
    pub closed spec fn initial(&self) -> Seq<u64> {
        self.made_with@
    }

    /// A cell that holds `val`, or no name for `None`.
    pub fn new(val: Option<[u8; 32]>) -> (r: Self)
        ensures
            r.initial() == written(buffer_view(val)),
    {
        let words = words_of(val);
        AtomicName {
            words: [
                AtomicU64::new(words[0]),
                AtomicU64::new(words[1]),
                AtomicU64::new(words[2]),
                AtomicU64::new(words[3]),
            ],
            made_with: Ghost(words@),
        }
    }

    /// A cell that holds the first sixteen code units of `val`.
    pub fn from_str(val: &str) -> (r: Self)
        ensures
            r.initial() == written_text(Some(val@)),
    {
        Self::new(Some(encode_text(val)))
    }

    /// A cell for a text as it stands in a record: the first sixteen code units
    /// of a text, no name for `None`.
    pub fn from_option(val: Option<&str>) -> (r: Self)
        ensures
            r.initial() == written_text(str_view(val)),
    {
        Self::new(Some(encode_option(val)))
    }

    /// The buffer in the cell, `None` where all its bytes are zero.
    pub fn load(&self, order: Ordering) -> (r: Option<[u8; 32]>)
        requires
            load_ordering(order),
        ensures
            r matches Some(buffer) ==> !is_blank(buffer@),
    {
        let words = self.load_words(order);
        proof {
            lemma_read_is_sound(words@);
        }
        buffer_in(&words)
    }

    /// The text in the cell: what stands in front of the first zero unit.
    /// `None` for the blank buffer, and for units that are no UTF-16.
    pub fn load_string(&self, order: Ordering) -> (r: Option<String>)
        requires
            load_ordering(order),
        ensures
            r matches Some(text) ==> is_name(text@),
    {
        let words = self.load_words(order);
        proof {
            lemma_read_is_sound(words@);
        }
        text_in(&words)
    }

    /// Overwrites the whole cell with `val`, or with the blank buffer for `None`.
    pub fn store(&self, val: Option<[u8; 32]>, order: Ordering)
        requires
            store_ordering(order),
    {
        let words = words_of(val);
        self.words[0].store(words[0], order);
        self.words[1].store(words[1], order);
        self.words[2].store(words[2], order);
        self.words[3].store(words[3], order);
    }

    /// Overwrites the whole cell with the first sixteen code units of a text,
    /// or with the blank buffer for `None`.
    pub fn store_str(&self, val: Option<&str>, order: Ordering)
        requires
            store_ordering(order),
    {
        self.store(Some(encode_option(val)), order);
    }

    /// The four words, read one after the other.
    fn load_words(&self, order: Ordering) -> (words: [u64; 4])
        requires
            load_ordering(order),
    {
        let w0: u64 = self.words[0].load(order);
        let w1: u64 = self.words[1].load(order);
        let w2: u64 = self.words[2].load(order);
        let w3: u64 = self.words[3].load(order);
        [w0, w1, w2, w3]
    }
}

/// What an optional buffer holds.
pub open spec fn buffer_view(val: Option<[u8; 32]>) -> Option<Seq<u8>> {
    match val {
        Some(b) => Some(b@),
        None => None,
    }
}

/// The words that a cell is given for `val`: those of the buffer, or of the
/// blank buffer for `None`.
pub open spec fn written(val: Option<Seq<u8>>) -> Seq<u64> {
    match val {
        Some(b) => pack(b),
        None => pack(blank()),
    }
}

/// The words that a cell is given for an optional text.
pub open spec fn written_text(val: Option<Seq<char>>) -> Seq<u64> {
    pack(option_buffer(val))
}

/// The buffer that is read out of a cell with the given words.
pub open spec fn read(words: Seq<u64>) -> Option<Seq<u8>> {
    present(unpack(words))
}

/// The text that is read out of a cell with the given words.
pub open spec fn read_text(words: Seq<u64>) -> Option<Seq<char>> {
    buffer_text(unpack(words))
}

/// The words to put into a cell for `val`.
pub fn words_of(val: Option<[u8; 32]>) -> (words: [u64; 4])
    ensures
        words@ == written(buffer_view(val)),
{
    match val {
        Some(b) => pack_words(&b),
        None => {
            let buffer: [u8; 32] = [0u8; 32];
            assert(buffer@ =~= blank());
            pack_words(&buffer)
        },
    }
}

/// The words to put into a cell for an optional text.
pub fn words_of_text(val: Option<&str>) -> (words: [u64; 4])
    ensures
        words@ == written_text(str_view(val)),
{
    pack_words(&encode_option(val))
}

/// The buffer that a cell with the given words hands out.
pub fn buffer_in(words: &[u64; 4]) -> (r: Option<[u8; 32]>)
    ensures
        buffer_view(r) == read(words@),
{
    present_buffer(unpack_words(words))
}

/// The text that a cell with the given words hands out.
pub fn text_in(words: &[u64; 4]) -> (r: Option<String>)
    ensures
        text_view(r) == read_text(words@),
{
    decode_text(&unpack_words(words))
}

/// Whatever the words, the buffer read out of them is not blank and the text
/// read out of them is a name.
pub proof fn lemma_read_is_sound(words: Seq<u64>)
    ensures
        read(words) matches Some(buffer) ==> !is_blank(buffer),
        read_text(words) matches Some(text) ==> is_name(text),
{
    lemma_buffer_text_is_name(unpack(words));
}

/// A buffer that is not blank is read as it was written, and a blank one, as
/// the lack of one, is read as none.
pub proof fn lemma_buffer_round_trip(val: Option<Seq<u8>>)
    requires
        val matches Some(buffer) ==> buffer.len() == 32,
    ensures
        read(written(val)) == match val {
            Some(buffer) => present(buffer),
            None => None,
        },
{
    lemma_blank_is_absent();
    match val {
        Some(buffer) => lemma_unpack_pack(buffer),
        None => lemma_unpack_pack(blank()),
    }
}

/// A text of one to sixteen code units, none of them zero, is read as it was
/// written.
pub proof fn lemma_name_round_trip(text: Seq<char>)
    requires
        is_name(text),
        text.len() > 0,
    ensures
        read_text(written_text(Some(text))) == Some(text),
{
    lemma_text_buffer(text);
    lemma_unpack_pack(text_buffer(text));
    lemma_text_round_trip(text);
}

/// A cell that was given no value holds the blank buffer and is read as
/// none, as a buffer and as a text.
pub proof fn lemma_absent_round_trip()
    ensures
        unpack(written(None)) == blank(),
        written_text(None) == written(None),
        read(written(None)) is None,
        read_text(written(None)) is None,
{
    lemma_blank_is_absent();
    lemma_unpack_pack(blank());
}

/// A text of sixteen or more code units is cut: the cell is read as the
/// buffer of its first sixteen units. Where these are the whole of the text's
/// first `chars` characters, none of them zero, those are the text it is read as.
pub proof fn lemma_name_truncated(text: Seq<char>, chars: int)
    requires
        encode(text).len() >= 16,
        0 <= chars <= text.len(),
        encode(text.take(chars)).len() == 16,
        no_zero(text.take(chars)),
    ensures
        buffer_units(unpack(written_text(Some(text)))) == encode(text).take(16),
        read_text(written_text(Some(text))) == Some(text.take(chars)),
{
    lemma_text_buffer(text);
    lemma_unpack_pack(text_buffer(text));
    lemma_text_truncated(text, chars);
}

} // verus!
