//! The fixed byte buffer of a name.
//!
//! A name occupies 32 bytes: up to 16 code units, each as two bytes with the
//! low byte first, and zero bytes behind them. The buffer of all zero bytes
//! stands for "no name". Reading stops at the first zero unit, whatever
//! follows it, and units that are no well-formed UTF-16 give "no name" too.

use vstd::prelude::*;
use crate::utf16::{decode, decode_units, encode, encode_prefix, lemma_decode_encode, lemma_encode_concat, lemma_encode_decode, lemma_encode_len, lemma_encode_zero, no_zero, prefix, str_view, text_view};

verus! {

/// Code units that a buffer has room for.
pub const NAME_UNITS: usize = 16;

/// Bytes of a buffer.
pub const NAME_BYTES: usize = 32;

/// The low byte of a unit.
pub open spec fn low_byte(u: u16) -> u8 {
    (u & 0xff) as u8
}

/// The high byte of a unit.
pub open spec fn high_byte(u: u16) -> u8 {
    (u >> 8) as u8
}

/// The unit with the given bytes.
pub open spec fn unit_of(low: u8, high: u8) -> u16 {
    (low as u16) | ((high as u16) << 8)
}

/// The buffer that holds `units`: those that have room, low byte first, then zeros.
pub open spec fn units_buffer(units: Seq<u16>) -> Seq<u8> {
    Seq::new(
        32,
        |j: int|
            if j / 2 < units.len() {
                if j % 2 == 0 {
                    low_byte(units[j / 2])
                } else {
                    high_byte(units[j / 2])
                }
            } else {
                0u8
            },
    )
}

/// The 16 units that a buffer holds.
pub open spec fn buffer_units(bytes: Seq<u8>) -> Seq<u16> {
    Seq::new(16, |k: int| unit_of(bytes[2 * k], bytes[2 * k + 1]))
}

/// The buffer of a text: its first 16 code units.
pub open spec fn text_buffer(text: Seq<char>) -> Seq<u8> {
    units_buffer(encode(text))
}

/// The buffer that an optional text is kept in: all zero for none.
pub open spec fn option_buffer(text: Option<Seq<char>>) -> Seq<u8> {
    match text {
        Some(t) => text_buffer(t),
        None => blank(),
    }
}

/// The buffer of 32 zero bytes.
pub open spec fn blank() -> Seq<u8> {
    Seq::new(32, |j: int| 0u8)
}

/// All bytes are zero.
pub open spec fn is_blank(bytes: Seq<u8>) -> bool {
    forall|j: int| 0 <= j < bytes.len() ==> bytes[j] == 0
}

/// Where the first zero unit stands; the length where there is none.
pub open spec fn terminator(units: Seq<u16>) -> int
    decreases units.len(),
{
    if units.len() == 0 || units[0] == 0 {
        0
    } else {
        1 + terminator(units.drop_first())
    }
}

/// The units of a buffer up to its first zero unit.
pub open spec fn text_units(bytes: Seq<u8>) -> Seq<u16> {
    buffer_units(bytes).take(terminator(buffer_units(bytes)))
}

/// The text that a buffer holds: none for the blank buffer and for units that
/// do not decode.
pub open spec fn buffer_text(bytes: Seq<u8>) -> Option<Seq<char>> {
    if is_blank(bytes) {
        None
    } else {
        decode(text_units(bytes))
    }
}

/// A buffer as it is handed out: `None` in place of the blank one.
pub open spec fn present(bytes: Seq<u8>) -> Option<Seq<u8>> {
    if is_blank(bytes) {
        None
    } else {
        Some(bytes)
    }
}

/// A text that a buffer can give back: at most 16 units, none of them zero.
pub open spec fn is_name(text: Seq<char>) -> bool {
    &&& encode(text).len() <= 16
    &&& no_zero(text)
}

/// A unit and its two bytes determine each other, and the unit is zero exactly
/// when both bytes are.
pub proof fn lemma_unit_bytes(u: u16, low: u8, high: u8)
    ensures
        unit_of(low_byte(u), high_byte(u)) == u,
        low_byte(unit_of(low, high)) == low,
        high_byte(unit_of(low, high)) == high,
        unit_of(low, high) == 0 <==> low == 0 && high == 0,
{
    assert(((u & 0xff) as u8 as u16) | (((u >> 8) as u8 as u16) << 8) == u) by (bit_vector);
    assert((((low as u16) | ((high as u16) << 8)) & 0xff) as u8 == low) by (bit_vector);
    assert((((low as u16) | ((high as u16) << 8)) >> 8) as u8 == high) by (bit_vector);
    assert(((low as u16) | ((high as u16) << 8)) == 0 <==> low == 0 && high == 0) by (bit_vector);
}

/// The first zero unit stands at `k` when no unit before `k` is zero and
/// either `k` is the length or the unit at `k` is zero.
pub proof fn lemma_terminator(units: Seq<u16>, k: int)
    requires
        0 <= k <= units.len(),
        forall|j: int| 0 <= j < k ==> units[j] != 0,
        k == units.len() || units[k] == 0,
    ensures
        terminator(units) == k,
    decreases k,
{
    if k > 0 {
        let rest = units.drop_first();
        assert(forall|j: int| 0 <= j < k - 1 ==> rest[j] == units[j + 1]);
        lemma_terminator(rest, k - 1);
    }
}

/// No unit before the terminator is zero, and the terminator lies within the units.
pub proof fn lemma_terminator_bounds(units: Seq<u16>)
    ensures
        0 <= terminator(units) <= units.len(),
        forall|j: int| 0 <= j < terminator(units) ==> units[j] != 0,
        terminator(units) < units.len() ==> units[terminator(units)] == 0,
    decreases units.len(),
{
    if units.len() > 0 && units[0] != 0 {
        let rest = units.drop_first();
        lemma_terminator_bounds(rest);
        assert(forall|j: int| 1 <= j < units.len() ==> units[j] == rest[j - 1]);
    }
}

/// A buffer made from units gives back the first 16 of them, and zeros behind.
pub proof fn lemma_buffer_units(units: Seq<u16>)
    ensures
        forall|k: int|
            0 <= k < 16 ==> #[trigger] buffer_units(units_buffer(units))[k] == if k < units.len() {
                units[k]
            } else {
                0u16
            },
{
    let bytes = units_buffer(units);
    assert forall|k: int| 0 <= k < 16 implies #[trigger] buffer_units(bytes)[k] == if k
        < units.len() {
        units[k]
    } else {
        0u16
    } by {
        assert((2 * k) / 2 == k && (2 * k) % 2 == 0);
        assert((2 * k + 1) / 2 == k && (2 * k + 1) % 2 == 1);
        if k < units.len() {
            lemma_unit_bytes(units[k], 0, 0);
        } else {
            lemma_unit_bytes(0, 0, 0);
        }
    }
}

/// A buffer is blank exactly when each of its units is zero.
pub proof fn lemma_blank_units(bytes: Seq<u8>)
    requires
        bytes.len() == 32,
    ensures
        is_blank(bytes) <==> forall|k: int| 0 <= k < 16 ==> buffer_units(bytes)[k] == 0,
{
    let units = buffer_units(bytes);
    if is_blank(bytes) {
        assert forall|k: int| 0 <= k < 16 implies units[k] == 0 by {
            lemma_unit_bytes(0, bytes[2 * k], bytes[2 * k + 1]);
        }
    }
    if forall|k: int| 0 <= k < 16 ==> units[k] == 0 {
        assert forall|j: int| 0 <= j < 32 implies bytes[j] == 0 by {
            let k = j / 2;
            assert(units[k] == 0);
            lemma_unit_bytes(0, bytes[2 * k], bytes[2 * k + 1]);
        }
    }
}

/// Buffers hold 32 bytes, and only the first 16 units of a text reach one.
pub proof fn lemma_text_buffer(text: Seq<char>)
    ensures
        text_buffer(text).len() == 32,
        text_buffer(text) == units_buffer(prefix(encode(text), 16)),
        buffer_units(text_buffer(text)).take(prefix(encode(text), 16).len() as int) == prefix(
            encode(text),
            16,
        ),
{
    let units = encode(text);
    let kept = prefix(units, 16);
    assert(units_buffer(units) =~= units_buffer(kept));
    lemma_buffer_units(kept);
    assert(buffer_units(units_buffer(kept)).take(kept.len() as int) =~= kept);
}

/// A text of one to sixteen units, none of them zero, comes back from its
/// buffer as it went in.
pub proof fn lemma_text_round_trip(text: Seq<char>)
    requires
        is_name(text),
        text.len() > 0,
    ensures
        buffer_text(text_buffer(text)) == Some(text),
{
    let units = encode(text);
    let bytes = text_buffer(text);
    let held = buffer_units(bytes);
    lemma_encode_len(text);
    lemma_buffer_units(units);
    lemma_encode_zero(text);
    assert(forall|k: int| 0 <= k < units.len() ==> units[k] != 0);
    assert(forall|k: int| 0 <= k < units.len() ==> held[k] == units[k]);
    lemma_terminator(held, units.len() as int);
    assert(held.take(units.len() as int) =~= units);
    lemma_blank_units(bytes);
    assert(held[0] != 0);
    lemma_decode_encode(text);
}

/// A text of more than sixteen units leaves its first sixteen in the buffer.
/// Where these are the whole of its first `chars` characters and none of them
/// is zero, those characters are the text that the buffer holds.
pub proof fn lemma_text_truncated(text: Seq<char>, chars: int)
    requires
        encode(text).len() >= 16,
        0 <= chars <= text.len(),
        encode(text.take(chars)).len() == 16,
        no_zero(text.take(chars)),
    ensures
        buffer_units(text_buffer(text)) == encode(text).take(16),
        encode(text).take(16) == encode(text.take(chars)),
        buffer_text(text_buffer(text)) == Some(text.take(chars)),
{
    let units = encode(text);
    let head = text.take(chars);
    lemma_buffer_units(units);
    assert(buffer_units(text_buffer(text)) =~= units.take(16));
    assert(head + text.skip(chars) =~= text);
    lemma_encode_concat(head, text.skip(chars));
    assert(units.take(16) =~= encode(head));
    assert(text_buffer(text) =~= text_buffer(head));
    lemma_text_round_trip(head);
}

/// What a buffer holds is a name: the text of at most 16 units, none zero,
/// whose encoding stands in front of the buffer's first zero unit.
pub proof fn lemma_buffer_text_is_name(bytes: Seq<u8>)
    requires
        bytes.len() == 32,
    ensures
        buffer_text(bytes) matches Some(text) ==> is_name(text) && encode(text) == text_units(
            bytes,
        ),
{
    if let Some(text) = buffer_text(bytes) {
        let held = buffer_units(bytes);
        let units = text_units(bytes);
        lemma_terminator_bounds(held);
        lemma_encode_decode(units);
        lemma_encode_zero(text);
    }
}

/// The blank buffer holds no text and is handed out as none.
pub proof fn lemma_blank_is_absent()
    ensures
        is_blank(blank()),
        buffer_text(blank()) is None,
        present(blank()) is None,
        option_buffer(None) == blank(),
{
}

/// Whether every byte of `buffer` is zero.
pub fn is_blank_buffer(buffer: &[u8; 32]) -> (r: bool)
    ensures
        r == is_blank(buffer@),
{
    let mut j: usize = 0;
    while j < 32
        invariant
            j <= 32,
            forall|i: int| 0 <= i < j ==> buffer@[i] == 0,
        decreases 32 - j,
    {
        if buffer[j] != 0 {
            return false;
        }
        j += 1;
    }
    true
}

/// The buffer for `text`: its first 16 code units, low byte first, zero behind.
pub fn encode_text(text: &str) -> (buffer: [u8; 32])
    ensures
        buffer@ == text_buffer(text@),
{
    let units = encode_prefix(text, NAME_UNITS);
    let mut buffer: [u8; 32] = [0u8; 32];
    let mut k: usize = 0;
    while k < units.len()
        invariant
            k <= units.len() <= 16,
            forall|j: int| 0 <= j < 2 * k ==> buffer@[j] == units_buffer(units@)[j],
            forall|j: int| 2 * k <= j < 32 ==> buffer@[j] == 0,
        decreases units.len() - k,
    {
        let u: u16 = units[k];
        buffer[2 * k] = (u & 0xff) as u8;
        buffer[2 * k + 1] = (u >> 8) as u8;
        k += 1;
    }
    proof {
        lemma_text_buffer(text@);
        assert(buffer@ =~= units_buffer(units@));
    }
    buffer
}

/// The buffer for an optional text: the blank one for none.
pub fn encode_option(text: Option<&str>) -> (buffer: [u8; 32])
    ensures
        buffer@ == option_buffer(str_view(text)),
{
    match text {
        Some(t) => encode_text(t),
        None => {
            let buffer: [u8; 32] = [0u8; 32];
            assert(buffer@ =~= blank());
            buffer
        },
    }
}

/// The unit at place `k` of `buffer`.
pub fn unit_at(buffer: &[u8; 32], k: usize) -> (u: u16)
    requires
        k < 16,
    ensures
        u == buffer_units(buffer@)[k as int],
{
    (buffer[2 * k] as u16) | ((buffer[2 * k + 1] as u16) << 8)
}

/// The text in `buffer`: none for the blank buffer; else what the units in
/// front of the first zero unit decode to, none where they do not decode.
pub fn decode_text(buffer: &[u8; 32]) -> (text: Option<String>)
    ensures
        text_view(text) == buffer_text(buffer@),
        text matches Some(t) ==> is_name(t@),
{
    proof {
        lemma_buffer_text_is_name(buffer@);
    }
    if is_blank_buffer(buffer) {
        return None;
    }
    let mut units: Vec<u16> = Vec::new();
    let mut k: usize = 0;
    while k < 16 && unit_at(buffer, k) != 0
        invariant
            k <= 16,
            units@ == buffer_units(buffer@).take(k as int),
            forall|j: int| 0 <= j < k ==> buffer_units(buffer@)[j] != 0,
        decreases 16 - k,
    {
        units.push(unit_at(buffer, k));
        k += 1;
        proof {
            let held = buffer_units(buffer@);
            assert(held.take(k as int) =~= held.take(k - 1).push(held[k - 1]));
        }
    }
    proof {
        lemma_terminator(buffer_units(buffer@), k as int);
    }
    decode_units(&units)
}

/// `buffer` as it is handed out: `None` where it is blank.
pub fn present_buffer(buffer: [u8; 32]) -> (r: Option<[u8; 32]>)
    ensures
        r matches Some(b) ==> b == buffer && !is_blank(buffer@),
        r is None <==> is_blank(buffer@),
{
    if is_blank_buffer(&buffer) {
        None
    } else {
        Some(buffer)
    }
}

} // verus!
