//! Text as 16-bit code units.
//!
//! A name travels through the table as UTF-16: one unit for a character of the
//! basic plane, a leading and a trailing surrogate for any other. This module
//! defines that encoding over `Seq<char>` and `Seq<u16>`, proves that decoding
//! undoes encoding, and implements both directions.

use vstd::prelude::*;

verus! {

/// The first unit of a surrogate pair.
pub open spec fn is_leading(u: u16) -> bool {
    0xD800 <= u <= 0xDBFF
}

/// The second unit of a surrogate pair.
pub open spec fn is_trailing(u: u16) -> bool {
    0xDC00 <= u <= 0xDFFF
}

/// A unit that stands for a character by itself.
pub open spec fn is_single(u: u16) -> bool {
    !is_leading(u) && !is_trailing(u)
}

/// A number that some `char` has.
pub open spec fn is_scalar(v: u32) -> bool {
    v < 0xD800 || 0xE000 <= v <= 0x10FFFF
}

/// The units of one character: itself below `0x10000`, else its surrogate pair.
pub open spec fn char_units(c: char) -> Seq<u16> {
    let v = c as u32;
    if v < 0x10000 {
        seq![v as u16]
    } else {
        seq![(0xD800 + (v - 0x10000) / 0x400) as u16, (0xDC00 + (v - 0x10000) % 0x400) as u16]
    }
}

/// The character that the pair `leading`, `trailing` stands for.
pub open spec fn pair_char(leading: u16, trailing: u16) -> char {
    (0x10000 + (leading - 0xD800) * 0x400 + (trailing - 0xDC00)) as char
}

/// The UTF-16 encoding of `text`.
pub open spec fn encode(text: Seq<char>) -> Seq<u16>
    decreases text.len(),
{
    if text.len() == 0 {
        Seq::empty()
    } else {
        char_units(text[0]) + encode(text.drop_first())
    }
}

/// The text that `units` encode; `None` where a surrogate stands without its partner.
pub open spec fn decode(units: Seq<u16>) -> Option<Seq<char>>
    decreases units.len(),
{
    if units.len() == 0 {
        Some(Seq::empty())
    } else if is_single(units[0]) {
        prepend(seq![units[0] as char], decode(units.drop_first()))
    } else if is_leading(units[0]) && units.len() >= 2 && is_trailing(units[1]) {
        prepend(seq![pair_char(units[0], units[1])], decode(units.skip(2)))
    } else {
        None
    }
}

/// `head` in front of `tail`, where there is a `tail`.
pub open spec fn prepend(head: Seq<char>, tail: Option<Seq<char>>) -> Option<Seq<char>> {
    match tail {
        Some(rest) => Some(head + rest),
        None => None,
    }
}

/// The first `limit` elements of `units`, or all of them where there are fewer.
pub open spec fn prefix(units: Seq<u16>, limit: int) -> Seq<u16> {
    if units.len() <= limit {
        units
    } else {
        units.take(limit)
    }
}

/// No character of `text` is the character zero.
pub open spec fn no_zero(text: Seq<char>) -> bool {
    forall|i: int| 0 <= i < text.len() ==> text[i] as u32 != 0
}

/// What an optional string holds.
pub open spec fn text_view(text: Option<String>) -> Option<Seq<char>> {
    match text {
        Some(s) => Some(s@),
        None => None,
    }
}

/// What an optional string slice holds.
pub open spec fn str_view(text: Option<&str>) -> Option<Seq<char>> {
    match text {
        Some(s) => Some(s@),
        None => None,
    }
}

/// `char::from_u32` of std: the character with the number `i`, where `i` is a
/// scalar value (below `0xD800`, or from `0xE000` to `0x10FFFF`), else `None`.
pub assume_specification[ char::from_u32 ](i: u32) -> (r: Option<char>)
    ensures
        r is Some <==> is_scalar(i),
        r matches Some(c) ==> c as u32 == i,
;

/// `String::push` of std: appends `ch` at the end of the string.
pub assume_specification[ String::push ](s: &mut String, ch: char)
    ensures
        final(s)@ == old(s)@.push(ch),
;

/// A character has one or two units, the first never a trailing surrogate, and
/// two exactly when the first is a leading one.
pub proof fn lemma_char_units(c: char)
    ensures
        char_units(c).len() == 1 || char_units(c).len() == 2,
        char_units(c).len() == 1 ==> is_single(char_units(c)[0]) && char_units(c)[0] as char == c,
        char_units(c).len() == 2 ==> is_leading(char_units(c)[0]) && is_trailing(char_units(c)[1])
            && pair_char(char_units(c)[0], char_units(c)[1]) == c,
        (c as u32 == 0) <==> char_units(c)[0] == 0,
        char_units(c).len() == 2 ==> char_units(c)[1] != 0,
{
    let v = c as u32;
    if v >= 0x10000 {
        let x = (v - 0x10000) as int;
        assert(0 <= x <= 0xFFFFF);
        assert(0 <= x / 0x400 <= 0x3FF);
        assert(0 <= x % 0x400 <= 0x3FF);
        assert(x == (x / 0x400) * 0x400 + x % 0x400);
    }
}

/// Encoding goes through concatenation.
pub proof fn lemma_encode_concat(a: Seq<char>, b: Seq<char>)
    ensures
        encode(a + b) == encode(a) + encode(b),
    decreases a.len(),
{
    if a.len() == 0 {
        assert(a + b =~= b);
        assert(encode(a) + encode(b) =~= encode(b));
    } else {
        lemma_encode_concat(a.drop_first(), b);
        assert((a + b).drop_first() =~= a.drop_first() + b);
        assert((a + b)[0] == a[0]);
        assert(encode(a + b) =~= encode(a) + encode(b));
    }
}

/// A text has at least as many units as characters, and at most twice as many.
pub proof fn lemma_encode_len(text: Seq<char>)
    ensures
        text.len() <= encode(text).len() <= 2 * text.len(),
    decreases text.len(),
{
    if text.len() > 0 {
        lemma_char_units(text[0]);
        lemma_encode_len(text.drop_first());
    }
}

/// Decoding undoes encoding.
pub proof fn lemma_decode_encode(text: Seq<char>)
    ensures
        decode(encode(text)) == Some(text),
    decreases text.len(),
{
    if text.len() == 0 {
        assert(encode(text) =~= Seq::<u16>::empty());
        assert(text =~= Seq::<char>::empty());
    } else {
        let c = text[0];
        let rest = text.drop_first();
        let units = encode(text);
        lemma_char_units(c);
        lemma_decode_encode(rest);
        assert(units[0] == char_units(c)[0]);
        if char_units(c).len() == 1 {
            assert(units.drop_first() =~= encode(rest));
            assert(seq![c] + rest =~= text);
        } else {
            assert(units[1] == char_units(c)[1]);
            assert(units.skip(2) =~= encode(rest));
            assert(seq![c] + rest =~= text);
        }
    }
}

/// Whatever decodes was encoded: `units` are the encoding of the text they decode to.
pub proof fn lemma_encode_decode(units: Seq<u16>)
    ensures
        decode(units) matches Some(text) ==> encode(text) == units,
    decreases units.len(),
{
    if units.len() == 0 {
    } else if is_single(units[0]) {
        lemma_encode_decode(units.drop_first());
        if let Some(rest) = decode(units.drop_first()) {
            let c = units[0] as char;
            let text = seq![c] + rest;
            assert(text.drop_first() =~= rest);
            assert(c as u32 == units[0]);
            assert(char_units(c) =~= seq![units[0]]);
            assert(char_units(c) + units.drop_first() =~= units);
        }
    } else if is_leading(units[0]) && units.len() >= 2 && is_trailing(units[1]) {
        lemma_encode_decode(units.skip(2));
        if let Some(rest) = decode(units.skip(2)) {
            let c = pair_char(units[0], units[1]);
            let text = seq![c] + rest;
            lemma_pair_units(units[0], units[1]);
            assert(text.drop_first() =~= rest);
            assert(char_units(c) + units.skip(2) =~= units);
        }
    }
}

/// The units of the character of a pair are that pair.
pub proof fn lemma_pair_units(leading: u16, trailing: u16)
    requires
        is_leading(leading),
        is_trailing(trailing),
    ensures
        char_units(pair_char(leading, trailing)) == seq![leading, trailing],
{
    let h = (leading - 0xD800) as int;
    let l = (trailing - 0xDC00) as int;
    let v = 0x10000 + h * 0x400 + l;
    assert(0x10000 <= v <= 0x10FFFF);
    let c = pair_char(leading, trailing);
    assert(c as u32 == v);
    assert((h * 0x400 + l) / 0x400 == h);
    assert((h * 0x400 + l) % 0x400 == l);
    assert(char_units(c) =~= seq![leading, trailing]);
}

/// A text holds the character zero exactly where its encoding holds the unit zero.
pub proof fn lemma_encode_zero(text: Seq<char>)
    ensures
        no_zero(text) <==> forall|k: int| 0 <= k < encode(text).len() ==> encode(text)[k] != 0,
    decreases text.len(),
{
    let units = encode(text);
    if text.len() > 0 {
        let c = text[0];
        let rest = text.drop_first();
        lemma_char_units(c);
        lemma_encode_zero(rest);
        let n = char_units(c).len() as int;
        assert(forall|k: int| 0 <= k < n ==> units[k] == char_units(c)[k]);
        assert(forall|k: int| 0 <= k < encode(rest).len() ==> encode(rest)[k] == units[k + n]);
        assert(forall|i: int| 0 <= i < rest.len() ==> rest[i] == text[i + 1]);
        if no_zero(text) {
            assert(no_zero(rest));
            assert forall|k: int| 0 <= k < units.len() implies units[k] != 0 by {
                if k >= n {
                    assert(units[k] == encode(rest)[k - n]);
                }
            }
        }
        if forall|k: int| 0 <= k < units.len() ==> units[k] != 0 {
            assert(units[0] != 0);
            assert forall|k: int| 0 <= k < encode(rest).len() implies encode(rest)[k] != 0 by {
                assert(units[k + n] != 0);
            }
            assert(no_zero(rest));
            assert forall|i: int| 0 <= i < text.len() implies text[i] as u32 != 0 by {
                if i > 0 {
                    assert(text[i] == rest[i - 1]);
                }
            }
        }
    }
}

/// The first `limit` code units of `text`, all of them where it has fewer.
pub fn encode_prefix(text: &str, limit: usize) -> (units: Vec<u16>)
    ensures
        units@ == prefix(encode(text@), limit as int),
{
    let count = text.unicode_len();
    let mut units: Vec<u16> = Vec::new();
    let mut i: usize = 0;
    proof {
        assert(text@.take(0) =~= Seq::<char>::empty());
    }
    while i < count && units.len() < limit
        invariant
            i <= count,
            count == text@.len(),
            units@ == prefix(encode(text@.take(i as int)), limit as int),
        decreases count - i,
    {
        let c = text.get_char(i);
        let v: u32 = c as u32;
        proof {
            let done = text@.take(i as int);
            assert(text@.take(i + 1) =~= done + seq![c]);
            lemma_encode_concat(done, seq![c]);
            assert(seq![c].drop_first() =~= Seq::<char>::empty());
            assert(encode(Seq::<char>::empty()) =~= Seq::<u16>::empty());
            assert(seq![c][0] == c);
            assert(encode(seq![c]) =~= char_units(c) + Seq::<u16>::empty());
            assert(encode(seq![c]) =~= char_units(c));
            lemma_char_units(c);
            assert(units@ == encode(done));
        }
        if v < 0x10000 {
            units.push(v as u16);
        } else {
            let x: u32 = v - 0x10000;
            units.push((0xD800 + x / 0x400) as u16);
            if units.len() < limit {
                units.push((0xDC00 + x % 0x400) as u16);
            }
        }
        i += 1;
        proof {
            let next = encode(text@.take(i as int));
            assert(units@ =~= prefix(next, limit as int));
        }
    }
    proof {
        let done = text@.take(i as int);
        let rest = text@.skip(i as int);
        assert(done + rest =~= text@);
        lemma_encode_concat(done, rest);
        if i == count {
            assert(done =~= text@);
        } else {
            assert(units@ =~= prefix(encode(text@), limit as int));
        }
    }
    units
}

/// The text that `units` encode, `None` where they are no well-formed UTF-16.
pub fn decode_units(units: &Vec<u16>) -> (text: Option<String>)
    ensures
        text_view(text) == decode(units@),
{
    let mut out = String::new();
    let mut i: usize = 0;
    proof {
        assert(units@.skip(0) =~= units@);
        assert(decode(units@) == prepend(out@, decode(units@)));
    }
    while i < units.len()
        invariant
            i <= units.len(),
            decode(units@) == prepend(out@, decode(units@.skip(i as int))),
        decreases units.len() - i,
    {
        let ghost before = out@;
        let ghost tail = units@.skip(i as int);
        let u: u16 = units[i];
        assert(tail[0] == u);
        if u < 0xD800 || u > 0xDFFF {
            match char::from_u32(u as u32) {
                Some(c) => {
                    out.push(c);
                    proof {
                        assert(tail.drop_first() =~= units@.skip(i + 1));
                        lemma_char_number(c, u as u32);
                        assert(c == u as char);
                        lemma_prepend_step(before, seq![c], decode(units@.skip(i + 1)));
                    }
                    i += 1;
                },
                None => {
                    return None;
                },
            }
        } else if u <= 0xDBFF && i + 1 < units.len() && 0xDC00 <= units[i + 1] && units[i + 1]
            <= 0xDFFF {
            let t: u16 = units[i + 1];
            assert(tail[1] == t);
            let v: u32 = 0x10000 + ((u - 0xD800) as u32) * 0x400 + ((t - 0xDC00) as u32);
            match char::from_u32(v) {
                Some(c) => {
                    out.push(c);
                    proof {
                        assert(tail.skip(2) =~= units@.skip(i + 2));
                        lemma_char_number(c, v);
                        assert(c == pair_char(u, t));
                        lemma_prepend_step(before, seq![c], decode(units@.skip(i + 2)));
                    }
                    i += 2;
                },
                None => {
                    return None;
                },
            }
        } else {
            return None;
        }
    }
    proof {
        assert(units@.skip(i as int) =~= Seq::<u16>::empty());
        assert(out@ + Seq::<char>::empty() =~= out@);
    }
    Some(out)
}

/// A character is known by its number.
proof fn lemma_char_number(c: char, v: u32)
    requires
        c as u32 == v,
    ensures
        c == v as char,
{
}

/// Putting `head` in front in two steps is putting `before + head` in front once.
proof fn lemma_prepend_step(before: Seq<char>, head: Seq<char>, tail: Option<Seq<char>>)
    ensures
        prepend(before, prepend(head, tail)) == prepend(before + head, tail),
        head.len() == 1 ==> before + head == before.push(head[0]),
{
    if let Some(rest) = tail {
        assert(before + (head + rest) =~= (before + head) + rest);
    }
    if head.len() == 1 {
        assert(before + head =~= before.push(head[0]));
    }
}

} // verus!
