use smush_info::buffer::{decode_text, encode_option, encode_text, is_blank_buffer, present_buffer, unit_at};
use smush_info::utf16::{decode_units, encode_prefix};
use smush_info::words::{pack_words, unpack_words};

const TEXTS: [&str; 10] = [
    "",
    "A",
    "AB12",
    "つыůš",
    "😀",
    "a😀b😀",
    "\u{d7ff}\u{e000}\u{ffff}\u{10000}\u{10ffff}",
    "ABCDEFGHIJKLMNOPQRST",
    "aaaaaaaaaaaaaaa😀bbbb",
    "with\0zero",
];

#[test]
fn units_are_those_of_std() {
    for text in TEXTS {
        let all: Vec<u16> = text.encode_utf16().collect();
        assert_eq!(encode_prefix(text, usize::MAX), all);
        for limit in 0..24 {
            let expected: Vec<u16> = text.encode_utf16().take(limit).collect();
            assert_eq!(encode_prefix(text, limit), expected);
        }
    }
}

#[test]
fn exact_units() {
    assert_eq!(encode_prefix("A", 16), vec![0x0041]);
    assert_eq!(encode_prefix("つ", 16), vec![0x3064]);
    assert_eq!(encode_prefix("😀", 16), vec![0xD83D, 0xDE00]);
    assert_eq!(encode_prefix("😀", 1), vec![0xD83D]);
    assert_eq!(encode_prefix("\u{10000}", 16), vec![0xD800, 0xDC00]);
    assert_eq!(encode_prefix("\u{10ffff}", 16), vec![0xDBFF, 0xDFFF]);
    assert_eq!(encode_prefix("anything", 0), Vec::<u16>::new());
}

#[test]
fn decoding_is_that_of_std() {
    let cases: Vec<Vec<u16>> = vec![
        vec![],
        vec![0x41],
        vec![0x41, 0x42, 0x31, 0x32],
        vec![0xD83D, 0xDE00],
        vec![0xD83D],
        vec![0xDE00],
        vec![0xDE00, 0xD83D],
        vec![0xD83D, 0x41],
        vec![0xD83D, 0xD83D, 0xDE00],
        vec![0x41, 0xD800, 0xDC00, 0x42],
        vec![0xDBFF, 0xDFFF],
        vec![0xDBFF, 0xE000],
        vec![0xD7FF, 0xE000, 0xFFFF],
        vec![0, 0x41],
        vec![0x41, 0xDC00],
    ];
    for units in cases {
        assert_eq!(decode_units(&units), String::from_utf16(&units).ok());
    }
    for text in TEXTS {
        let units: Vec<u16> = text.encode_utf16().collect();
        assert_eq!(decode_units(&units), Some(text.to_string()));
    }
}

#[test]
fn exact_decoding() {
    assert_eq!(decode_units(&vec![0xD83D, 0xDE00]), Some("😀".to_string()));
    assert_eq!(decode_units(&vec![0xD800, 0xDC00]), Some("\u{10000}".to_string()));
    assert_eq!(decode_units(&vec![0x3064, 0x44B]), Some("つы".to_string()));
    assert_eq!(decode_units(&vec![0xD83D]), None);
    assert_eq!(decode_units(&vec![]), Some(String::new()));
}

#[test]
fn buffer_has_low_byte_first_and_zero_behind() {
    let buffer = encode_text("A😀");
    let mut expected = [0u8; 32];
    expected[0] = 0x41;
    expected[2] = 0x3D;
    expected[3] = 0xD8;
    expected[4] = 0x00;
    expected[5] = 0xDE;
    assert_eq!(buffer, expected);
    assert_eq!(unit_at(&buffer, 0), 0x0041);
    assert_eq!(unit_at(&buffer, 1), 0xD83D);
    assert_eq!(unit_at(&buffer, 2), 0xDE00);
    assert_eq!(unit_at(&buffer, 15), 0);
}

#[test]
fn buffer_of_none_and_of_the_empty_text_is_blank() {
    assert_eq!(encode_option(None), [0u8; 32]);
    assert_eq!(encode_option(Some("")), [0u8; 32]);
    assert_eq!(encode_option(Some("AB")), encode_text("AB"));
    assert!(is_blank_buffer(&[0u8; 32]));
    assert_eq!(present_buffer([0u8; 32]), None);
    assert_eq!(decode_text(&[0u8; 32]), None);
    let mut last = [0u8; 32];
    last[31] = 1;
    assert!(!is_blank_buffer(&last));
    assert_eq!(present_buffer(last), Some(last));
    assert_eq!(decode_text(&last), Some(String::new()));
}

#[test]
fn buffers_of_texts_decode() {
    for text in TEXTS {
        let units: Vec<u16> = text.encode_utf16().take(16).take_while(|u| *u != 0).collect();
        let expected = if text.encode_utf16().take(16).all(|u| u == 0) {
            None
        } else {
            String::from_utf16(&units).ok()
        };
        assert_eq!(decode_text(&encode_text(text)), expected);
    }
}

#[test]
fn words_hold_eight_bytes_lowest_first() {
    let mut buffer = [0u8; 32];
    for i in 0..32 {
        buffer[i] = (i + 1) as u8;
    }
    let words = pack_words(&buffer);
    assert_eq!(
        words,
        [
            0x0807_0605_0403_0201,
            0x100F_0E0D_0C0B_0A09,
            0x1817_1615_1413_1211,
            0x201F_1E1D_1C1B_1A19,
        ]
    );
    for i in 0..4 {
        let mut chunk = [0u8; 8];
        chunk.copy_from_slice(&buffer[8 * i..8 * i + 8]);
        assert_eq!(words[i], u64::from_le_bytes(chunk));
    }
    assert_eq!(unpack_words(&words), buffer);
}

#[test]
fn packing_and_unpacking_undo_each_other() {
    let words = [0xFFFF_FFFF_FFFF_FFFF, 0x8000_0000_0000_0001, 0, 0x0123_4567_89AB_CDEF];
    let buffer = unpack_words(&words);
    assert_eq!(buffer[0], 0xFF);
    assert_eq!(buffer[8], 0x01);
    assert_eq!(buffer[15], 0x80);
    assert_eq!(buffer[24], 0xEF);
    assert_eq!(buffer[31], 0x01);
    assert_eq!(pack_words(&buffer), words);
    let high = [0x80u8; 32];
    assert_eq!(unpack_words(&pack_words(&high)), high);
}
