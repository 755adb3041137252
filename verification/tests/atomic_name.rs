use smush_info::atomic_name::{buffer_in, text_in, words_of, words_of_text};
use smush_info::AtomicName;
use std::sync::atomic::Ordering;

fn le_bytes(text: &str) -> [u8; 32] {
    let mut buffer = [0u8; 32];
    for (i, unit) in text.encode_utf16().take(16).enumerate() {
        buffer[2 * i] = unit.to_le_bytes()[0];
        buffer[2 * i + 1] = unit.to_le_bytes()[1];
    }
    buffer
}

#[test]
fn test_serde_round_trip() {
    let x = AtomicName::from_str("つыůš");
    let json = serde_json::to_string(&x.load_string(Ordering::SeqCst)).unwrap();
    assert_eq!(json, "\"つыůš\"");
    let text: Option<String> = serde_json::from_str(&json).unwrap();
    let y = AtomicName::from_option(text.as_deref());
    assert_eq!(x.load(Ordering::SeqCst), y.load(Ordering::SeqCst));
}

#[test]
fn test_serde_round_trip_struct() {
    let x = AtomicName::from_str("つыůš");
    let mut fields = serde_json::Map::new();
    fields.insert(
        "val".to_string(),
        serde_json::to_value(x.load_string(Ordering::SeqCst)).unwrap(),
    );
    let json = serde_json::to_string(&serde_json::Value::Object(fields)).unwrap();
    assert_eq!(json, "{\"val\":\"つыůš\"}");
    let parsed: serde_json::Value = serde_json::from_str(&json).unwrap();
    let text: Option<String> = serde_json::from_value(parsed["val"].clone()).unwrap();
    let y = AtomicName::from_option(text.as_deref());
    assert_eq!(x.load(Ordering::SeqCst), y.load(Ordering::SeqCst));
}

#[test]
fn null_in_a_record_is_a_cell_without_name() {
    let text: Option<String> = serde_json::from_str("null").unwrap();
    let cell = AtomicName::from_option(text.as_deref());
    assert_eq!(cell.load(Ordering::SeqCst), None);
    assert_eq!(cell.load_string(Ordering::SeqCst), None);
    assert_eq!(serde_json::to_string(&cell.load_string(Ordering::SeqCst)).unwrap(), "null");
}

#[test]
fn stored_text_is_loaded_again() {
    let cell = AtomicName::new(None);
    cell.store_str(Some("AB12"), Ordering::SeqCst);
    assert_eq!(cell.load_string(Ordering::SeqCst), Some("AB12".to_string()));
    assert_eq!(cell.load(Ordering::SeqCst), Some(le_bytes("AB12")));
}

#[test]
fn every_short_text_is_loaded_again() {
    let texts = [
        "a",
        "Player 1",
        "つыůš",
        "0123456789abcdef",
        "😀😀😀😀😀😀😀😀",
        "x😀y",
        "\u{ffff}\u{e000}\u{d7ff}",
        "\u{10000}\u{10ffff}",
    ];
    for text in texts {
        let cell = AtomicName::new(None);
        cell.store_str(Some(text), Ordering::SeqCst);
        assert_eq!(cell.load_string(Ordering::SeqCst), Some(text.to_string()));
        assert_eq!(AtomicName::from_str(text).load_string(Ordering::SeqCst), Some(text.to_string()));
        assert_eq!(text_in(&words_of_text(Some(text))), Some(text.to_string()));
    }
}

#[test]
fn fresh_cell_is_absent() {
    let cell = AtomicName::new(None);
    assert_eq!(cell.load(Ordering::SeqCst), None);
    assert_eq!(cell.load_string(Ordering::SeqCst), None);
    assert_eq!(words_of(None), [0u64; 4]);
    assert_eq!(words_of_text(None), [0u64; 4]);
    assert_eq!(smush_info::words::unpack_words(&words_of(None)), [0u8; 32]);
}

#[test]
fn cell_made_with_a_buffer_holds_it() {
    let buffer = le_bytes("HELLO");
    let cell = AtomicName::new(Some(buffer));
    assert_eq!(cell.load(Ordering::SeqCst), Some(buffer));
    assert_eq!(cell.load_string(Ordering::SeqCst), Some("HELLO".to_string()));
}

#[test]
fn storing_none_clears() {
    let cell = AtomicName::new(None);
    cell.store_str(Some("HELLO"), Ordering::SeqCst);
    assert_eq!(cell.load_string(Ordering::SeqCst), Some("HELLO".to_string()));
    cell.store_str(None, Ordering::SeqCst);
    assert_eq!(cell.load(Ordering::SeqCst), None);
    assert_eq!(cell.load_string(Ordering::SeqCst), None);
    cell.store(Some(le_bytes("HELLO")), Ordering::SeqCst);
    cell.store(None, Ordering::SeqCst);
    assert_eq!(cell.load(Ordering::SeqCst), None);
}

#[test]
fn long_text_is_cut_to_sixteen_units() {
    let text = "ABCDEFGHIJKLMNOPQRST";
    assert_eq!(text.encode_utf16().count(), 20);
    let cell = AtomicName::new(None);
    cell.store_str(Some(text), Ordering::SeqCst);
    assert_eq!(cell.load_string(Ordering::SeqCst), Some("ABCDEFGHIJKLMNOP".to_string()));
    assert_eq!(cell.load(Ordering::SeqCst), Some(le_bytes(text)));
    let made = AtomicName::from_str(text);
    assert_eq!(made.load_string(Ordering::SeqCst), Some("ABCDEFGHIJKLMNOP".to_string()));
}

#[test]
fn long_text_with_pairs_is_cut_between_characters() {
    let text = "😀😀😀😀😀😀😀😀😀😀";
    assert_eq!(text.encode_utf16().count(), 20);
    let cell = AtomicName::from_str(text);
    assert_eq!(cell.load_string(Ordering::SeqCst), Some("😀😀😀😀😀😀😀😀".to_string()));
}

#[test]
fn cut_through_a_pair_loads_as_absent_text() {
    let text = "aaaaaaaaaaaaaaa😀bbbb";
    let cell = AtomicName::from_str(text);
    assert_eq!(cell.load(Ordering::SeqCst), Some(le_bytes(text)));
    assert_eq!(cell.load_string(Ordering::SeqCst), None);
}

#[test]
fn text_ends_at_the_first_zero_unit() {
    let cell = AtomicName::from_str("AB\0CD");
    assert_eq!(cell.load_string(Ordering::SeqCst), Some("AB".to_string()));
    let mut buffer = le_bytes("A");
    buffer[30] = 0x42;
    cell.store(Some(buffer), Ordering::SeqCst);
    assert_eq!(cell.load_string(Ordering::SeqCst), Some("A".to_string()));
    assert_eq!(cell.load(Ordering::SeqCst), Some(buffer));
}

#[test]
fn zero_at_the_front_is_the_empty_text() {
    let cell = AtomicName::from_str("\0abc");
    assert_eq!(cell.load_string(Ordering::SeqCst), Some(String::new()));
}

#[test]
fn empty_text_is_stored_as_no_name() {
    let cell = AtomicName::from_str("x");
    cell.store_str(Some(""), Ordering::SeqCst);
    assert_eq!(cell.load(Ordering::SeqCst), None);
    assert_eq!(cell.load_string(Ordering::SeqCst), None);
}

#[test]
fn malformed_units_load_as_absent_text() {
    let mut lone_trailing = [0u8; 32];
    lone_trailing[0] = 0x00;
    lone_trailing[1] = 0xDC;
    let cell = AtomicName::new(Some(lone_trailing));
    assert_eq!(cell.load(Ordering::SeqCst), Some(lone_trailing));
    assert_eq!(cell.load_string(Ordering::SeqCst), None);

    let mut lone_leading = [0u8; 32];
    lone_leading[0] = 0x41;
    lone_leading[2] = 0x3D;
    lone_leading[3] = 0xD8;
    lone_leading[4] = 0x41;
    cell.store(Some(lone_leading), Ordering::SeqCst);
    assert_eq!(cell.load_string(Ordering::SeqCst), None);

    let mut leading_at_end = [0x41u8; 32];
    for i in 0..16 {
        leading_at_end[2 * i + 1] = 0;
    }
    leading_at_end[30] = 0x00;
    leading_at_end[31] = 0xD8;
    assert_eq!(buffer_in(&words_of(Some(leading_at_end))), Some(leading_at_end));
    assert_eq!(text_in(&words_of(Some(leading_at_end))), None);
}

#[test]
fn weaker_orderings_are_accepted() {
    let cell = AtomicName::new(None);
    cell.store_str(Some("relaxed"), Ordering::Relaxed);
    assert_eq!(cell.load_string(Ordering::Relaxed), Some("relaxed".to_string()));
    cell.store_str(Some("release"), Ordering::Release);
    assert_eq!(cell.load_string(Ordering::Acquire), Some("release".to_string()));
}

#[test]
fn words_are_read_whatever_they_hold() {
    assert_eq!(text_in(&[0, 0, 0, 0]), None);
    assert_eq!(buffer_in(&[0, 0, 0, 0]), None);
    assert_eq!(text_in(&[0x0042_0041, 0, 0, 0]), Some("AB".to_string()));
    assert_eq!(text_in(&[0, 0, 0, 1]), Some(String::new()));
    let all = [u64::MAX; 4];
    assert_eq!(buffer_in(&all), Some([0xFFu8; 32]));
    assert_eq!(text_in(&all), Some("\u{ffff}".repeat(16)));
}

#[test]
fn torn_words_still_give_a_name() {
    let old = words_of_text(Some("AAAAAAAAAAAAAAAA"));
    let new = words_of_text(Some("😀😀😀😀😀😀😀😀"));
    for mix in 0..16u32 {
        let mut words = old;
        for i in 0..4 {
            if mix & (1 << i) != 0 {
                words[i] = new[i];
            }
        }
        assert!(buffer_in(&words).is_some());
        if let Some(name) = text_in(&words) {
            assert!(name.encode_utf16().count() <= 16);
            assert!(!name.contains('\0'));
        }
    }
    let short = words_of_text(Some("Bob"));
    let torn = [short[0], old[1], old[2], old[3]];
    assert_eq!(text_in(&torn), Some("Bob".to_string()));
}
