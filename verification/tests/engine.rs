use text_decode::engine::{decode, decode_lossy, fits, DecodeAttempt, DecodeError};

const PRIVET_1251: [u8; 6] = [0xCF, 0xF0, 0xE8, 0xE2, 0xE5, 0xF2];

#[test]
fn decode_under_windows_cyrillic() {
    let attempt = decode(&PRIVET_1251, "windows-1251");
    assert_eq!(
        attempt,
        Ok(DecodeAttempt { text: "Привет".to_string(), had_errors: false })
    );
}

#[test]
fn decode_under_another_label_gives_another_text() {
    let attempt = decode(&PRIVET_1251, "windows-1252");
    assert_eq!(
        attempt,
        Ok(DecodeAttempt { text: "Ïðèâåò".to_string(), had_errors: false })
    );
    let attempt = decode(&PRIVET_1251, "KOI8-R");
    assert_eq!(
        attempt,
        Ok(DecodeAttempt { text: "оПХБЕР".to_string(), had_errors: false })
    );
}

#[test]
fn decode_accepts_labels_as_the_registry_does() {
    let expected = Ok(DecodeAttempt { text: "Привет".to_string(), had_errors: false });
    assert_eq!(decode(&PRIVET_1251, "WINDOWS-1251"), expected);
    assert_eq!(decode(&PRIVET_1251, "cp1251"), expected);
    assert_eq!(decode(&PRIVET_1251, " windows-1251 "), expected);
}

#[test]
fn an_unknown_label_is_reported_not_fatal() {
    assert_eq!(decode(b"abc", "no such encoding"), Err(DecodeError::UnsupportedLabel));
    assert_eq!(decode(b"abc", ""), Err(DecodeError::UnsupportedLabel));
    assert_eq!(decode(b"", "klingon"), Err(DecodeError::UnsupportedLabel));
    assert_eq!(decode(&PRIVET_1251, "MacCyrillic"), Err(DecodeError::UnsupportedLabel));
}

#[test]
fn malformed_bytes_are_replaced_and_flagged() {
    let attempt = decode(b"a\xFFb", "UTF-8");
    assert_eq!(
        attempt,
        Ok(DecodeAttempt { text: "a\u{FFFD}b".to_string(), had_errors: true })
    );
    let attempt = decode(&[0x81], "Shift_JIS");
    assert_eq!(
        attempt,
        Ok(DecodeAttempt { text: "\u{FFFD}".to_string(), had_errors: true })
    );
}

#[test]
fn a_replacement_character_in_the_input_is_no_error() {
    let attempt = decode("a\u{FFFD}b".as_bytes(), "UTF-8");
    assert_eq!(
        attempt,
        Ok(DecodeAttempt { text: "a\u{FFFD}b".to_string(), had_errors: false })
    );
}

#[test]
fn the_empty_buffer_decodes_cleanly_under_every_label() {
    for label in [
        "UTF-8",
        "windows-1252",
        "windows-1251",
        "gb18030",
        "Big5",
        "EUC-KR",
        "Shift_JIS",
        "ISO-2022-JP",
        "UTF-16LE",
        "UTF-16BE",
        "replacement",
        "x-user-defined",
    ] {
        assert_eq!(
            decode(b"", label),
            Ok(DecodeAttempt { text: String::new(), had_errors: false })
        );
    }
}

#[test]
fn well_formed_utf8_decodes_to_itself() {
    let text = "Hello, world — Привет, мир — 你好";
    assert_eq!(
        decode(text.as_bytes(), "UTF-8"),
        Ok(DecodeAttempt { text: text.to_string(), had_errors: false })
    );
}

#[test]
fn a_byte_order_mark_decides_the_encoding_and_is_dropped() {
    assert_eq!(
        decode(b"\xEF\xBB\xBFhi", "windows-1252"),
        Ok(DecodeAttempt { text: "hi".to_string(), had_errors: false })
    );
    assert_eq!(
        decode(b"\xEF\xBB\xBFhi", "UTF-8"),
        Ok(DecodeAttempt { text: "hi".to_string(), had_errors: false })
    );
    assert_eq!(
        decode(b"\xFF\xFEh\x00i\x00", "UTF-8"),
        Ok(DecodeAttempt { text: "hi".to_string(), had_errors: false })
    );
    assert_eq!(
        decode(b"\xFE\xFF\x00h\x00i", "windows-1251"),
        Ok(DecodeAttempt { text: "hi".to_string(), had_errors: false })
    );
}

#[test]
fn lossy_reading_replaces_what_is_malformed() {
    assert_eq!(decode_lossy(b"a\xFFb"), "a\u{FFFD}b");
    assert_eq!(decode_lossy(&PRIVET_1251), "\u{FFFD}\u{FFFD}\u{FFFD}\u{FFFD}\u{FFFD}\u{FFFD}");
}

#[test]
fn lossy_reading_keeps_well_formed_text() {
    assert_eq!(decode_lossy("Привет".as_bytes()), "Привет");
    assert_eq!(decode_lossy(b""), "");
    assert_eq!(decode_lossy(b"\xEF\xBB\xBFhi"), "\u{FEFF}hi");
}

#[test]
fn ordinary_buffers_fit() {
    assert!(fits(b""));
    assert!(fits(b"abc"));
    assert!(fits(&[0u8; 4096]));
}
