use text_decode::engine::{DecodeAttempt, DecodeError};
use text_decode::ladder::{
    ladder_step, rung_label, try_common_encodings, Fallback, Rung, LADDER_LEN,
};

fn attempt(text: &str, had_errors: bool) -> DecodeAttempt {
    DecodeAttempt { text: text.to_string(), had_errors }
}

#[test]
fn the_ladder_has_its_fixed_order() {
    assert_eq!(LADDER_LEN, 14);
    let expected = [
        "UTF-8",
        "windows-1252",
        "windows-1251",
        "windows-1256",
        "windows-1253",
        "windows-1254",
        "windows-1257",
        "windows-1250",
        "gb18030",
        "Big5",
        "EUC-KR",
        "Shift_JIS",
        "windows-1258",
        "windows-874",
    ];
    for (index, label) in expected.iter().enumerate() {
        assert_eq!(rung_label(index), *label);
    }
}

#[test]
fn every_rung_is_known_to_the_registry() {
    for index in 0..LADDER_LEN {
        assert!(text_decode::engine::decode(b"", rung_label(index)).is_ok());
    }
}

#[test]
fn a_clean_attempt_ends_the_search() {
    let (held, done) = ladder_step(None, 0, Ok(attempt("text", false)));
    assert!(done);
    assert_eq!(held, Some(Rung { index: 0, attempt: attempt("text", false) }));
}

#[test]
fn a_lossy_attempt_is_held_and_the_search_goes_on() {
    let (held, done) = ladder_step(None, 2, Ok(attempt("te\u{FFFD}t", true)));
    assert!(!done);
    assert_eq!(held, Some(Rung { index: 2, attempt: attempt("te\u{FFFD}t", true) }));
}

#[test]
fn a_later_attempt_replaces_the_one_held() {
    let earlier = Some(Rung { index: 1, attempt: attempt("old", true) });
    let (held, done) = ladder_step(earlier, 5, Ok(attempt("new", true)));
    assert!(!done);
    assert_eq!(held, Some(Rung { index: 5, attempt: attempt("new", true) }));
    let (held, done) = ladder_step(held, 6, Ok(attempt("clean", false)));
    assert!(done);
    assert_eq!(held, Some(Rung { index: 6, attempt: attempt("clean", false) }));
}

#[test]
fn an_unsupported_rung_changes_nothing() {
    let (held, done) = ladder_step(None, 3, Err(DecodeError::UnsupportedLabel));
    assert!(!done);
    assert_eq!(held, None);
    let earlier = Some(Rung { index: 1, attempt: attempt("old", true) });
    let (held, done) = ladder_step(earlier.clone(), 4, Err(DecodeError::UnsupportedLabel));
    assert!(!done);
    assert_eq!(held, earlier);
}

#[test]
fn well_formed_utf8_stops_at_the_top_rung() {
    let fallback = try_common_encodings("Привет, мир".as_bytes());
    assert_eq!(
        fallback,
        Fallback { text: "Привет, мир".to_string(), rung: Some(0), clean: true }
    );
}

#[test]
fn the_empty_buffer_gives_the_empty_text() {
    let fallback = try_common_encodings(b"");
    assert_eq!(fallback, Fallback { text: String::new(), rung: Some(0), clean: true });
}

#[test]
fn bytes_that_are_not_utf8_go_to_the_next_rung() {
    let fallback = try_common_encodings(&[0xCF, 0xF0, 0xE8, 0xE2, 0xE5, 0xF2]);
    assert_eq!(fallback, Fallback { text: "Ïðèâåò".to_string(), rung: Some(1), clean: true });
}

#[test]
fn every_byte_value_still_gives_a_text() {
    let bytes: Vec<u8> = (0..=255u8).collect();
    let fallback = try_common_encodings(&bytes);
    assert_eq!(fallback.text.chars().count(), 256);
    assert!(fallback.rung.is_some());
    let noise: Vec<u8> = (0..4096u32).map(|i| (i.wrapping_mul(2654435761) >> 24) as u8).collect();
    let fallback = try_common_encodings(&noise);
    assert!(!fallback.text.is_empty());
}
