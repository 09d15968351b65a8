//! The decode engine: one attempt at rendering a buffer under one label.
//!
//! The decoders themselves belong to `encoding_rs`. What they return is named
//! here, so that the rest of the library can say which attempt it hands back.

use encoding_rs::Encoding;
use vstd::prelude::*;
use vstd::utf8::*;

verus! {

/// Whether the encoding registry knows `label`: whether
/// `encoding_rs::Encoding::for_label` returns an encoding for it.
pub uninterp spec fn label_supported(label: Seq<char>) -> bool;

/// What `encoding_rs::Encoding::decode` makes of `bytes` under the encoding
/// that the registry holds for `label`: the text, and whether malformed
/// sequences were replaced.
pub uninterp spec fn decoding(label: Seq<char>, bytes: Seq<u8>) -> (Seq<char>, bool);

/// What `String::from_utf8_lossy` makes of `bytes`.
pub uninterp spec fn lossy_utf8(bytes: Seq<u8>) -> Seq<char>;

/// The longest buffer that is decoded. A decoder sizes its output at up to
/// three bytes for each byte read, rounded up to a power of two; below this
/// length that size fits in `usize`.
pub open spec fn input_fits(bytes: Seq<u8>) -> bool {
    bytes.len() <= usize::MAX / 8
}

/// The buffer starts with a UTF-8 or UTF-16 byte order mark.
pub open spec fn has_bom(bytes: Seq<u8>) -> bool {
    ||| bytes.len() >= 3 && bytes[0] == 0xEF && bytes[1] == 0xBB && bytes[2] == 0xBF
    ||| bytes.len() >= 2 && bytes[0] == 0xFF && bytes[1] == 0xFE
    ||| bytes.len() >= 2 && bytes[0] == 0xFE && bytes[1] == 0xFF
}

/// No byte has the high bit set.
pub open spec fn seven_bit(bytes: Seq<u8>) -> bool {
    forall|i: int| 0 <= i < bytes.len() ==> #[trigger] bytes[i] < 0x80
}

/// Seven-bit bytes read as characters, one for one.
pub open spec fn ascii_text(bytes: Seq<u8>) -> Seq<char> {
    Seq::new(bytes.len(), |i: int| bytes[i] as char)
}

/// Why an attempt could not be made.
#[derive(Clone, Copy, Debug, PartialEq, Eq, Structural)]
pub enum DecodeError {
    /// The registry has no encoding under the label.
    UnsupportedLabel,
}

/// The model of one attempt.
pub struct Attempt {
    pub text: Seq<char>,
    pub had_errors: bool,
}

/// The result of applying one label to a buffer.
#[derive(Clone, Debug, PartialEq, Eq)]
pub struct DecodeAttempt {
    /// The decoded text, malformed sequences replaced by U+FFFD.
    pub text: String,
    /// Whether anything was replaced.
    pub had_errors: bool,
}

impl View for DecodeAttempt {
    type V = Attempt;

    open spec fn view(&self) -> Attempt {
        Attempt { text: self.text@, had_errors: self.had_errors }
    }
}

/// What one attempt comes to: the attempt, or the reason there is none.
pub type Outcome = Result<Attempt, DecodeError>;

/// The model of what `decode` returns.
pub open spec fn outcome_view(outcome: Result<DecodeAttempt, DecodeError>) -> Outcome {
    match outcome {
        Ok(attempt) => Ok(attempt@),
        Err(error) => Err(error),
    }
}

/// An outcome that ends the search: an attempt that replaced nothing.
pub open spec fn is_clean(outcome: Outcome) -> bool {
    outcome matches Ok(attempt) && !attempt.had_errors
}

/// The attempt under `label`: the named decoding where the registry knows the
/// label, `UnsupportedLabel` where it does not.
pub open spec fn attempt_under(label: Seq<char>, bytes: Seq<u8>) -> Outcome {
    if label_supported(label) {
        Ok(Attempt { text: decoding(label, bytes).0, had_errors: decoding(label, bytes).1 })
    } else {
        Err(DecodeError::UnsupportedLabel)
    }
}

/// What is known of an attempt beyond its name:
/// the registry knows `UTF-8`; an empty buffer decodes cleanly to the empty
/// text under every label; under `UTF-8` a well-formed buffer without a byte
/// order mark decodes cleanly to the text it encodes.
pub open spec fn attempt_laws(label: Seq<char>, bytes: Seq<u8>) -> bool {
    let outcome = attempt_under(label, bytes);
    &&& label == "UTF-8"@ ==> outcome is Ok
    &&& outcome matches Ok(attempt) ==> {
        &&& bytes.len() == 0 ==> attempt.text.len() == 0 && !attempt.had_errors
        &&& label == "UTF-8"@ && valid_utf8(bytes) && !has_bom(bytes) ==> attempt.text
            == decode_utf8(bytes) && !attempt.had_errors
    }
}

/// `Encoding::for_label` on the label's bytes, then `Encoding::decode` on the
/// buffer under the encoding found.
///
/// Believed of them: the lookup depends on the label alone and the decoding on
/// label and buffer alone; the lookup finds `UTF-8`; an empty buffer gives the
/// empty text and no error; under `UTF-8` a well-formed buffer that starts
/// with no byte order mark comes back as the text it encodes, with no error.
/// `decode` panics where the size of its output buffer overflows `usize`,
/// which `input_fits` rules out.
#[verifier::external_body]
fn decode_under(label: &str, bytes: &[u8]) -> (found: Option<(String, bool)>)
    requires
        input_fits(bytes@),
    ensures
        found is Some <==> label_supported(label@),
        found matches Some(pair) ==> pair.0@ == decoding(label@, bytes@).0 && pair.1 == decoding(
            label@,
            bytes@,
        ).1,
        label@ == "UTF-8"@ ==> found is Some,
        found matches Some(pair) ==> (bytes@.len() == 0 ==> pair.0@.len() == 0 && !pair.1),
        found matches Some(pair) ==> (label@ == "UTF-8"@ && valid_utf8(bytes@) && !has_bom(bytes@)
            ==> pair.0@ == decode_utf8(bytes@) && !pair.1),
{
    let encoding = Encoding::for_label(label.as_bytes())?;
    let (text, _, had_errors) = encoding.decode(bytes);
    Some((text.into_owned(), had_errors))
}

/// `String::from_utf8_lossy`, made an owned string.
///
/// Believed of it: the result depends on the bytes alone, and a well-formed
/// buffer comes back as the text it encodes.
#[verifier::external_body]
fn lossy_text(bytes: &[u8]) -> (text: String)
    requires
        input_fits(bytes@),
    ensures
        text@ == lossy_utf8(bytes@),
        valid_utf8(bytes@) ==> text@ == decode_utf8(bytes@),
{
    String::from_utf8_lossy(bytes).into_owned()
}

/// Whether `buf` is short enough to be decoded.
pub fn fits(buf: &[u8]) -> (ok: bool)
    ensures
        ok == input_fits(buf@),
{
    buf.len() <= usize::MAX / 8
}

/// Attempts to render `buf` under `label`.
///
/// An unknown label is no failure of the engine: it is reported as
/// `UnsupportedLabel`, and the caller falls back. A known label always gives a
/// full string, with malformed sequences replaced and flagged.
pub fn decode(buf: &[u8], label: &str) -> (outcome: Result<DecodeAttempt, DecodeError>)
    requires
        input_fits(buf@),
    ensures
        outcome_view(outcome) == attempt_under(label@, buf@),
        attempt_laws(label@, buf@),
{
    match decode_under(label, buf) {
        Some((text, had_errors)) => Ok(DecodeAttempt { text, had_errors }),
        None => Err(DecodeError::UnsupportedLabel),
    }
}

/// Reads `buf` as UTF-8, replacing what is malformed: the rendering of last
/// resort, which needs no registry.
pub fn decode_lossy(buf: &[u8]) -> (text: String)
    requires
        input_fits(buf@),
    ensures
        text@ == lossy_utf8(buf@),
        valid_utf8(buf@) ==> text@ == decode_utf8(buf@),
{
    lossy_text(buf)
}

/// Seven-bit bytes are well-formed UTF-8, start with no byte order mark and
/// encode their own characters.
pub proof fn lemma_seven_bit_is_utf8(bytes: Seq<u8>)
    requires
        seven_bit(bytes),
    ensures
        valid_utf8(bytes),
        !has_bom(bytes),
        decode_utf8(bytes) == ascii_text(bytes),
{
    let text = ascii_text(bytes);
    assert(is_ascii_chars(text)) by {
        assert forall|i: int| 0 <= i < text.len() implies '\0' <= #[trigger] text[i]
            <= '\u{7f}' by {
            assert(bytes[i] < 0x80);
        }
    }
    is_ascii_chars_encode_utf8(text);
    assert(encode_utf8(text) =~= bytes) by {
        assert forall|i: int| 0 <= i < bytes.len() implies encode_utf8(text)[i] == bytes[i] by {
            assert(text[i] as u8 == encode_utf8(text)[i]);
            assert(bytes[i] < 0x80);
        }
    }
    encode_utf8_valid_utf8(text);
    encode_utf8_decode_utf8(text);
    if bytes.len() >= 2 {
        assert(bytes[0] < 0x80);
    }
}

} // verus!
