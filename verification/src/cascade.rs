//! The cascade from detection to text.
//!
//! The leading signal names the detected encoding and goes through the alias
//! table once. A trusted signal gets one decode under the corrected label; a
//! clean decode is the result. Anything else goes down the fallback ladder.
//! The two labels reported describe what was detected, whichever encoding
//! gave the text in the end.

use crate::detector::{guessed_label, plain_ascii, statistical_signal};
use crate::engine::{
    ascii_text, attempt_under, decode, has_bom, input_fits, is_clean, lemma_seven_bit_is_utf8,
    DecodeAttempt, DecodeError, Outcome,
};
use crate::label::{
    canonical, is_cyrillic_alias, lemma_unicode_is_canonical, resolve_alias, windows_cyrillic,
};
use crate::ladder::{ladder_fallback, try_common_encodings, FallbackView};
use crate::signal::{
    leading, lemma_best, lemma_selection, runner_up, select, trusted, views, DetectionSignal,
    Signal, Standing, TRUST_THRESHOLD,
};
use vstd::prelude::*;
use vstd::utf8::*;

verus! {

/// The label reported where no detector said anything: the guess that a
/// detector makes of text that gives it nothing to go on.
pub open spec fn default_label() -> Seq<char> {
    "UTF-8"@
}

/// The label of the leading signal, as its detector reported it.
pub open spec fn detected_label(signals: Seq<Signal>) -> Seq<char> {
    match leading(signals) {
        Some(i) => signals[i].label,
        None => default_label(),
    }
}

/// The first label reported: the detected label after alias correction.
pub open spec fn primary_label(signals: Seq<Signal>) -> Seq<char> {
    canonical(detected_label(signals))
}

/// The second label reported: that of the next-best signal as its detector
/// gave it, or the detected label itself where there is no other signal.
pub open spec fn secondary_label(signals: Seq<Signal>) -> Seq<char> {
    match runner_up(signals) {
        Some(i) => signals[i].label,
        None => detected_label(signals),
    }
}

/// The attempt under the corrected label, made only for a trusted signal.
pub open spec fn primary_outcome(bytes: Seq<u8>, signals: Seq<Signal>) -> Option<Outcome> {
    if trusted(signals) is Some {
        Some(attempt_under(primary_label(signals), bytes))
    } else {
        None
    }
}

/// The text that stands: that of a clean first attempt, else the ladder's.
pub open spec fn settled_text(primary: Option<Outcome>, fallback: FallbackView) -> Seq<char> {
    match primary {
        Some(Ok(attempt)) => if attempt.had_errors {
            fallback.text
        } else {
            attempt.text
        },
        _ => fallback.text,
    }
}

/// The model of a result.
pub struct Decoded {
    pub text: Seq<char>,
    pub primary: Seq<char>,
    pub secondary: Seq<char>,
}

/// The whole cascade, from a buffer and the signals about it to the result.
pub open spec fn cascade(bytes: Seq<u8>, signals: Seq<Signal>) -> Decoded {
    Decoded {
        text: settled_text(primary_outcome(bytes, signals), ladder_fallback(bytes)),
        primary: primary_label(signals),
        secondary: secondary_label(signals),
    }
}

/// The signal that the byte-distribution guesser gives for a buffer.
pub open spec fn statistical(bytes: Seq<u8>) -> Signal {
    Signal { label: guessed_label(bytes), confidence: None }
}

/// The model of the triple that `decode_buffer` returns.
pub open spec fn decoded(result: (String, String, String)) -> Decoded {
    Decoded { text: result.0@, primary: result.1@, secondary: result.2@ }
}

/// The final output: the text and the two labels that describe detection.
#[derive(Clone, Debug, PartialEq, Eq)]
pub struct DecodeResult {
    /// The decoded text: always a complete string.
    pub text: String,
    /// The detected encoding, after alias correction.
    pub primary: String,
    /// The next-best detection, kept for diagnostics only.
    pub secondary: String,
}

impl View for DecodeResult {
    type V = Decoded;

    open spec fn view(&self) -> Decoded {
        Decoded { text: self.text@, primary: self.primary@, secondary: self.secondary@ }
    }
}

/// Decides on the first attempt: its text where it was made and is clean,
/// nothing where the ladder has to be tried.
pub fn accept_clean(primary: Option<Result<DecodeAttempt, DecodeError>>) -> (text: Option<String>)
    ensures
        match primary {
            Some(Ok(attempt)) => if attempt.had_errors {
                text is None
            } else {
                text == Some(attempt.text)
            },
            _ => text is None,
        },
{
    match primary {
        Some(Ok(attempt)) => if attempt.had_errors {
            None
        } else {
            Some(attempt.text)
        },
        _ => None,
    }
}

/// Decodes `buf` on the strength of the given signals.
///
/// The result is the cascade of its arguments. An empty buffer gives the
/// empty text. A well-formed UTF-8 buffer without a byte order mark gives the
/// text it encodes unless a trusted signal names another encoding.
pub fn decode_with_signals(buf: &[u8], signals: &Vec<DetectionSignal>) -> (result: DecodeResult)
    requires
        input_fits(buf@),
    ensures
        result@ == cascade(buf@, views(signals@)),
        buf@.len() == 0 ==> result@.text.len() == 0,
        valid_utf8(buf@) && !has_bom(buf@) && (trusted(views(signals@)) is Some ==> primary_label(
            views(signals@),
        ) == "UTF-8"@) ==> result@.text == decode_utf8(buf@),
{
    proof {
        lemma_best(views(signals@), None);
        lemma_best(views(signals@), leading(views(signals@)));
    }
    let choice = select(signals);
    let (detected, is_trusted) = match choice.leading {
        Some(i) => {
            let standing = signals[i].standing();
            (signals[i].label().to_owned(), !(standing == Standing::Advisory))
        },
        None => ("UTF-8".to_owned(), false),
    };
    let primary = resolve_alias(detected.as_str());
    let secondary = match choice.runner_up {
        Some(i) => signals[i].label().to_owned(),
        None => detected,
    };
    let first = if is_trusted {
        Some(decode(buf, primary.as_str()))
    } else {
        None
    };
    let text = match accept_clean(first) {
        Some(text) => text,
        None => try_common_encodings(buf).text,
    };
    DecodeResult { text, primary, secondary }
}

/// Decodes a buffer of unknown encoding: the text, the detected encoding
/// after alias correction, and the encoding as the detector reported it.
///
/// The byte-distribution guesser is the one detector that is run, so the
/// result is the cascade over its signal alone. Every buffer gives a result;
/// the empty buffer gives the empty text; seven-bit text without an escape
/// character is detected as `UTF-8` and comes back character for character.
pub fn decode_buffer(buf: Vec<u8>) -> (result: (String, String, String))
    requires
        input_fits(buf@),
    ensures
        decoded(result) == cascade(buf@, seq![statistical(buf@)]),
        decoded(result) == (Decoded {
            text: settled_text(
                Some(attempt_under(canonical(guessed_label(buf@)), buf@)),
                ladder_fallback(buf@),
            ),
            primary: canonical(guessed_label(buf@)),
            secondary: guessed_label(buf@),
        }),
        buf@.len() == 0 ==> result.0@.len() == 0,
        plain_ascii(buf@) ==> decoded(result) == (Decoded {
            text: ascii_text(buf@),
            primary: "UTF-8"@,
            secondary: "UTF-8"@,
        }),
{
    let signal = statistical_signal(buf.as_slice());
    let mut signals: Vec<DetectionSignal> = Vec::new();
    signals.push(signal);
    proof {
        assert(views(signals@) =~= seq![statistical(buf@)]);
        lemma_single_signal(statistical(buf@));
        if plain_ascii(buf@) {
            lemma_seven_bit_is_utf8(buf@);
            lemma_unicode_is_canonical();
        }
    }
    let result = decode_with_signals(buf.as_slice(), &signals);
    (result.text, result.primary, result.secondary)
}

/// A signal on its own leads, has no runner-up, and is trusted unless it is
/// only advisory.
pub proof fn lemma_single_signal(signal: Signal)
    ensures
        leading(seq![signal]) == Some(0int),
        runner_up(seq![signal]) is None,
        trusted(seq![signal]) is Some <==> signal.confidence is None || signal.confidence->0
            > TRUST_THRESHOLD,
        detected_label(seq![signal]) == signal.label,
        secondary_label(seq![signal]) == signal.label,
{
    let signals = seq![signal];
    lemma_selection(signals);
    lemma_best(signals, None);
}

/// A signal that carries one of the Cyrillic aliases is decoded as
/// Windows-Cyrillic: where it leads and is trusted and the buffer decodes
/// cleanly under the canonical label, that decoding is the text, and the
/// canonical label is the one reported first.
pub proof fn lemma_alias_corrected(bytes: Seq<u8>, signals: Seq<Signal>)
    requires
        trusted(signals) is Some,
        is_cyrillic_alias(detected_label(signals)),
        is_clean(attempt_under(windows_cyrillic(), bytes)),
    ensures
        cascade(bytes, signals).primary == windows_cyrillic(),
        cascade(bytes, signals).text == attempt_under(windows_cyrillic(), bytes)->Ok_0.text,
{
}

/// The labels reported depend on the signals alone: whichever rung of the
/// ladder gave the text, they describe what was detected.
pub proof fn lemma_labels_describe_detection(bytes: Seq<u8>, other: Seq<u8>, signals: Seq<Signal>)
    ensures
        cascade(bytes, signals).primary == cascade(other, signals).primary,
        cascade(bytes, signals).secondary == cascade(other, signals).secondary,
{
}

/// A clean first attempt is final: the ladder has no say in the text.
pub proof fn lemma_clean_attempt_stands(bytes: Seq<u8>, signals: Seq<Signal>)
    requires
        primary_outcome(bytes, signals) matches Some(outcome) && is_clean(outcome),
    ensures
        cascade(bytes, signals).text == attempt_under(primary_label(signals), bytes)->Ok_0.text,
{
}

/// Without a clean first attempt the text is the ladder's.
pub proof fn lemma_fallback_stands(bytes: Seq<u8>, signals: Seq<Signal>)
    requires
        !(primary_outcome(bytes, signals) matches Some(outcome) && is_clean(outcome)),
    ensures
        cascade(bytes, signals).text == ladder_fallback(bytes).text,
{
}

} // verus!
