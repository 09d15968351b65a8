//! The byte-distribution guesser.
//!
//! The statistics are `chardetng`'s. It reads the whole buffer at once and
//! always commits to one label.

use crate::engine::seven_bit;
use crate::signal::{DetectionSignal, Signal};
use chardetng::EncodingDetector;
use vstd::prelude::*;

verus! {

/// The name of the encoding that `chardetng::EncodingDetector::guess` settles
/// on, with no domain hint and with UTF-8 allowed, after one `feed` of the
/// whole buffer.
pub uninterp spec fn guessed_label(bytes: Seq<u8>) -> Seq<char>;

/// Seven-bit text: no byte has the high bit set and none is the escape
/// character, which switches character sets in seven-bit encodings.
pub open spec fn plain_ascii(bytes: Seq<u8>) -> bool {
    seven_bit(bytes) && forall|i: int| 0 <= i < bytes.len() ==> #[trigger] bytes[i] != 0x1B
}

/// `EncodingDetector::new`, one `feed` of the whole buffer as the last chunk,
/// then `guess` without a domain hint and with UTF-8 allowed; the encoding
/// found is handed on by its `name`.
///
/// Believed of them: the guess depends on the bytes alone, and a buffer of
/// seven-bit bytes without an escape character is guessed to be `UTF-8`
/// (`feed` hands nothing to the candidates before the first such byte, and
/// `guess` returns UTF-8 while that candidate is in the running).
#[verifier::external_body]
fn guess_label(bytes: &[u8]) -> (label: String)
    ensures
        label@ == guessed_label(bytes@),
        plain_ascii(bytes@) ==> label@ == "UTF-8"@,
{
    let mut detector = EncodingDetector::new();
    detector.feed(bytes, true);
    detector.guess(None, true).name().to_owned()
}

/// Runs the byte-distribution guesser over `buf`. It never fails, and its
/// guess carries no score.
pub fn statistical_signal(buf: &[u8]) -> (signal: DetectionSignal)
    ensures
        signal@ == (Signal { label: guessed_label(buf@), confidence: None }),
        plain_ascii(buf@) ==> signal@.label == "UTF-8"@,
{
    let label = guess_label(buf);
    DetectionSignal::guess(label.as_str())
}

} // verus!
