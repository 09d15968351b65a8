//! The fallback ladder: a fixed sequence of common encodings, tried in order
//! until one of them decodes the buffer without a replacement.

use crate::engine::{
    attempt_under, decode, decode_lossy, has_bom, input_fits, is_clean, lossy_utf8,
    outcome_view, DecodeAttempt, DecodeError, Outcome,
};
use vstd::prelude::*;
use vstd::utf8::*;

verus! {

/// The number of rungs.
pub const LADDER_LEN: usize = 14;

/// The ladder, top rung first: Unicode, then Western European, Cyrillic,
/// Arabic, Greek, Turkish, Baltic, Central European, Chinese (simplified, then
/// traditional), Korean, Japanese, Vietnamese and Thai.
pub open spec fn ladder() -> Seq<Seq<char>> {
    seq![
        "UTF-8"@,
        "windows-1252"@,
        "windows-1251"@,
        "windows-1256"@,
        "windows-1253"@,
        "windows-1254"@,
        "windows-1257"@,
        "windows-1250"@,
        "gb18030"@,
        "Big5"@,
        "EUC-KR"@,
        "Shift_JIS"@,
        "windows-1258"@,
        "windows-874"@,
    ]
}

/// What each rung makes of the buffer.
pub open spec fn ladder_outcomes(bytes: Seq<u8>) -> Seq<Outcome> {
    Seq::new(ladder().len(), |i: int| attempt_under(ladder()[i], bytes))
}

/// The first clean outcome at or after `from`.
pub open spec fn first_clean_from(outcomes: Seq<Outcome>, from: int) -> Option<int>
    decreases outcomes.len() - from,
{
    if from < 0 || from >= outcomes.len() {
        None
    } else if is_clean(outcomes[from]) {
        Some(from)
    } else {
        first_clean_from(outcomes, from + 1)
    }
}

/// The last attempt made before `end`.
pub open spec fn last_attempt_before(outcomes: Seq<Outcome>, end: int) -> Option<int>
    decreases end,
{
    if end <= 0 || end > outcomes.len() {
        None
    } else if outcomes[end - 1] is Ok {
        Some(end - 1)
    } else {
        last_attempt_before(outcomes, end - 1)
    }
}

/// The rung whose attempt is handed back: the first clean one; where none is
/// clean, the last one that made an attempt at all.
pub open spec fn rung_used(outcomes: Seq<Outcome>) -> Option<int> {
    if first_clean_from(outcomes, 0) is Some {
        first_clean_from(outcomes, 0)
    } else {
        last_attempt_before(outcomes, outcomes.len() as int)
    }
}

/// The model of what the ladder hands back.
pub struct FallbackView {
    pub text: Seq<char>,
    pub rung: Option<int>,
    pub clean: bool,
}

/// What a ladder with these outcomes hands back: the attempt of the rung
/// used, or the rendering of last resort where no rung made an attempt.
pub open spec fn fallback_of(outcomes: Seq<Outcome>, last_resort: Seq<char>) -> FallbackView {
    match rung_used(outcomes) {
        Some(i) => FallbackView {
            text: outcomes[i]->Ok_0.text,
            rung: Some(i),
            clean: !outcomes[i]->Ok_0.had_errors,
        },
        None => FallbackView { text: last_resort, rung: None, clean: false },
    }
}

/// What the ladder hands back for a buffer.
pub open spec fn ladder_fallback(bytes: Seq<u8>) -> FallbackView {
    fallback_of(ladder_outcomes(bytes), lossy_utf8(bytes))
}

/// What the ladder hands back.
#[derive(Clone, Debug, PartialEq, Eq)]
pub struct Fallback {
    /// The text.
    pub text: String,
    /// The rung that gave it; none for the rendering of last resort.
    pub rung: Option<usize>,
    /// Whether that rung decoded the buffer without a replacement.
    pub clean: bool,
}

impl View for Fallback {
    type V = FallbackView;

    open spec fn view(&self) -> FallbackView {
        FallbackView {
            text: self.text@,
            rung: match self.rung {
                Some(i) => Some(i as int),
                None => None,
            },
            clean: self.clean,
        }
    }
}

/// An attempt together with the rung that made it.
#[derive(Clone, Debug, PartialEq, Eq)]
pub struct Rung {
    /// Where the rung stands on the ladder.
    pub index: usize,
    /// What it made of the buffer.
    pub attempt: DecodeAttempt,
}

/// The label of a rung.
pub fn rung_label(index: usize) -> (label: &'static str)
    requires
        index < LADDER_LEN,
    ensures
        label@ == ladder()[index as int],
{
    if index == 0 {
        "UTF-8"
    } else if index == 1 {
        "windows-1252"
    } else if index == 2 {
        "windows-1251"
    } else if index == 3 {
        "windows-1256"
    } else if index == 4 {
        "windows-1253"
    } else if index == 5 {
        "windows-1254"
    } else if index == 6 {
        "windows-1257"
    } else if index == 7 {
        "windows-1250"
    } else if index == 8 {
        "gb18030"
    } else if index == 9 {
        "Big5"
    } else if index == 10 {
        "EUC-KR"
    } else if index == 11 {
        "Shift_JIS"
    } else if index == 12 {
        "windows-1258"
    } else {
        "windows-874"
    }
}

/// One step down the ladder: takes what rung `index` made of the buffer and
/// says what is held now and whether the search is over. An attempt replaces
/// what was held, a clean one ends the search, an unsupported label changes
/// nothing.
pub fn ladder_step(
    held: Option<Rung>,
    index: usize,
    outcome: Result<DecodeAttempt, DecodeError>,
) -> (next: (Option<Rung>, bool))
    ensures
        next.1 == is_clean(outcome_view(outcome)),
        match outcome {
            Ok(attempt) => next.0 == Some(Rung { index, attempt }),
            Err(_) => next.0 == held,
        },
{
    match outcome {
        Ok(attempt) => {
            let done = !attempt.had_errors;
            (Some(Rung { index, attempt }), done)
        },
        Err(_) => (held, false),
    }
}

/// Tries the rungs in order and stops at the first clean decode. Where every
/// rung replaces something, the last attempt made is handed back; where no
/// rung made an attempt, the buffer is read as UTF-8 with replacements. There
/// is always a text.
pub fn try_common_encodings(buf: &[u8]) -> (fallback: Fallback)
    requires
        input_fits(buf@),
    ensures
        fallback@ == ladder_fallback(buf@),
        buf@.len() == 0 ==> fallback@.text.len() == 0,
        valid_utf8(buf@) && !has_bom(buf@) ==> fallback@ == (FallbackView {
            text: decode_utf8(buf@),
            rung: Some(0),
            clean: true,
        }),
{
    let ghost outcomes = ladder_outcomes(buf@);
    let mut held: Option<Rung> = None;
    let mut index: usize = 0;
    while index < LADDER_LEN
        invariant
            index <= LADDER_LEN,
            input_fits(buf@),
            outcomes == ladder_outcomes(buf@),
            first_clean_from(outcomes, 0) == first_clean_from(outcomes, index as int),
            match held {
                Some(rung) => rung.index < index && last_attempt_before(outcomes, index as int)
                    == Some(rung.index as int) && outcomes[rung.index as int] == Ok::<
                    _,
                    DecodeError,
                >(rung.attempt@),
                None => last_attempt_before(outcomes, index as int) is None,
            },
            buf@.len() == 0 ==> held is None,
            valid_utf8(buf@) && !has_bom(buf@) ==> index == 0,
        decreases LADDER_LEN - index,
    {
        let outcome = decode(buf, rung_label(index));
        assert(outcome_view(outcome) == outcomes[index as int]);
        let (next, done) = ladder_step(held, index, outcome);
        held = next;
        if done {
            match held {
                Some(rung) => {
                    return Fallback {
                        text: rung.attempt.text,
                        rung: Some(rung.index),
                        clean: !rung.attempt.had_errors,
                    };
                },
                None => {},
            }
        }
        index += 1;
    }
    match held {
        Some(rung) => Fallback {
            text: rung.attempt.text,
            rung: Some(rung.index),
            clean: !rung.attempt.had_errors,
        },
        None => {
            proof {
                lemma_decode_empty(buf@);
            }
            Fallback { text: decode_lossy(buf), rung: None, clean: false }
        },
    }
}

/// The empty buffer is well-formed UTF-8 and encodes the empty text.
pub proof fn lemma_decode_empty(bytes: Seq<u8>)
    ensures
        bytes.len() == 0 ==> valid_utf8(bytes) && decode_utf8(bytes).len() == 0,
{
}

/// The first clean outcome is clean and nothing before it is; where none is
/// found, no outcome from `from` on is clean.
pub proof fn lemma_first_clean_from(outcomes: Seq<Outcome>, from: int)
    requires
        0 <= from,
    ensures
        match first_clean_from(outcomes, from) {
            Some(i) => {
                &&& from <= i < outcomes.len()
                &&& is_clean(outcomes[i])
                &&& forall|j: int| from <= j < i ==> !is_clean(#[trigger] outcomes[j])
            },
            None => forall|j: int| from <= j < outcomes.len() ==> !is_clean(#[trigger] outcomes[j]),
        },
    decreases outcomes.len() - from,
{
    if from < outcomes.len() && !is_clean(outcomes[from]) {
        lemma_first_clean_from(outcomes, from + 1);
    }
}

/// The last attempt before `end` is an attempt and nothing after it is;
/// where none is found, no rung before `end` made an attempt.
pub proof fn lemma_last_attempt_before(outcomes: Seq<Outcome>, end: int)
    requires
        end <= outcomes.len(),
    ensures
        match last_attempt_before(outcomes, end) {
            Some(i) => {
                &&& 0 <= i < end
                &&& outcomes[i] is Ok
                &&& forall|j: int| i < j < end ==> #[trigger] outcomes[j] is Err
            },
            None => forall|j: int| 0 <= j < end ==> #[trigger] outcomes[j] is Err,
        },
    decreases end,
{
    if end > 0 && !(outcomes[end - 1] is Ok) {
        lemma_last_attempt_before(outcomes, end - 1);
    }
}

/// The ladder degrades but never fails. With a clean outcome among them, the
/// first clean one is handed back. With none, the last rung that made an
/// attempt gives the text, replacements and all; and where no rung made an
/// attempt the rendering of last resort stands in.
pub proof fn lemma_fallback_of(outcomes: Seq<Outcome>, last_resort: Seq<char>)
    ensures
        ({
            let fallback = fallback_of(outcomes, last_resort);
            let some_clean = exists|j: int| 0 <= j < outcomes.len() && is_clean(outcomes[j]);
            let some_attempt = exists|j: int| 0 <= j < outcomes.len() && outcomes[j] is Ok;
            &&& fallback.clean <==> some_clean
            &&& fallback.rung is Some <==> some_attempt
            &&& fallback.rung matches Some(i) ==> {
                &&& 0 <= i < outcomes.len()
                &&& outcomes[i] matches Ok(attempt)
                &&& fallback.text == attempt.text
                &&& fallback.clean ==> forall|j: int|
                    0 <= j < i ==> !is_clean(#[trigger] outcomes[j])
                &&& !fallback.clean ==> forall|j: int|
                    i < j < outcomes.len() ==> #[trigger] outcomes[j] is Err
            }
            &&& fallback.rung is None ==> fallback.text == last_resort
        }),
{
    lemma_first_clean_from(outcomes, 0);
    lemma_last_attempt_before(outcomes, outcomes.len() as int);
}

} // verus!
