//! Detection signals and the rule that ranks them.
//!
//! Each detector reports on its own. Signals are never averaged: a signal has
//! a standing, the higher standing wins, and among equals the one that the
//! caller listed first. So a detector that overrides another, as a language
//! classifier overrides byte statistics, is listed before it; and a detector
//! that found nothing is left out of the list.

use vstd::prelude::*;

verus! {

/// Confidence is counted in thousandths: this is certainty.
pub const FULL_CONFIDENCE: u16 = 1000;

/// A scored signal is trusted only above this many thousandths.
pub const TRUST_THRESHOLD: u16 = 900;

/// How far a signal is trusted.
#[derive(Clone, Copy, Debug, PartialEq, Eq, Structural)]
pub enum Standing {
    /// A scored guess at or below the threshold: kept for diagnostics, never
    /// decoded under.
    Advisory,
    /// A guess that carries no score.
    Unconditional,
    /// A scored guess above the threshold.
    Confident,
}

/// The model of one signal: the label guessed and, for a scoring detector,
/// its confidence in thousandths.
pub struct Signal {
    pub label: Seq<char>,
    pub confidence: Option<u16>,
}

/// The output of one detector.
#[derive(Debug, PartialEq, Eq)]
pub struct DetectionSignal {
    label: String,
    confidence: Option<u16>,
}

impl View for DetectionSignal {
    type V = Signal;

    closed spec fn view(&self) -> Signal {
        Signal { label: self.label@, confidence: self.confidence }
    }
}

impl Clone for DetectionSignal {
    fn clone(&self) -> (copy: DetectionSignal)
        ensures
            copy@ == self@,
    {
        proof {
            use_type_invariant(self);
        }
        DetectionSignal { label: self.label.clone(), confidence: self.confidence }
    }
}

/// The standing of a signal: by its score against the threshold, or
/// unconditional where it has none.
pub open spec fn standing_of(signal: Signal) -> Standing {
    match signal.confidence {
        None => Standing::Unconditional,
        Some(confidence) => if confidence > TRUST_THRESHOLD {
            Standing::Confident
        } else {
            Standing::Advisory
        },
    }
}

/// The order of the standings.
pub open spec fn weight(standing: Standing) -> int {
    match standing {
        Standing::Advisory => 0,
        Standing::Unconditional => 1,
        Standing::Confident => 2,
    }
}

/// The first signal at or after `from` that has the given standing and is not
/// the one to skip.
pub open spec fn first_from(
    signals: Seq<Signal>,
    standing: Standing,
    skip: Option<int>,
    from: int,
) -> Option<int>
    decreases signals.len() - from,
{
    if from < 0 || from >= signals.len() {
        None
    } else if standing_of(signals[from]) == standing && skip != Some(from) {
        Some(from)
    } else {
        first_from(signals, standing, skip, from + 1)
    }
}

/// The best signal but for the one to skip: the first confident one, else the
/// first unconditional one, else the first advisory one.
pub open spec fn best(signals: Seq<Signal>, skip: Option<int>) -> Option<int> {
    if first_from(signals, Standing::Confident, skip, 0) is Some {
        first_from(signals, Standing::Confident, skip, 0)
    } else if first_from(signals, Standing::Unconditional, skip, 0) is Some {
        first_from(signals, Standing::Unconditional, skip, 0)
    } else {
        first_from(signals, Standing::Advisory, skip, 0)
    }
}

/// The signal that names the detected encoding.
pub open spec fn leading(signals: Seq<Signal>) -> Option<int> {
    best(signals, None)
}

/// The next-best signal, kept for diagnostics.
pub open spec fn runner_up(signals: Seq<Signal>) -> Option<int> {
    if leading(signals) is Some {
        best(signals, leading(signals))
    } else {
        None
    }
}

/// The signal to decode under: the leading one, unless it is only advisory.
pub open spec fn trusted(signals: Seq<Signal>) -> Option<int> {
    match leading(signals) {
        Some(i) => if standing_of(signals[i]) == Standing::Advisory {
            None
        } else {
            Some(i)
        },
        None => None,
    }
}

/// The models of a list of signals.
pub open spec fn views(signals: Seq<DetectionSignal>) -> Seq<Signal> {
    Seq::new(signals.len(), |i: int| signals[i]@)
}

/// An index of the list as a number.
pub open spec fn position(index: Option<usize>) -> Option<int> {
    match index {
        Some(i) => Some(i as int),
        None => None,
    }
}

impl DetectionSignal {
    #[verifier::type_invariant]
    spec fn in_range(self) -> bool {
        self.confidence matches Some(confidence) ==> confidence <= FULL_CONFIDENCE
    }

    /// A guess without a score.
    pub fn guess(label: &str) -> (signal: DetectionSignal)
        ensures
            signal@ == (Signal { label: label@, confidence: None }),
    {
        DetectionSignal { label: label.to_owned(), confidence: None }
    }

    /// A guess with its confidence in thousandths; none where the confidence
    /// is above `FULL_CONFIDENCE`.
    pub fn scored(label: &str, confidence: u16) -> (signal: Option<DetectionSignal>)
        ensures
            confidence <= FULL_CONFIDENCE ==> (signal matches Some(made) && made@ == (Signal {
                label: label@,
                confidence: Some(confidence),
            })),
            confidence > FULL_CONFIDENCE ==> signal is None,
    {
        if confidence <= FULL_CONFIDENCE {
            Some(DetectionSignal { label: label.to_owned(), confidence: Some(confidence) })
        } else {
            None
        }
    }

    /// The label guessed.
    pub fn label(&self) -> (label: &str)
        ensures
            label@ == self@.label,
    {
        self.label.as_str()
    }

    /// The confidence in thousandths, where the detector gave one.
    pub fn confidence(&self) -> (confidence: Option<u16>)
        ensures
            confidence == self@.confidence,
            confidence matches Some(c) ==> c <= FULL_CONFIDENCE,
    {
        proof {
            use_type_invariant(self);
        }
        self.confidence
    }

    /// How far this signal is trusted.
    pub fn standing(&self) -> (standing: Standing)
        ensures
            standing == standing_of(self@),
    {
        match self.confidence {
            None => Standing::Unconditional,
            Some(confidence) => if confidence > TRUST_THRESHOLD {
                Standing::Confident
            } else {
                Standing::Advisory
            },
        }
    }
}

/// The two signals that a decoding reports.
#[derive(Clone, Copy, Debug, PartialEq, Eq, Structural)]
pub struct Selection {
    /// Where the leading signal stands in the list.
    pub leading: Option<usize>,
    /// Where the next-best signal stands in the list.
    pub runner_up: Option<usize>,
}

fn is_skipped(skip: Option<usize>, index: usize) -> (skipped: bool)
    ensures
        skipped == (position(skip) == Some(index as int)),
{
    match skip {
        Some(i) => i == index,
        None => false,
    }
}

fn first_with(signals: &Vec<DetectionSignal>, standing: Standing, skip: Option<usize>) -> (found:
    Option<usize>)
    ensures
        position(found) == first_from(views(signals@), standing, position(skip), 0),
{
    let mut i: usize = 0;
    while i < signals.len()
        invariant
            i <= signals.len(),
            first_from(views(signals@), standing, position(skip), 0) == first_from(
                views(signals@),
                standing,
                position(skip),
                i as int,
            ),
        decreases signals.len() - i,
    {
        if signals[i].standing() == standing && !is_skipped(skip, i) {
            return Some(i);
        }
        i += 1;
    }
    None
}

fn best_but(signals: &Vec<DetectionSignal>, skip: Option<usize>) -> (found: Option<usize>)
    ensures
        position(found) == best(views(signals@), position(skip)),
{
    let confident = first_with(signals, Standing::Confident, skip);
    if confident.is_some() {
        return confident;
    }
    let unconditional = first_with(signals, Standing::Unconditional, skip);
    if unconditional.is_some() {
        return unconditional;
    }
    first_with(signals, Standing::Advisory, skip)
}

/// Ranks the signals: which one leads, and which one comes next.
pub fn select(signals: &Vec<DetectionSignal>) -> (choice: Selection)
    ensures
        position(choice.leading) == leading(views(signals@)),
        position(choice.runner_up) == runner_up(views(signals@)),
{
    let leading = best_but(signals, None);
    let runner_up = if leading.is_some() {
        best_but(signals, leading)
    } else {
        None
    };
    Selection { leading, runner_up }
}

/// What `first_from` finds is in the list from `from` on, has the standing
/// asked for, is not the one to skip, and is the first such signal; where it
/// finds nothing there is none.
pub proof fn lemma_first_from(
    signals: Seq<Signal>,
    standing: Standing,
    skip: Option<int>,
    from: int,
)
    requires
        0 <= from,
    ensures
        match first_from(signals, standing, skip, from) {
            Some(i) => {
                &&& from <= i < signals.len()
                &&& standing_of(signals[i]) == standing
                &&& skip != Some(i)
                &&& forall|j: int|
                    from <= j < i ==> !(standing_of(#[trigger] signals[j]) == standing && skip
                        != Some(j))
            },
            None => forall|j: int|
                from <= j < signals.len() ==> !(standing_of(#[trigger] signals[j]) == standing
                    && skip != Some(j)),
        },
    decreases signals.len() - from,
{
    if from < signals.len() && !(standing_of(signals[from]) == standing && skip != Some(from)) {
        lemma_first_from(signals, standing, skip, from + 1);
    }
}

/// The best signal outranks or precedes every other: none but the skipped one
/// has a higher standing, and none of the same standing comes before it.
/// Nothing is found only where nothing but the skipped signal is there.
pub proof fn lemma_best(signals: Seq<Signal>, skip: Option<int>)
    ensures
        match best(signals, skip) {
            Some(i) => {
                &&& 0 <= i < signals.len()
                &&& skip != Some(i)
                &&& forall|j: int|
                    0 <= j < signals.len() && skip != Some(j) ==> weight(
                        standing_of(#[trigger] signals[j]),
                    ) <= weight(standing_of(signals[i]))
                &&& forall|j: int|
                    0 <= j < i && skip != Some(j) ==> weight(standing_of(#[trigger] signals[j]))
                        < weight(standing_of(signals[i]))
            },
            None => forall|j: int| 0 <= j < signals.len() ==> skip == Some(j),
        },
{
    lemma_first_from(signals, Standing::Confident, skip, 0);
    lemma_first_from(signals, Standing::Unconditional, skip, 0);
    lemma_first_from(signals, Standing::Advisory, skip, 0);
    if best(signals, skip) is None {
        assert forall|j: int| 0 <= j < signals.len() implies skip == Some(j) by {
            let s = standing_of(signals[j]);
            assert(s == Standing::Confident || s == Standing::Unconditional || s
                == Standing::Advisory);
        }
    }
}

/// The two signals selected are different, and only a list of one signal has
/// a leading signal without a next-best one.
pub proof fn lemma_selection(signals: Seq<Signal>)
    ensures
        leading(signals) is None <==> signals.len() == 0,
        runner_up(signals) is Some ==> runner_up(signals) != leading(signals),
        runner_up(signals) is None <==> signals.len() <= 1,
        trusted(signals) is Some ==> trusted(signals) == leading(signals),
{
    lemma_best(signals, None);
    lemma_best(signals, leading(signals));
    if leading(signals) is None && signals.len() > 0 {
        assert(None::<int> == Some(0int));
    }
    if leading(signals) is Some {
        let i = leading(signals)->0;
        if runner_up(signals) is None && signals.len() > 1 {
            let other = if i == 0 {
                1int
            } else {
                0int
            };
            assert(leading(signals) == Some(other));
        }
        if signals.len() == 1 && runner_up(signals) is Some {
            assert(i == 0);
        }
    }
}

} // verus!
