use text_decode::signal::{
    select, DetectionSignal, Selection, Standing, FULL_CONFIDENCE, TRUST_THRESHOLD,
};

fn scored(label: &str, confidence: u16) -> DetectionSignal {
    match DetectionSignal::scored(label, confidence) {
        Some(signal) => signal,
        None => panic!("confidence out of range"),
    }
}

#[test]
fn a_guess_has_a_label_and_no_score() {
    let signal = DetectionSignal::guess("windows-1252");
    assert_eq!(signal.label(), "windows-1252");
    assert_eq!(signal.confidence(), None);
    assert_eq!(signal.standing(), Standing::Unconditional);
}

#[test]
fn a_scored_signal_keeps_its_score() {
    let signal = scored("Big5", 731);
    assert_eq!(signal.label(), "Big5");
    assert_eq!(signal.confidence(), Some(731));
}

#[test]
fn confidence_above_certainty_is_refused() {
    assert_eq!(FULL_CONFIDENCE, 1000);
    assert!(DetectionSignal::scored("UTF-8", 1000).is_some());
    assert!(DetectionSignal::scored("UTF-8", 1001).is_none());
    assert!(DetectionSignal::scored("UTF-8", u16::MAX).is_none());
    assert!(DetectionSignal::scored("UTF-8", 0).is_some());
}

#[test]
fn the_threshold_itself_is_not_trusted() {
    assert_eq!(TRUST_THRESHOLD, 900);
    assert_eq!(scored("UTF-8", 0).standing(), Standing::Advisory);
    assert_eq!(scored("UTF-8", 899).standing(), Standing::Advisory);
    assert_eq!(scored("UTF-8", 900).standing(), Standing::Advisory);
    assert_eq!(scored("UTF-8", 901).standing(), Standing::Confident);
    assert_eq!(scored("UTF-8", 1000).standing(), Standing::Confident);
}

#[test]
fn a_clone_is_the_same_signal() {
    let signal = scored("EUC-KR", 950);
    assert_eq!(signal.clone(), signal);
}

#[test]
fn no_signals_select_nothing() {
    let signals: Vec<DetectionSignal> = Vec::new();
    assert_eq!(select(&signals), Selection { leading: None, runner_up: None });
}

#[test]
fn a_single_signal_leads_alone() {
    let signals = vec![DetectionSignal::guess("UTF-8")];
    assert_eq!(select(&signals), Selection { leading: Some(0), runner_up: None });
    let signals = vec![scored("UTF-8", 100)];
    assert_eq!(select(&signals), Selection { leading: Some(0), runner_up: None });
}

#[test]
fn a_confident_signal_outranks_a_guess() {
    let signals = vec![DetectionSignal::guess("windows-1252"), scored("KOI8-R", 950)];
    assert_eq!(select(&signals), Selection { leading: Some(1), runner_up: Some(0) });
}

#[test]
fn a_guess_outranks_an_advisory_signal() {
    let signals = vec![scored("Big5", 900), DetectionSignal::guess("windows-1252")];
    assert_eq!(select(&signals), Selection { leading: Some(1), runner_up: Some(0) });
}

#[test]
fn among_equals_the_first_listed_wins() {
    let signals = vec![
        DetectionSignal::guess("windows-1251"),
        DetectionSignal::guess("windows-1252"),
        DetectionSignal::guess("windows-1253"),
    ];
    assert_eq!(select(&signals), Selection { leading: Some(0), runner_up: Some(1) });
    let signals = vec![scored("a", 950), scored("b", 999)];
    assert_eq!(select(&signals), Selection { leading: Some(0), runner_up: Some(1) });
}

#[test]
fn the_runner_up_is_the_best_of_the_rest() {
    let signals = vec![
        scored("advisory", 10),
        DetectionSignal::guess("guess"),
        scored("confident", 901),
        scored("second confident", 1000),
    ];
    assert_eq!(select(&signals), Selection { leading: Some(2), runner_up: Some(3) });
    let signals = vec![
        scored("advisory", 10),
        scored("confident", 901),
        scored("other advisory", 20),
    ];
    assert_eq!(select(&signals), Selection { leading: Some(1), runner_up: Some(0) });
}

#[test]
fn advisory_signals_lead_when_nothing_better_is_there() {
    let signals = vec![scored("first", 100), scored("second", 800)];
    assert_eq!(select(&signals), Selection { leading: Some(0), runner_up: Some(1) });
}
