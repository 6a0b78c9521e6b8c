use recog_session::consumer::Decision;
use recog_session::consumer::RecognitionConsumer;
use recog_session::consumer::RecognitionEvent;
use recog_session::consumer::RecognitionResult;
use recog_session::consumer::ResultDetails;
use recog_session::consumer::NO_INPUT_THRESHOLD_MS;

fn event(is_final: bool, start_ms: Option<u64>, end_ms: Option<u64>) -> RecognitionEvent {
    RecognitionEvent {
        results: vec![RecognitionResult {
            is_final,
            details: Some(ResultDetails {
                start_ms,
                end_ms,
                alternatives: Vec::new(),
            }),
        }],
    }
}

#[test]
fn non_final_four_second_gap_stops() {
    let c = RecognitionConsumer::new();
    let ev = event(false, Some(0), Some(4000));
    assert_eq!(c.on_event(&ev), Decision::StopNoInputTimeout);
}

#[test]
fn final_four_second_gap_continues() {
    let c = RecognitionConsumer::new();
    let ev = event(true, Some(0), Some(4000));
    assert_eq!(c.on_event(&ev), Decision::Continue);
}

#[test]
fn gap_under_threshold_continues() {
    let c = RecognitionConsumer::new();
    let ev = event(false, Some(0), Some(2900));
    assert_eq!(c.on_event(&ev), Decision::Continue);
}

#[test]
fn gap_exactly_at_threshold_continues() {
    // The threshold is strict: a 3.000 s gap is not yet a timeout.
    let c = RecognitionConsumer::new();
    let ev = event(false, Some(0), Some(3000));
    assert_eq!(c.on_event(&ev), Decision::Continue);
    let ev_just_over = event(false, Some(0), Some(3001));
    assert_eq!(c.on_event(&ev_just_over), Decision::StopNoInputTimeout);
}

#[test]
fn nonzero_start_counts_the_gap_only() {
    let c = RecognitionConsumer::new();
    let ev = event(false, Some(10_000), Some(12_500));
    assert_eq!(c.on_event(&ev), Decision::Continue);
    let ev_long = event(false, Some(10_000), Some(13_100));
    assert_eq!(c.on_event(&ev_long), Decision::StopNoInputTimeout);
}

#[test]
fn empty_results_ignored() {
    let c = RecognitionConsumer::new();
    let ev = RecognitionEvent { results: Vec::new() };
    assert_eq!(c.on_event(&ev), Decision::Ignore);
}

#[test]
fn missing_details_ignored() {
    let c = RecognitionConsumer::new();
    let ev = RecognitionEvent {
        results: vec![RecognitionResult {
            is_final: false,
            details: None,
        }],
    };
    assert_eq!(c.on_event(&ev), Decision::Ignore);
}

#[test]
fn missing_times_ignored() {
    let c = RecognitionConsumer::new();
    assert_eq!(c.on_event(&event(false, None, Some(4000))), Decision::Ignore);
    assert_eq!(c.on_event(&event(false, Some(0), None)), Decision::Ignore);
    assert_eq!(c.on_event(&event(false, None, None)), Decision::Ignore);
}

#[test]
fn end_not_after_start_continues() {
    let c = RecognitionConsumer::new();
    assert_eq!(c.on_event(&event(false, Some(5000), Some(5000))), Decision::Continue);
    assert_eq!(c.on_event(&event(false, Some(5000), Some(100))), Decision::Continue);
}

#[test]
fn only_first_result_is_consulted() {
    let c = RecognitionConsumer::new();
    let ev = RecognitionEvent {
        results: vec![
            RecognitionResult {
                is_final: true,
                details: Some(ResultDetails {
                    start_ms: Some(0),
                    end_ms: Some(100),
                    alternatives: Vec::new(),
                }),
            },
            RecognitionResult {
                is_final: false,
                details: Some(ResultDetails {
                    start_ms: Some(0),
                    end_ms: Some(60_000),
                    alternatives: Vec::new(),
                }),
            },
        ],
    };
    assert_eq!(c.on_event(&ev), Decision::Continue);
}

#[test]
fn custom_threshold_is_used() {
    let c = RecognitionConsumer::with_threshold(1000);
    assert_eq!(c.no_input_threshold_ms, 1000);
    assert_eq!(
        c.on_event(&event(false, Some(0), Some(1001))),
        Decision::StopNoInputTimeout
    );
    assert_eq!(c.on_event(&event(false, Some(0), Some(1000))), Decision::Continue);
}

#[test]
fn default_threshold_is_three_seconds() {
    assert_eq!(NO_INPUT_THRESHOLD_MS, 3000);
    assert_eq!(RecognitionConsumer::new().no_input_threshold_ms, 3000);
}
