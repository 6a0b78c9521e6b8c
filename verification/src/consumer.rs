use vstd::prelude::*;

verus! {

/// Timing and transcript details carried by a recognition result, when the
/// recognizer supplied them. Times are whole milliseconds from the start of
/// the session's audio.
#[derive(Debug)]
pub struct ResultDetails {
    pub start_ms: Option<u64>,
    pub end_ms: Option<u64>,
    pub alternatives: Vec<String>,
}

/// One result inside an inbound recognition event.
#[derive(Debug)]
pub struct RecognitionResult {
    pub is_final: bool,
    pub details: Option<ResultDetails>,
}

/// One message on the inbound half of a session, carrying zero or more
/// results, in the order the recognizer produced them.
#[derive(Debug)]
pub struct RecognitionEvent {
    pub results: Vec<RecognitionResult>,
}

/// What the consumer decides about one inbound event.
#[derive(Clone, Copy, Debug, PartialEq, Eq, Structural)]
pub enum Decision {
    /// The event is informative; the session goes on.
    Continue,
    /// The event carries nothing this policy can read; skip it silently.
    Ignore,
    /// The recognizer has held a non-final result open past the no-input
    /// threshold: end the session early.
    StopNoInputTimeout,
}

/// The default no-input threshold: a non-final result spanning strictly more
/// than this many milliseconds signals dead air.
pub const NO_INPUT_THRESHOLD_MS: u64 = 3000;

/// The decision for one event under a given threshold: events without a first
/// result, without details, or without both times are ignored; a non-final
/// first result whose span strictly exceeds the threshold stops the session;
/// everything else lets it continue. Only the first result is consulted.
pub open spec fn decision_for(threshold_ms: u64, ev: RecognitionEvent) -> Decision {
    if ev.results@.len() == 0 {
        Decision::Ignore
    } else {
        let first = ev.results@[0];
        match first.details {
            Option::None => Decision::Ignore,
            Option::Some(d) => match (d.start_ms, d.end_ms) {
                (Option::Some(s), Option::Some(e)) => {
                    if !first.is_final && s < e && e - s > threshold_ms {
                        Decision::StopNoInputTimeout
                    } else {
                        Decision::Continue
                    }
                },
                _ => Decision::Ignore,
            },
        }
    }
}

/// Inspects each inbound event and decides, per event, whether the session
/// continues or ends early. No history is kept: each decision is a pure
/// function of the current event and the fixed threshold.
#[derive(Clone, Copy, Debug, PartialEq, Eq, Structural)]
pub struct RecognitionConsumer {
    pub no_input_threshold_ms: u64,
}

impl RecognitionConsumer {
    /// A consumer with the default 3-second no-input threshold.
    pub fn new() -> (c: RecognitionConsumer)
        ensures
            c.no_input_threshold_ms == NO_INPUT_THRESHOLD_MS,
    {
        RecognitionConsumer { no_input_threshold_ms: NO_INPUT_THRESHOLD_MS }
    }

    /// A consumer with a caller-chosen threshold; the heuristic is policy, not
    /// a protocol guarantee, so the threshold stays configurable.
    pub fn with_threshold(threshold_ms: u64) -> (c: RecognitionConsumer)
        ensures
            c.no_input_threshold_ms == threshold_ms,
    {
        RecognitionConsumer { no_input_threshold_ms: threshold_ms }
    }

    /// Decides what one inbound event means for the session.
    pub fn on_event(&self, ev: &RecognitionEvent) -> (d: Decision)
        ensures
            d == decision_for(self.no_input_threshold_ms, *ev),
    {
        if ev.results.len() == 0 {
            return Decision::Ignore;
        }
        let first = &ev.results[0];
        match &first.details {
            Option::None => Decision::Ignore,
            Option::Some(d) => match (d.start_ms, d.end_ms) {
                (Option::Some(s), Option::Some(e)) => {
                    if !first.is_final && s < e && e - s > self.no_input_threshold_ms {
                        Decision::StopNoInputTimeout
                    } else {
                        Decision::Continue
                    }
                },
                _ => Decision::Ignore,
            },
        }
    }
}

} // verus!
