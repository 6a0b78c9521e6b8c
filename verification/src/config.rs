use vstd::prelude::*;

verus! {

/// The audio encodings the remote recognizer accepts. The transport layer maps
/// each variant to the wire-level code of the protocol.
#[derive(Clone, Copy, Debug, PartialEq, Eq, Structural)]
pub enum AudioEncoding {
    Unspecified,
    Linear16,
    Alaw,
    Mulaw,
    RawOpus,
    MpegAudio,
}

/// Voice-activity-detection parameters for the remote service's silence and
/// speech segmentation. Durations are whole milliseconds; probabilities and
/// the aggressiveness are in thousandths (0 stands for 0.0, 1000 for 1.0).
#[derive(Clone, Copy, Debug, PartialEq, Eq, Structural)]
pub struct VadParameters {
    pub min_speech_duration_ms: u64,
    pub max_speech_duration_ms: u64,
    pub silence_duration_threshold_ms: u64,
    pub silence_prob_thousandths: u32,
    pub aggressiveness_thousandths: u32,
    pub silence_max_ms: u64,
    pub silence_min_ms: u64,
}

impl VadParameters {
    /// The probability-like fields stay in [0, 1], that is at most 1000
    /// thousandths.
    pub open spec fn wf(self) -> bool {
        self.silence_prob_thousandths <= 1000 && self.aggressiveness_thousandths <= 1000
    }

    /// Accepts the parameters exactly when the probability-like fields are in
    /// range.
    pub fn checked(self) -> (r: Option<VadParameters>)
        ensures
            self.wf() ==> r == Some(self),
            !self.wf() ==> r is None,
    {
        if self.silence_prob_thousandths <= 1000 && self.aggressiveness_thousandths <= 1000 {
            Some(self)
        } else {
            None
        }
    }
}

/// How often the recognizer reports interim (non-final) results, in whole
/// milliseconds, when such reports are enabled.
#[derive(Clone, Copy, Debug, PartialEq, Eq, Structural)]
pub struct InterimResultsConfig {
    pub enabled: bool,
    pub interval_ms: u64,
}

/// One session's immutable configuration. It is sent exactly once, as the very
/// first unit on the outbound half of the session.
#[derive(Debug)]
pub struct SessionConfig {
    pub encoding: AudioEncoding,
    pub sample_rate_hz: u32,
    pub language_code: String,
    pub max_alternatives: u32,
    pub automatic_punctuation: bool,
    pub num_channels: u32,
    pub denormalization: bool,
    pub sentiment_analysis: bool,
    pub gender_identification: bool,
    pub vad: VadParameters,
    pub single_utterance: bool,
    pub interim_results: InterimResultsConfig,
}

impl Clone for SessionConfig {
    /// An equal configuration; written out so the equality can be relied on.
    fn clone(&self) -> (r: Self)
        ensures
            r == *self,
    {
        SessionConfig {
            encoding: self.encoding,
            sample_rate_hz: self.sample_rate_hz,
            language_code: self.language_code.clone(),
            max_alternatives: self.max_alternatives,
            automatic_punctuation: self.automatic_punctuation,
            num_channels: self.num_channels,
            denormalization: self.denormalization,
            sentiment_analysis: self.sentiment_analysis,
            gender_identification: self.gender_identification,
            vad: self.vad,
            single_utterance: self.single_utterance,
            interim_results: self.interim_results,
        }
    }
}

} // verus!
