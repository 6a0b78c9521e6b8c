use recog_session::config::AudioEncoding;
use recog_session::config::InterimResultsConfig;
use recog_session::config::SessionConfig;
use recog_session::config::VadParameters;
use recog_session::frame::encode_audio;
use recog_session::frame::encode_config;
use recog_session::frame::RequestUnit;

fn sample_vad() -> VadParameters {
    VadParameters {
        min_speech_duration_ms: 0,
        max_speech_duration_ms: 20_000,
        silence_duration_threshold_ms: 1000,
        silence_prob_thousandths: 500,
        aggressiveness_thousandths: 500,
        silence_max_ms: 2000,
        silence_min_ms: 1000,
    }
}

#[test]
fn config_is_wrapped_unchanged() {
    let config = SessionConfig {
        encoding: AudioEncoding::Linear16,
        sample_rate_hz: 8000,
        language_code: String::from("ru-RU"),
        max_alternatives: 1,
        automatic_punctuation: true,
        num_channels: 1,
        denormalization: true,
        sentiment_analysis: true,
        gender_identification: true,
        vad: sample_vad(),
        single_utterance: false,
        interim_results: InterimResultsConfig {
            enabled: true,
            interval_ms: 1000,
        },
    };
    match encode_config(config) {
        RequestUnit::Config(c) => {
            assert_eq!(c.language_code, "ru-RU");
            assert_eq!(c.encoding, AudioEncoding::Linear16);
            assert_eq!(c.vad, sample_vad());
        }
        RequestUnit::AudioChunk(_) => panic!("a configuration must stay a configuration"),
    }
}

#[test]
fn audio_is_wrapped_unchanged() {
    match encode_audio(vec![1, 2, 3]) {
        RequestUnit::AudioChunk(p) => assert_eq!(p, vec![1, 2, 3]),
        RequestUnit::Config(_) => panic!("audio must stay audio"),
    }
}

#[test]
fn empty_audio_is_a_valid_unit() {
    match encode_audio(Vec::new()) {
        RequestUnit::AudioChunk(p) => assert!(p.is_empty()),
        RequestUnit::Config(_) => panic!("audio must stay audio"),
    }
}

#[test]
fn vad_parameters_in_range_are_accepted() {
    assert_eq!(sample_vad().checked(), Some(sample_vad()));
}

#[test]
fn vad_probabilities_out_of_range_are_rejected() {
    let mut bad = sample_vad();
    bad.silence_prob_thousandths = 1001;
    assert_eq!(bad.checked(), None);
    let mut bad_aggr = sample_vad();
    bad_aggr.aggressiveness_thousandths = 2000;
    assert_eq!(bad_aggr.checked(), None);
}
