use std::cell::Cell;
use whisprs::audio::{decode_samples, play_audio, SampleFormat, Samples, SinkCommand, SpeechResult};
use whisprs::backends::{
    Backend, BrailleBackend, Capabilities, SpeechSynthesizerToAudioData,
    SpeechSynthesizerToAudioOutput,
};
use whisprs::codes::WhisprsOutputError;
use whisprs::error::OutputError;
use whisprs::metadata::{SpeechSynthesizerMetadata, Voice};
use whisprs::catalog::pick_backend;
use whisprs::dispatch::Route;
use whisprs::registry::{str_eq, Registry};
use whisprs::rules::{check_speech_parameters, merge_output_results};
use whisprs::selection::{rank_voices, text_le_exec};

struct Fake {
    name: String,
    caps: Capabilities,
    voices: Vec<(String, u8, Vec<String>)>,
    sample_rate: u32,
    braille_priority: u8,
    stop_fails: bool,
    data_calls: Cell<u32>,
    native_calls: Cell<u32>,
    stop_calls: Cell<u32>,
    braille_calls: Cell<u32>,
    busy: Cell<u32>,
    most_busy: Cell<u32>,
}

fn fake(name: &str, audio_data: bool, audio_output: bool, braille: bool) -> Fake {
    Fake {
        name: name.to_string(),
        caps: Capabilities { audio_data, audio_output, braille },
        voices: Vec::new(),
        sample_rate: 22050,
        braille_priority: 0,
        stop_fails: false,
        data_calls: Cell::new(0),
        native_calls: Cell::new(0),
        stop_calls: Cell::new(0),
        braille_calls: Cell::new(0),
        busy: Cell::new(0),
        most_busy: Cell::new(0),
    }
}

fn with_voice(mut f: Fake, name: &str, priority: u8, languages: &[&str]) -> Fake {
    f.voices.push((name.to_string(), priority, languages.iter().map(|l| l.to_string()).collect()));
    f
}

impl SpeechSynthesizerToAudioData for Fake {
    fn supports_speech_parameters(&self) -> bool {
        true
    }

    fn speak(
        &self,
        _voice: Option<&str>,
        _language: Option<&str>,
        _rate: Option<u8>,
        _volume: Option<u8>,
        _pitch: Option<u8>,
        text: &str,
    ) -> Result<SpeechResult, OutputError> {
        self.busy.set(self.busy.get() + 1);
        self.most_busy.set(self.most_busy.get().max(self.busy.get()));
        self.data_calls.set(self.data_calls.get() + 1);
        let mut pcm = Vec::new();
        for b in text.bytes() {
            pcm.push(b);
            pcm.push(0);
        }
        self.busy.set(self.busy.get() - 1);
        Ok(SpeechResult { pcm, sample_format: SampleFormat::S16, sample_rate: self.sample_rate })
    }
}

impl SpeechSynthesizerToAudioOutput for Fake {
    fn supports_speech_parameters(&self) -> bool {
        false
    }

    fn speak(
        &self,
        _voice: Option<&str>,
        _language: Option<&str>,
        _rate: Option<u8>,
        _volume: Option<u8>,
        _pitch: Option<u8>,
        _text: &str,
        _interrupt: bool,
    ) -> Result<(), OutputError> {
        self.native_calls.set(self.native_calls.get() + 1);
        Ok(())
    }

    fn stop_speech(&self) -> Result<(), OutputError> {
        self.stop_calls.set(self.stop_calls.get() + 1);
        if self.stop_fails {
            Err(OutputError::into_stop_speech_failed(&self.name, "device gone"))
        } else {
            Ok(())
        }
    }
}

impl BrailleBackend for Fake {
    fn priority(&self) -> u8 {
        self.braille_priority
    }

    fn braille(&self, _text: &str) -> Result<(), OutputError> {
        self.braille_calls.set(self.braille_calls.get() + 1);
        Ok(())
    }
}

impl Backend for Fake {
    fn name(&self) -> String {
        self.name.clone()
    }

    fn capabilities(&self) -> Capabilities {
        self.caps
    }

    fn list_voices(&self) -> Result<Vec<Voice>, OutputError> {
        Ok(self
            .voices
            .iter()
            .map(|(name, priority, languages)| Voice {
                synthesizer: SpeechSynthesizerMetadata {
                    name: self.name.clone(),
                    supports_speaking_to_audio_data: self.caps.audio_data,
                    supports_speech_parameters: true,
                },
                display_name: name.to_uppercase(),
                name: name.clone(),
                languages: languages.clone(),
                priority: *priority,
            })
            .collect())
    }
}

fn registry_of(backends: Vec<Fake>) -> Registry<Fake> {
    let mut r = Registry::new();
    for b in backends {
        r.register(b);
    }
    r
}

fn voice(name: &str, priority: u8, languages: &[&str]) -> Voice {
    Voice {
        synthesizer: SpeechSynthesizerMetadata {
            name: "engine".to_string(),
            supports_speaking_to_audio_data: true,
            supports_speech_parameters: true,
        },
        display_name: name.to_string(),
        name: name.to_string(),
        languages: languages.iter().map(|l| l.to_string()).collect(),
        priority,
    }
}

#[test]
fn round_trip_audio_data_through_voice_name() {
    let mut b = with_voice(fake("fake", true, false, false), "v1", 5, &["en"]);
    b.sample_rate = 16000;
    let r = registry_of(vec![b]);
    let result = r
        .speak_to_audio_data(None, Some("v1"), None, Some(50), Some(100), Some(50), "hello")
        .unwrap();
    assert!(!result.pcm.is_empty());
    assert_eq!(result.sample_rate, 16000);
    assert_eq!(result.sample_format, SampleFormat::S16);
}

#[test]
fn out_of_range_parameters_are_rejected_before_any_backend() {
    let r = registry_of(vec![with_voice(fake("fake", true, false, true), "v1", 5, &["en"])]);
    let mut sink = Vec::new();
    assert_eq!(
        r.speak_to_audio_data(None, None, None, Some(101), None, None, "x").unwrap_err(),
        OutputError::InvalidRate(101)
    );
    assert_eq!(
        r.speak_to_audio_data(None, None, None, Some(50), Some(200), Some(255), "x").unwrap_err(),
        OutputError::InvalidVolume(200)
    );
    assert_eq!(
        r.speak_to_audio_output(None, None, None, None, None, Some(150), "x", false, &mut sink)
            .unwrap_err(),
        OutputError::InvalidPitch(150)
    );
    assert_eq!(
        r.output(None, None, None, Some(255), None, None, None, "x", true, &mut sink).unwrap_err(),
        OutputError::InvalidRate(255)
    );
    assert!(sink.is_empty());
    let backend = r.entry(0);
    assert_eq!(backend.backend.data_calls.get(), 0);
    assert_eq!(backend.backend.native_calls.get(), 0);
    assert_eq!(backend.backend.braille_calls.get(), 0);
}

#[test]
fn parameter_check_order_and_bounds() {
    assert_eq!(check_speech_parameters(Some(100), Some(0), Some(100)), Ok(()));
    assert_eq!(check_speech_parameters(None, None, None), Ok(()));
    assert_eq!(check_speech_parameters(Some(101), Some(101), Some(101)), Err(OutputError::InvalidRate(101)));
    assert_eq!(check_speech_parameters(None, Some(101), Some(102)), Err(OutputError::InvalidVolume(101)));
    assert_eq!(check_speech_parameters(None, None, Some(102)), Err(OutputError::InvalidPitch(102)));
}

#[test]
fn voices_are_sorted_by_priority_then_name() {
    let a = with_voice(with_voice(fake("a", true, false, false), "zeta", 2, &[]), "beta", 1, &["en"]);
    let b = with_voice(with_voice(fake("b", false, true, false), "alpha", 2, &["de"]), "omega", 0, &["en"]);
    let r = registry_of(vec![a, b]);
    let voices = r.list_voices(None, None, None, false).unwrap();
    let names: Vec<&str> = voices.iter().map(|v| v.name.as_str()).collect();
    assert_eq!(names, vec!["omega", "beta", "alpha", "zeta"]);
    for w in voices.windows(2) {
        assert!(w[0].priority < w[1].priority || (w[0].priority == w[1].priority && w[0].name <= w[1].name));
    }
}

#[test]
fn listing_filters_backend_capability_name_and_language() {
    let a = with_voice(with_voice(fake("a", true, false, false), "zeta", 2, &[]), "beta", 1, &["en"]);
    let b = with_voice(with_voice(fake("b", false, true, false), "alpha", 2, &["de"]), "omega", 0, &["en"]);
    let r = registry_of(vec![a, b]);
    let data_only: Vec<String> =
        r.list_voices(None, None, None, true).unwrap().into_iter().map(|v| v.name).collect();
    assert_eq!(data_only, vec!["beta".to_string(), "zeta".to_string()]);
    let german: Vec<String> =
        r.list_voices(None, None, Some("de"), false).unwrap().into_iter().map(|v| v.name).collect();
    assert_eq!(german, vec!["alpha".to_string(), "zeta".to_string()]);
    let only_b: Vec<String> =
        r.list_voices(Some("b"), None, None, false).unwrap().into_iter().map(|v| v.name).collect();
    assert_eq!(only_b, vec!["omega".to_string(), "alpha".to_string()]);
    let named = r.list_voices(None, Some("zeta"), Some("fr"), false).unwrap();
    assert_eq!(named.len(), 1);
    assert_eq!(named[0].synthesizer.name, "a");
    assert!(r.list_voices(Some("nobody"), None, None, false).unwrap().is_empty());
}

#[test]
fn rank_voices_orders_equal_priorities_by_name() {
    let ranked = rank_voices(
        vec![voice("b", 3, &[]), voice("a", 3, &[]), voice("c", 1, &["en"])],
        &None,
        &Some("en".to_string()),
    );
    let names: Vec<&str> = ranked.iter().map(|v| v.name.as_str()).collect();
    assert_eq!(names, vec!["c", "a", "b"]);
}

#[test]
fn text_order_is_lexicographic() {
    assert!(text_le_exec(&"abc".to_string(), &"abd".to_string()));
    assert!(text_le_exec(&"ab".to_string(), &"abc".to_string()));
    assert!(!text_le_exec(&"abc".to_string(), &"ab".to_string()));
    assert!(text_le_exec(&"".to_string(), &"".to_string()));
    assert!(!text_le_exec(&"b".to_string(), &"a".to_string()));
    assert!(str_eq("voice", "voice"));
    assert!(!str_eq("voice", "voices"));
}

#[test]
fn unknown_backend_is_not_found_whatever_the_voice() {
    let r = registry_of(vec![with_voice(fake("a", true, true, true), "v1", 0, &["en"])]);
    let mut sink = Vec::new();
    let not_found = OutputError::BackendNotFound("ghost".to_string());
    assert_eq!(
        r.speak_to_audio_data(Some("ghost"), Some("v1"), Some("en"), None, None, None, "x").unwrap_err(),
        not_found
    );
    assert_eq!(
        r.speak_to_audio_output(Some("ghost"), Some("v1"), None, None, None, None, "x", false, &mut sink)
            .unwrap_err(),
        not_found
    );
    assert_eq!(r.stop_speech(Some("ghost"), &mut sink).unwrap_err(), not_found);
    assert_eq!(r.braille(Some("ghost"), "x").unwrap_err(), not_found);
    assert!(sink.is_empty());
}

#[test]
fn resolution_errors_name_what_was_missing() {
    let empty: Registry<Fake> = Registry::new();
    assert_eq!(empty.resolve_backend(&None, &None, &None, false).unwrap_err(), OutputError::NoVoices);
    assert_eq!(
        empty.resolve_backend(&None, &Some("v".to_string()), &Some("en".to_string()), true).unwrap_err(),
        OutputError::VoiceNotFound("v".to_string())
    );
    assert_eq!(
        empty.resolve_backend(&None, &None, &Some("en".to_string()), true).unwrap_err(),
        OutputError::LanguageNotFound("en".to_string())
    );
    assert_eq!(
        empty.resolve_backend(&Some("x".to_string()), &None, &None, true).unwrap(),
        "x".to_string()
    );
}

#[test]
fn resolution_picks_owner_of_best_voice() {
    let a = with_voice(fake("a", true, false, false), "v", 3, &["en"]);
    let b = with_voice(fake("b", false, true, false), "v", 1, &["en"]);
    let r = registry_of(vec![a, b]);
    assert_eq!(r.resolve_backend(&None, &Some("v".to_string()), &None, false).unwrap(), "b");
    assert_eq!(r.resolve_backend(&None, &Some("v".to_string()), &None, true).unwrap(), "a");
}

#[test]
fn audio_data_only_backend_speaks_through_sink() {
    let r = registry_of(vec![with_voice(fake("raw", true, false, false), "v1", 0, &[])]);
    let mut sink = Vec::new();
    r.speak_to_audio_output(Some("raw"), None, None, None, None, None, "hi", true, &mut sink).unwrap();
    assert_eq!(sink.len(), 2);
    assert_eq!(sink[0], SinkCommand::Stop);
    assert_eq!(
        sink[1],
        SinkCommand::Append { samples: Samples::S16(vec![104, 105]), sample_rate: 22050 }
    );
    let b = &r.entry(0).backend;
    assert_eq!(b.data_calls.get(), 1);
    assert_eq!(b.native_calls.get(), 0);
    let mut quiet = Vec::new();
    r.speak_to_audio_output(None, Some("v1"), None, None, None, None, "hi", false, &mut quiet).unwrap();
    assert_eq!(quiet.len(), 1);
}

#[test]
fn native_playback_is_preferred_over_audio_data() {
    let r = registry_of(vec![with_voice(fake("both", true, true, false), "v1", 0, &[])]);
    let mut sink = Vec::new();
    r.speak_to_audio_output(None, Some("v1"), None, None, None, None, "hi", true, &mut sink).unwrap();
    assert!(sink.is_empty());
    assert_eq!(r.entry(0).backend.native_calls.get(), 1);
    assert_eq!(r.entry(0).backend.data_calls.get(), 0);
}

#[test]
fn capability_errors() {
    let r = registry_of(vec![fake("speech", false, true, false), fake("dots", false, false, true)]);
    let mut sink = Vec::new();
    assert_eq!(
        r.speak_to_audio_data(Some("speech"), None, None, None, None, None, "x").unwrap_err(),
        OutputError::AudioDataNotSupported("speech".to_string())
    );
    assert_eq!(
        r.speak_to_audio_output(Some("dots"), None, None, None, None, None, "x", false, &mut sink)
            .unwrap_err(),
        OutputError::SpeechNotSupported("dots".to_string())
    );
    assert_eq!(
        r.stop_speech(Some("dots"), &mut sink).unwrap_err(),
        OutputError::SpeechNotSupported("dots".to_string())
    );
    assert_eq!(
        r.braille(Some("speech"), "x").unwrap_err(),
        OutputError::BrailleNotSupported("speech".to_string())
    );
    assert!(sink.is_empty());
}

#[test]
fn stop_all_ignores_backend_failures() {
    let mut broken = fake("broken", false, true, false);
    broken.stop_fails = true;
    let r = registry_of(vec![broken, fake("fine", false, true, false), fake("raw", true, false, false)]);
    let mut sink = Vec::new();
    assert_eq!(r.stop_speech(None, &mut sink), Ok(()));
    assert_eq!(sink, vec![SinkCommand::Stop]);
    assert_eq!(r.entry(0).backend.stop_calls.get(), 1);
    assert_eq!(r.entry(1).backend.stop_calls.get(), 1);
    assert_eq!(
        r.stop_speech(Some("broken"), &mut sink).unwrap_err(),
        OutputError::StopSpeechFailed { backend: "broken".to_string(), error: "device gone".to_string() }
    );
    assert_eq!(r.stop_speech(Some("raw"), &mut sink), Ok(()));
    assert_eq!(sink, vec![SinkCommand::Stop, SinkCommand::Stop]);
}

#[test]
fn braille_prefers_lowest_priority() {
    let mut low = fake("low", false, false, true);
    low.braille_priority = 1;
    let mut high = fake("high", false, false, true);
    high.braille_priority = 3;
    let r = registry_of(vec![high, low]);
    r.braille(None, "x").unwrap();
    assert_eq!(r.entry(1).backend.braille_calls.get(), 1);
    assert_eq!(r.entry(0).backend.braille_calls.get(), 0);
    assert_eq!(r.preferred_braille_backend(), Some(1));
    let none: Registry<Fake> = Registry::new();
    assert_eq!(none.braille(None, "x").unwrap_err(), OutputError::NoBrailleBackends);
    assert_eq!(none.preferred_braille_backend(), None);
}

#[test]
fn output_with_nothing_registered_has_no_backends() {
    let r: Registry<Fake> = Registry::new();
    let mut sink = Vec::new();
    assert_eq!(
        r.output(None, None, None, None, None, None, None, "x", false, &mut sink).unwrap_err(),
        OutputError::NoBackends
    );
    assert_eq!(
        r.output(None, Some("v"), None, None, None, None, None, "x", false, &mut sink).unwrap_err(),
        OutputError::VoiceNotFound("v".to_string())
    );
}

#[test]
fn output_falls_back_to_braille_without_voices() {
    let r = registry_of(vec![fake("dots", false, false, true)]);
    let mut sink = Vec::new();
    assert_eq!(r.output(None, None, None, None, None, None, None, "x", false, &mut sink), Ok(()));
    assert_eq!(r.entry(0).backend.braille_calls.get(), 1);
}

#[test]
fn merge_rule() {
    let nv = || Err(OutputError::NoVoices);
    let nb = || Err(OutputError::NoBrailleBackends);
    assert_eq!(merge_output_results(nv(), nb()), Err(OutputError::NoBackends));
    assert_eq!(merge_output_results(nv(), Ok(())), Ok(()));
    assert_eq!(
        merge_output_results(nv(), Err(OutputError::BrailleNotSupported("b".to_string()))),
        Err(OutputError::BrailleNotSupported("b".to_string()))
    );
    assert_eq!(merge_output_results(Ok(()), nb()), Ok(()));
    assert_eq!(
        merge_output_results(Err(OutputError::InvalidRate(200)), Ok(())),
        Err(OutputError::InvalidRate(200))
    );
}

#[test]
fn registering_twice_replaces_by_name() {
    let mut r = Registry::new();
    r.register(fake("same", true, false, false));
    r.register(fake("same", false, true, false));
    r.register(fake("other", false, false, true));
    assert_eq!(r.len(), 2);
    assert!(r.entry(0).capabilities.audio_output);
    assert_eq!(r.find("other"), Some(1));
    assert_eq!(r.find("missing"), None);
    let built = Registry::from_backends(vec![
        Ok(fake("x", true, false, false)),
        Err(OutputError::into_initialize_failed("no engine")),
        Ok(fake("y", false, false, true)),
    ]);
    assert_eq!(built.len(), 2);
}

#[test]
fn metadata_listings() {
    let mut dots = fake("dots", false, false, true);
    dots.braille_priority = 7;
    let r = registry_of(vec![fake("raw", true, false, false), fake("native", false, true, false), dots]);
    let all = r.list_speech_synthesizers().unwrap();
    assert_eq!(all.len(), 2);
    assert_eq!(all[0].name, "raw");
    assert!(all[0].supports_speaking_to_audio_data);
    assert!(all[0].supports_speech_parameters);
    assert_eq!(all[1].name, "native");
    assert!(!all[1].supports_speaking_to_audio_data);
    assert!(!all[1].supports_speech_parameters);
    let data = r.list_speech_synthesizers_supporting_audio_data().unwrap();
    assert_eq!(data.len(), 1);
    assert_eq!(data[0].name, "raw");
    let braille = r.list_braille_backends().unwrap();
    assert_eq!(braille.len(), 1);
    assert_eq!(braille[0].name, "dots");
    assert_eq!(braille[0].priority, 7);
}

#[test]
fn decoding_pcm_by_format() {
    let pcm = vec![0x01, 0x00, 0xff, 0xff, 0x00, 0x80, 0x7f];
    assert_eq!(decode_samples(&pcm, SampleFormat::S16), Samples::S16(vec![1, -1, -32768]));
    let one = 1.0f32.to_bits().to_le_bytes().to_vec();
    assert_eq!(decode_samples(&one, SampleFormat::F32), Samples::F32Bits(vec![0x3f80_0000]));
    assert_eq!(decode_samples(&vec![1, 2, 3], SampleFormat::F32), Samples::F32Bits(vec![]));
    assert_eq!(SampleFormat::S16.sample_size(), 2);
    assert_eq!(SampleFormat::F32.sample_size(), 4);
    let mut sink = vec![SinkCommand::Stop];
    let result = SpeechResult { pcm: vec![2, 0], sample_format: SampleFormat::S16, sample_rate: 8000 };
    play_audio(&result, false, &mut sink);
    assert_eq!(
        sink,
        vec![SinkCommand::Stop, SinkCommand::Append { samples: Samples::S16(vec![2]), sample_rate: 8000 }]
    );
}

#[test]
fn status_codes() {
    assert_eq!(WhisprsOutputError::from(OutputError::NoBackends), WhisprsOutputError::NoBackends);
    assert_eq!(WhisprsOutputError::from(OutputError::NoBackends).code(), 9);
    assert_eq!(WhisprsOutputError::from_error(&OutputError::InvalidPitch(200)).code(), 12);
    assert_eq!(WhisprsOutputError::of_result::<()>(&Ok(())).code(), 0);
    assert_eq!(
        WhisprsOutputError::of_result::<u8>(&Err(OutputError::into_unknown("x"))),
        WhisprsOutputError::Unknown
    );
}

#[test]
fn error_constructors() {
    assert_eq!(OutputError::into_backend_not_found("b"), OutputError::BackendNotFound("b".to_string()));
    assert_eq!(
        OutputError::into_audio_data_not_supported("b"),
        OutputError::AudioDataNotSupported("b".to_string())
    );
    assert_eq!(OutputError::into_speech_not_supported("b"), OutputError::SpeechNotSupported("b".to_string()));
    assert_eq!(OutputError::into_braille_not_supported("b"), OutputError::BrailleNotSupported("b".to_string()));
    assert_eq!(OutputError::into_voice_not_found("v"), OutputError::VoiceNotFound("v".to_string()));
    assert_eq!(OutputError::into_language_not_found("l"), OutputError::LanguageNotFound("l".to_string()));
    assert_eq!(
        OutputError::into_speak_failed("b", "v", "e"),
        OutputError::SpeakFailed { backend: "b".to_string(), voice: "v".to_string(), error: "e".to_string() }
    );
    assert_eq!(
        OutputError::into_braille_failed("b", "e"),
        OutputError::BrailleFailed { backend: "b".to_string(), error: "e".to_string() }
    );
    assert_eq!(OutputError::into_initialize_failed("e"), OutputError::InitializeFailed("e".to_string()));
    assert_eq!(OutputError::into_unknown("e"), OutputError::Unknown("e".to_string()));
}

#[test]
fn pick_backend_from_gathered_voices() {
    let mut a = voice("v", 4, &["en"]);
    a.synthesizer.name = "slow".to_string();
    let mut b = voice("v", 2, &["en"]);
    b.synthesizer.name = "fast".to_string();
    assert_eq!(pick_backend(vec![a.clone(), b.clone()], &Some("v".to_string()), &None).unwrap(), "fast");
    assert_eq!(
        pick_backend(vec![a, b], &None, &Some("fr".to_string())).unwrap_err(),
        OutputError::LanguageNotFound("fr".to_string())
    );
    assert_eq!(pick_backend(vec![], &None, &None).unwrap_err(), OutputError::NoVoices);
}

#[test]
fn routes_and_targets() {
    let mut dots = fake("dots", false, false, true);
    dots.braille_priority = 2;
    let r = registry_of(vec![
        fake("raw", true, false, false),
        fake("native", false, true, false),
        fake("both", true, true, false),
        dots,
    ]);
    assert_eq!(r.speech_target("raw", false), Ok(Route::AudioData(0)));
    assert_eq!(r.speech_target("native", false), Ok(Route::Native(1)));
    assert_eq!(r.speech_target("both", false), Ok(Route::Native(2)));
    assert_eq!(r.speech_target("both", true), Ok(Route::AudioData(2)));
    assert_eq!(
        r.speech_target("native", true),
        Err(OutputError::AudioDataNotSupported("native".to_string()))
    );
    assert_eq!(r.speech_target("dots", false), Err(OutputError::SpeechNotSupported("dots".to_string())));
    assert_eq!(r.speech_target("none", false), Err(OutputError::BackendNotFound("none".to_string())));
    assert_eq!(r.native_playback_backends(), vec![1, 2]);
    assert_eq!(r.braille_target(None), Ok(3));
    assert_eq!(r.braille_target(Some("dots")), Ok(3));
    assert_eq!(r.braille_target(Some("raw")), Err(OutputError::BrailleNotSupported("raw".to_string())));
    let speech_only = registry_of(vec![fake("raw", true, false, false)]);
    assert_eq!(speech_only.braille_target(None), Err(OutputError::NoBrailleBackends));
}

#[test]
fn every_built_backend_is_registered() {
    let built = Registry::from_backends(vec![
        Err(OutputError::into_initialize_failed("missing engine")),
        Ok(fake("first", true, false, false)),
        Ok(fake("second", false, true, false)),
        Err(OutputError::into_initialize_failed("no device")),
        Ok(fake("third", false, false, true)),
        Ok(fake("first", false, true, false)),
    ]);
    assert_eq!(built.len(), 3);
    assert_eq!(built.find("first"), Some(0));
    assert!(built.entry(0).capabilities.audio_output);
    assert_eq!(built.find("second"), Some(1));
    assert_eq!(built.find("third"), Some(2));
}

#[test]
fn backends_that_cannot_speak_list_no_voices() {
    let r = registry_of(vec![with_voice(fake("mute", false, false, false), "v", 0, &[])]);
    assert!(r.list_voices(None, None, None, false).unwrap().is_empty());
    let mut sink = Vec::new();
    assert_eq!(
        r.output(None, None, None, None, None, None, None, "x", false, &mut sink).unwrap_err(),
        OutputError::NoBackends
    );
}
