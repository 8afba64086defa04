use vstd::prelude::*;

verus! {

/// Every failure that the dispatch layer reports.
#[derive(Debug, Clone, PartialEq, Eq)]
pub enum OutputError {
    /// No backend has been registered under the given name.
    BackendNotFound(String),
    /// The backend cannot return synthesized audio as data.
    AudioDataNotSupported(String),
    /// The backend can neither return audio data nor play speech itself.
    SpeechNotSupported(String),
    /// The backend cannot drive a Braille display.
    BrailleNotSupported(String),
    /// No voice carries the requested name.
    VoiceNotFound(String),
    /// No voice speaks the requested language.
    LanguageNotFound(String),
    /// No voice is available at all.
    NoVoices,
    /// No Braille backend is available at all.
    NoBrailleBackends,
    /// Neither speech nor Braille output is available.
    NoBackends,
    /// A speech rate above 100.
    InvalidRate(u8),
    /// A speech volume above 100.
    InvalidVolume(u8),
    /// A speech pitch above 100.
    InvalidPitch(u8),
    /// The backend reported a failure while speaking.
    SpeakFailed { backend: String, voice: String, error: String },
    /// The backend reported a failure while stopping speech.
    StopSpeechFailed { backend: String, error: String },
    /// The backend reported a failure while writing Braille.
    BrailleFailed { backend: String, error: String },
    /// The subsystem could not be brought up.
    InitializeFailed(String),
    /// An internal plumbing failure.
    Unknown(String),
}

impl OutputError {
    pub fn into_backend_not_found(backend: &str) -> (r: Self)
        ensures
            r matches OutputError::BackendNotFound(n) && n@ == backend@,
    {
        OutputError::BackendNotFound(backend.to_owned())
    }

    pub fn into_audio_data_not_supported(backend: &str) -> (r: Self)
        ensures
            r matches OutputError::AudioDataNotSupported(n) && n@ == backend@,
    {
        OutputError::AudioDataNotSupported(backend.to_owned())
    }

    pub fn into_speech_not_supported(backend: &str) -> (r: Self)
        ensures
            r matches OutputError::SpeechNotSupported(n) && n@ == backend@,
    {
        OutputError::SpeechNotSupported(backend.to_owned())
    }

    pub fn into_braille_not_supported(backend: &str) -> (r: Self)
        ensures
            r matches OutputError::BrailleNotSupported(n) && n@ == backend@,
    {
        OutputError::BrailleNotSupported(backend.to_owned())
    }

    pub fn into_voice_not_found(voice: &str) -> (r: Self)
        ensures
            r matches OutputError::VoiceNotFound(n) && n@ == voice@,
    {
        OutputError::VoiceNotFound(voice.to_owned())
    }

    pub fn into_language_not_found(language: &str) -> (r: Self)
        ensures
            r matches OutputError::LanguageNotFound(n) && n@ == language@,
    {
        OutputError::LanguageNotFound(language.to_owned())
    }

    pub fn into_speak_failed(backend: &str, voice: &str, error: &str) -> (r: Self)
        ensures
            r matches OutputError::SpeakFailed { backend: b, voice: v, error: e }
                && b@ == backend@ && v@ == voice@ && e@ == error@,
    {
        OutputError::SpeakFailed {
            backend: backend.to_owned(),
            voice: voice.to_owned(),
            error: error.to_owned(),
        }
    }

    pub fn into_stop_speech_failed(backend: &str, error: &str) -> (r: Self)
        ensures
            r matches OutputError::StopSpeechFailed { backend: b, error: e }
                && b@ == backend@ && e@ == error@,
    {
        OutputError::StopSpeechFailed { backend: backend.to_owned(), error: error.to_owned() }
    }

    pub fn into_braille_failed(backend: &str, error: &str) -> (r: Self)
        ensures
            r matches OutputError::BrailleFailed { backend: b, error: e }
                && b@ == backend@ && e@ == error@,
    {
        OutputError::BrailleFailed { backend: backend.to_owned(), error: error.to_owned() }
    }

    pub fn into_initialize_failed(error: &str) -> (r: Self)
        ensures
            r matches OutputError::InitializeFailed(e) && e@ == error@,
    {
        OutputError::InitializeFailed(error.to_owned())
    }

    pub fn into_unknown(error: &str) -> (r: Self)
        ensures
            r matches OutputError::Unknown(e) && e@ == error@,
    {
        OutputError::Unknown(error.to_owned())
    }
}

} // verus!
