use vstd::prelude::*;
use crate::error::OutputError;

verus! {

/// The outcome of an operation as a plain status code, for callers across a
/// language boundary that cannot receive [`OutputError`] itself.
#[derive(Debug, Clone, Copy, PartialEq, Eq, Structural)]
pub enum WhisprsOutputError {
    Success,
    BackendNotFound,
    AudioDataNotSupported,
    SpeechNotSupported,
    BrailleNotSupported,
    VoiceNotFound,
    LanguageNotFound,
    NoVoices,
    NoBrailleBackends,
    NoBackends,
    InvalidRate,
    InvalidVolume,
    InvalidPitch,
    SpeakFailed,
    StopSpeechFailed,
    BrailleFailed,
    InitializeFailed,
    Unknown,
}

/// The status code of each error: its kind, without the details.
pub open spec fn status_of(error: OutputError) -> WhisprsOutputError {
    match error {
        OutputError::BackendNotFound(_) => WhisprsOutputError::BackendNotFound,
        OutputError::AudioDataNotSupported(_) => WhisprsOutputError::AudioDataNotSupported,
        OutputError::SpeechNotSupported(_) => WhisprsOutputError::SpeechNotSupported,
        OutputError::BrailleNotSupported(_) => WhisprsOutputError::BrailleNotSupported,
        OutputError::VoiceNotFound(_) => WhisprsOutputError::VoiceNotFound,
        OutputError::LanguageNotFound(_) => WhisprsOutputError::LanguageNotFound,
        OutputError::NoVoices => WhisprsOutputError::NoVoices,
        OutputError::NoBrailleBackends => WhisprsOutputError::NoBrailleBackends,
        OutputError::NoBackends => WhisprsOutputError::NoBackends,
        OutputError::InvalidRate(_) => WhisprsOutputError::InvalidRate,
        OutputError::InvalidVolume(_) => WhisprsOutputError::InvalidVolume,
        OutputError::InvalidPitch(_) => WhisprsOutputError::InvalidPitch,
        OutputError::SpeakFailed { .. } => WhisprsOutputError::SpeakFailed,
        OutputError::StopSpeechFailed { .. } => WhisprsOutputError::StopSpeechFailed,
        OutputError::BrailleFailed { .. } => WhisprsOutputError::BrailleFailed,
        OutputError::InitializeFailed(_) => WhisprsOutputError::InitializeFailed,
        OutputError::Unknown(_) => WhisprsOutputError::Unknown,
    }
}

/// The position of a status in the declaration above, which is its numeric
/// code: 0 for success, then one per error kind.
pub open spec fn code_of(status: WhisprsOutputError) -> u8 {
    match status {
        WhisprsOutputError::Success => 0,
        WhisprsOutputError::BackendNotFound => 1,
        WhisprsOutputError::AudioDataNotSupported => 2,
        WhisprsOutputError::SpeechNotSupported => 3,
        WhisprsOutputError::BrailleNotSupported => 4,
        WhisprsOutputError::VoiceNotFound => 5,
        WhisprsOutputError::LanguageNotFound => 6,
        WhisprsOutputError::NoVoices => 7,
        WhisprsOutputError::NoBrailleBackends => 8,
        WhisprsOutputError::NoBackends => 9,
        WhisprsOutputError::InvalidRate => 10,
        WhisprsOutputError::InvalidVolume => 11,
        WhisprsOutputError::InvalidPitch => 12,
        WhisprsOutputError::SpeakFailed => 13,
        WhisprsOutputError::StopSpeechFailed => 14,
        WhisprsOutputError::BrailleFailed => 15,
        WhisprsOutputError::InitializeFailed => 16,
        WhisprsOutputError::Unknown => 17,
    }
}

impl WhisprsOutputError {
    /// The numeric code of the status.
    pub fn code(&self) -> (r: u8)
        ensures
            r == code_of(*self),
    {
        match self {
            WhisprsOutputError::Success => 0,
            WhisprsOutputError::BackendNotFound => 1,
            WhisprsOutputError::AudioDataNotSupported => 2,
            WhisprsOutputError::SpeechNotSupported => 3,
            WhisprsOutputError::BrailleNotSupported => 4,
            WhisprsOutputError::VoiceNotFound => 5,
            WhisprsOutputError::LanguageNotFound => 6,
            WhisprsOutputError::NoVoices => 7,
            WhisprsOutputError::NoBrailleBackends => 8,
            WhisprsOutputError::NoBackends => 9,
            WhisprsOutputError::InvalidRate => 10,
            WhisprsOutputError::InvalidVolume => 11,
            WhisprsOutputError::InvalidPitch => 12,
            WhisprsOutputError::SpeakFailed => 13,
            WhisprsOutputError::StopSpeechFailed => 14,
            WhisprsOutputError::BrailleFailed => 15,
            WhisprsOutputError::InitializeFailed => 16,
            WhisprsOutputError::Unknown => 17,
        }
    }

    /// The status of an outcome: `Success` for success, else the error's kind.
    pub fn of_result<T>(outcome: &Result<T, OutputError>) -> (r: Self)
        ensures
            r == match outcome {
                Ok(_) => WhisprsOutputError::Success,
                Err(e) => status_of(*e),
            },
    {
        match outcome {
            Ok(_) => WhisprsOutputError::Success,
            Err(e) => WhisprsOutputError::from_error(e),
        }
    }

    /// The status code of an error.
    pub fn from_error(error: &OutputError) -> (r: Self)
        ensures
            r == status_of(*error),
    {
        match error {
            OutputError::BackendNotFound(_) => WhisprsOutputError::BackendNotFound,
            OutputError::AudioDataNotSupported(_) => WhisprsOutputError::AudioDataNotSupported,
            OutputError::SpeechNotSupported(_) => WhisprsOutputError::SpeechNotSupported,
            OutputError::BrailleNotSupported(_) => WhisprsOutputError::BrailleNotSupported,
            OutputError::VoiceNotFound(_) => WhisprsOutputError::VoiceNotFound,
            OutputError::LanguageNotFound(_) => WhisprsOutputError::LanguageNotFound,
            OutputError::NoVoices => WhisprsOutputError::NoVoices,
            OutputError::NoBrailleBackends => WhisprsOutputError::NoBrailleBackends,
            OutputError::NoBackends => WhisprsOutputError::NoBackends,
            OutputError::InvalidRate(_) => WhisprsOutputError::InvalidRate,
            OutputError::InvalidVolume(_) => WhisprsOutputError::InvalidVolume,
            OutputError::InvalidPitch(_) => WhisprsOutputError::InvalidPitch,
            OutputError::SpeakFailed { .. } => WhisprsOutputError::SpeakFailed,
            OutputError::StopSpeechFailed { .. } => WhisprsOutputError::StopSpeechFailed,
            OutputError::BrailleFailed { .. } => WhisprsOutputError::BrailleFailed,
            OutputError::InitializeFailed(_) => WhisprsOutputError::InitializeFailed,
            OutputError::Unknown(_) => WhisprsOutputError::Unknown,
        }
    }
}

impl From<OutputError> for WhisprsOutputError {
    fn from(error: OutputError) -> (r: Self) {
        WhisprsOutputError::from_error(&error)
    }
}

impl vstd::std_specs::convert::FromSpecImpl<OutputError> for WhisprsOutputError {
    open spec fn obeys_from_spec() -> bool {
        true
    }

    open spec fn from_spec(v: OutputError) -> WhisprsOutputError {
        status_of(v)
    }
}

} // verus!
