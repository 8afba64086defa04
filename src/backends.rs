use vstd::prelude::*;
use crate::audio::SpeechResult;
use crate::error::OutputError;
use crate::metadata::Voice;

verus! {

/// Which of the capability interfaces a backend really provides.
///
/// A backend implements every interface below, but the dispatch layer only
/// calls the methods of those that its capabilities name; the others may
/// simply report an error.
#[derive(Debug, Clone, Copy, PartialEq, Eq, Structural)]
pub struct Capabilities {
    /// Synthesizes complete PCM buffers without playing them.
    pub audio_data: bool,
    /// Plays speech through the host's own audio path and can stop it.
    pub audio_output: bool,
    /// Writes text to a Braille display.
    pub braille: bool,
}

/// Synthesis of complete audio buffers.
pub trait SpeechSynthesizerToAudioData {
    fn supports_speech_parameters(&self) -> bool;

    fn speak(
        &self,
        voice: Option<&str>,
        language: Option<&str>,
        rate: Option<u8>,
        volume: Option<u8>,
        pitch: Option<u8>,
        text: &str,
    ) -> Result<SpeechResult, OutputError>;
}

/// Speech played by the backend itself.
pub trait SpeechSynthesizerToAudioOutput {
    fn supports_speech_parameters(&self) -> bool;

    fn speak(
        &self,
        voice: Option<&str>,
        language: Option<&str>,
        rate: Option<u8>,
        volume: Option<u8>,
        pitch: Option<u8>,
        text: &str,
        interrupt: bool,
    ) -> Result<(), OutputError>;

    fn stop_speech(&self) -> Result<(), OutputError>;
}

/// Output to a Braille display.
pub trait BrailleBackend {
    /// Rank among Braille backends; a lower number is preferred.
    fn priority(&self) -> u8;

    fn braille(&self, text: &str) -> Result<(), OutputError>;
}

/// An engine adapter as the registry holds it.
pub trait Backend: SpeechSynthesizerToAudioData + SpeechSynthesizerToAudioOutput + BrailleBackend {
    /// The name under which the backend is registered and selected.
    fn name(&self) -> String;

    /// The interfaces that the backend really provides; read once, when it
    /// is registered.
    fn capabilities(&self) -> Capabilities;

    /// The voices that the engine offers right now.
    fn list_voices(&self) -> Result<Vec<Voice>, OutputError>;
}

} // verus!
