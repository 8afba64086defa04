use vstd::prelude::*;

verus! {

/// What a speech backend offers, derived from the capabilities it was
/// registered with.
#[derive(Debug, Clone, PartialEq, Eq)]
pub struct SpeechSynthesizerMetadata {
    pub name: String,
    pub supports_speaking_to_audio_data: bool,
    pub supports_speech_parameters: bool,
}

/// A Braille backend and its rank; a lower number is preferred.
#[derive(Debug, Clone, PartialEq, Eq)]
pub struct BrailleBackendMetadata {
    pub name: String,
    pub priority: u8,
}

/// A backend-scoped voice.
///
/// `name` is what the owning backend expects back to select the voice again;
/// an empty `languages` list matches every language.
#[derive(Debug, Clone, PartialEq, Eq)]
pub struct Voice {
    pub synthesizer: SpeechSynthesizerMetadata,
    pub display_name: String,
    pub name: String,
    pub languages: Vec<String>,
    pub priority: u8,
}

} // verus!
