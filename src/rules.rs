use vstd::prelude::*;
use crate::error::OutputError;

verus! {

/// The first speech parameter above 100, checked in the order rate, volume,
/// pitch, as the error that reports it.
pub open spec fn parameter_error(rate: Option<u8>, volume: Option<u8>, pitch: Option<u8>) -> Option<OutputError> {
    if rate matches Some(r) && r > 100 {
        Some(OutputError::InvalidRate(rate.unwrap()))
    } else if volume matches Some(v) && v > 100 {
        Some(OutputError::InvalidVolume(volume.unwrap()))
    } else if pitch matches Some(p) && p > 100 {
        Some(OutputError::InvalidPitch(pitch.unwrap()))
    } else {
        None
    }
}

/// Rejects a rate, volume or pitch outside 0 to 100.
pub fn check_speech_parameters(rate: Option<u8>, volume: Option<u8>, pitch: Option<u8>) -> (r: Result<(), OutputError>)
    ensures
        r == match parameter_error(rate, volume, pitch) {
            Some(e) => Err::<(), OutputError>(e),
            None => Ok(()),
        },
{
    if let Some(r) = rate {
        if r > 100 {
            return Err(OutputError::InvalidRate(r));
        }
    }
    if let Some(v) = volume {
        if v > 100 {
            return Err(OutputError::InvalidVolume(v));
        }
    }
    if let Some(p) = pitch {
        if p > 100 {
            return Err(OutputError::InvalidPitch(p));
        }
    }
    Ok(())
}

/// The error for a voice search that found nothing: the voice name when one
/// was asked for, else the language when one was, else that there are no
/// voices at all.
pub open spec fn is_no_match_error(e: OutputError, voice: Option<Seq<char>>, language: Option<Seq<char>>) -> bool {
    match (voice, language) {
        (Some(v), _) => e matches OutputError::VoiceNotFound(n) && n@ == v,
        (None, Some(l)) => e matches OutputError::LanguageNotFound(n) && n@ == l,
        (None, None) => e == OutputError::NoVoices,
    }
}

/// Builds the error for a voice search that found nothing.
pub fn no_match_error(voice: &Option<String>, language: &Option<String>) -> (r: OutputError)
    ensures
        is_no_match_error(
            r,
            crate::selection::opt_text(*voice),
            crate::selection::opt_text(*language),
        ),
{
    match (voice, language) {
        (Some(v), _) => OutputError::into_voice_not_found(v.as_str()),
        (None, Some(l)) => OutputError::into_language_not_found(l.as_str()),
        (None, None) => OutputError::NoVoices,
    }
}

/// The combined outcome of speech `s` and Braille `b`: no backends at all
/// when both found none, Braille's outcome when only speech found no voice,
/// speech's outcome otherwise.
pub open spec fn merged_outcome(s: Result<(), OutputError>, b: Result<(), OutputError>) -> Result<(), OutputError> {
    if s == Err::<(), OutputError>(OutputError::NoVoices) {
        if b == Err::<(), OutputError>(OutputError::NoBrailleBackends) {
            Err(OutputError::NoBackends)
        } else {
            b
        }
    } else {
        s
    }
}

/// Merges the outcomes of the speech and Braille halves of one output call.
pub fn merge_output_results(speech: Result<(), OutputError>, braille: Result<(), OutputError>) -> (r: Result<(), OutputError>)
    ensures
        r == merged_outcome(speech, braille),
{
    match speech {
        Err(OutputError::NoVoices) => match braille {
            Err(OutputError::NoBrailleBackends) => Err(OutputError::NoBackends),
            other => other,
        },
        other => other,
    }
}

} // verus!
