use vstd::prelude::*;
use crate::audio::{play_audio, playback_commands_match, SinkCommand, SpeechResult};
use crate::backends::{
    Backend,
    BrailleBackend,
    SpeechSynthesizerToAudioData,
    SpeechSynthesizerToAudioOutput,
};
use crate::catalog::{has_braille, is_preferred_braille, resolves_to};
use crate::error::OutputError;
use crate::registry::{has_name, index_of, named, opt_str, to_owned_opt, Registration, Registry};
use crate::rules::{check_speech_parameters, merge_output_results, merged_outcome, parameter_error};
use crate::selection::opt_text;

verus! {

/// What synthesis to audio data returns once the backend `res` was resolved:
/// the resolution error, an error when the backend is missing or returns no
/// audio data, else whatever the backend returned.
pub open spec fn audio_data_outcome<B>(
    r: Result<SpeechResult, OutputError>,
    res: Result<String, OutputError>,
    es: Seq<Registration<B>>,
) -> bool {
    match res {
        Err(e) => r == Err::<SpeechResult, OutputError>(e),
        Ok(n) => if !has_name(es, n@) {
            r matches Err(OutputError::BackendNotFound(m)) && m@ == n@
        } else if !named(es, n@).capabilities.audio_data {
            r matches Err(OutputError::AudioDataNotSupported(m)) && m@ == n@
        } else {
            true
        },
    }
}

/// The contract of synthesis to audio data: parameters are checked first,
/// then a backend that returns audio data is resolved and asked.
pub open spec fn speaks_to_audio_data<B>(
    r: Result<SpeechResult, OutputError>,
    es: Seq<Registration<B>>,
    synthesizer: Option<Seq<char>>,
    voice: Option<Seq<char>>,
    language: Option<Seq<char>>,
    rate: Option<u8>,
    volume: Option<u8>,
    pitch: Option<u8>,
) -> bool {
    match parameter_error(rate, volume, pitch) {
        Some(e) => r == Err::<SpeechResult, OutputError>(e),
        None => exists|res: Result<String, OutputError>|
            resolves_to(res, es, synthesizer, voice, language, true) && audio_data_outcome(r, res, es),
    }
}

/// The sink after playing generated speech: the earlier commands are kept
/// and the commands for some synthesized utterance follow.
pub open spec fn sink_plays(before: Seq<SinkCommand>, after: Seq<SinkCommand>, interrupt: bool) -> bool {
    &&& before.len() <= after.len()
    &&& after.subrange(0, before.len() as int) == before
    &&& exists|sr: SpeechResult|
        playback_commands_match(after.subrange(before.len() as int, after.len() as int), sr, interrupt)
}

/// What speaking to the audio output does once the backend `res` was
/// resolved: a backend with its own playback speaks and the sink is left
/// alone; one that only returns audio data has its speech queued on the
/// sink; one with neither is an error.
pub open spec fn audio_output_outcome<B>(
    r: Result<(), OutputError>,
    res: Result<String, OutputError>,
    es: Seq<Registration<B>>,
    before: Seq<SinkCommand>,
    after: Seq<SinkCommand>,
    interrupt: bool,
) -> bool {
    match res {
        Err(e) => r == Err::<(), OutputError>(e) && after == before,
        Ok(n) => if !has_name(es, n@) {
            r matches Err(OutputError::BackendNotFound(m)) && m@ == n@ && after == before
        } else if named(es, n@).capabilities.audio_output {
            after == before
        } else if named(es, n@).capabilities.audio_data {
            &&& r is Err ==> after == before
            &&& r is Ok ==> sink_plays(before, after, interrupt)
        } else {
            r matches Err(OutputError::SpeechNotSupported(m)) && m@ == n@ && after == before
        },
    }
}

/// The contract of speaking to the audio output.
pub open spec fn speaks_to_audio_output<B>(
    r: Result<(), OutputError>,
    es: Seq<Registration<B>>,
    synthesizer: Option<Seq<char>>,
    voice: Option<Seq<char>>,
    language: Option<Seq<char>>,
    rate: Option<u8>,
    volume: Option<u8>,
    pitch: Option<u8>,
    interrupt: bool,
    before: Seq<SinkCommand>,
    after: Seq<SinkCommand>,
) -> bool {
    match parameter_error(rate, volume, pitch) {
        Some(e) => r == Err::<(), OutputError>(e) && after == before,
        None => exists|res: Result<String, OutputError>|
            resolves_to(res, es, synthesizer, voice, language, false) && audio_output_outcome(
                r,
                res,
                es,
                before,
                after,
                interrupt,
            ),
    }
}

/// The contract of stopping speech: with no backend named the sink is
/// stopped and the call succeeds whatever the backends answer; a named
/// backend is stopped by its own playback, or through the sink when it only
/// returns audio data.
pub open spec fn stops_speech<B>(
    r: Result<(), OutputError>,
    es: Seq<Registration<B>>,
    synthesizer: Option<Seq<char>>,
    before: Seq<SinkCommand>,
    after: Seq<SinkCommand>,
) -> bool {
    match synthesizer {
        None => r == Ok::<(), OutputError>(()) && after == before.push(SinkCommand::Stop),
        Some(n) => if !has_name(es, n) {
            r matches Err(OutputError::BackendNotFound(m)) && m@ == n && after == before
        } else if named(es, n).capabilities.audio_output {
            after == before
        } else if named(es, n).capabilities.audio_data {
            r == Ok::<(), OutputError>(()) && after == before.push(SinkCommand::Stop)
        } else {
            r matches Err(OutputError::SpeechNotSupported(m)) && m@ == n && after == before
        },
    }
}

/// The contract of Braille output: a named backend must exist and drive a
/// display; with none named there must be some Braille backend.
pub open spec fn brailles<B>(r: Result<(), OutputError>, es: Seq<Registration<B>>, backend: Option<Seq<char>>) -> bool {
    match backend {
        None => !has_braille(es) ==> r == Err::<(), OutputError>(OutputError::NoBrailleBackends),
        Some(n) => if !has_name(es, n) {
            r matches Err(OutputError::BackendNotFound(m)) && m@ == n
        } else if !named(es, n).capabilities.braille {
            r matches Err(OutputError::BrailleNotSupported(m)) && m@ == n
        } else {
            true
        },
    }
}

/// The contract of combined output: out-of-range parameters fail before any
/// backend is asked; otherwise the outcomes of speaking and of Braille, both
/// attempted, merged.
pub open spec fn outputs<B>(
    r: Result<(), OutputError>,
    es: Seq<Registration<B>>,
    synthesizer: Option<Seq<char>>,
    voice: Option<Seq<char>>,
    language: Option<Seq<char>>,
    rate: Option<u8>,
    volume: Option<u8>,
    pitch: Option<u8>,
    braille_backend: Option<Seq<char>>,
    interrupt: bool,
    before: Seq<SinkCommand>,
    after: Seq<SinkCommand>,
) -> bool {
    match parameter_error(rate, volume, pitch) {
        Some(e) => r == Err::<(), OutputError>(e) && after == before,
        None => exists|s: Result<(), OutputError>, b: Result<(), OutputError>|
        speaks_to_audio_output(
            s,
            es,
            synthesizer,
            voice,
            language,
            rate,
            volume,
            pitch,
            interrupt,
            before,
            after,
        ) && brailles(b, es, braille_backend) && r == merged_outcome(s, b),
    }
}

/// How a request reaches a speech backend, at its registry position.
#[derive(Debug, Clone, Copy, PartialEq, Eq, Structural)]
pub enum Route {
    /// Through the backend's own playback.
    Native(usize),
    /// Through the backend's synthesis to audio data.
    AudioData(usize),
}

/// `r` is how speech reaches the backend named `n`: its own playback when
/// it has one and audio data is not required, else its audio data, else an
/// error.
pub open spec fn is_route<B>(r: Result<Route, OutputError>, es: Seq<Registration<B>>, n: Seq<char>, needs_audio_data: bool) -> bool {
    if !has_name(es, n) {
        r matches Err(OutputError::BackendNotFound(m)) && m@ == n
    } else {
        let i = index_of(es, n);
        let c = es[i].capabilities;
        if needs_audio_data {
            if c.audio_data {
                r == Ok::<Route, OutputError>(Route::AudioData(i as usize))
            } else {
                r matches Err(OutputError::AudioDataNotSupported(m)) && m@ == n
            }
        } else if c.audio_output {
            r == Ok::<Route, OutputError>(Route::Native(i as usize))
        } else if c.audio_data {
            r == Ok::<Route, OutputError>(Route::AudioData(i as usize))
        } else {
            r matches Err(OutputError::SpeechNotSupported(m)) && m@ == n
        }
    }
}

/// `r` is the Braille backend that receives text: the named one when it
/// exists and drives a display, else the preferred one when none is named.
pub open spec fn is_braille_target<B>(r: Result<usize, OutputError>, es: Seq<Registration<B>>, backend: Option<Seq<char>>) -> bool {
    match backend {
        None => {
            &&& (r is Err <==> !has_braille(es))
            &&& (r is Err ==> r == Err::<usize, OutputError>(OutputError::NoBrailleBackends))
            &&& (r matches Ok(i) ==> is_preferred_braille(es, i as int))
        },
        Some(n) => if !has_name(es, n) {
            r matches Err(OutputError::BackendNotFound(m)) && m@ == n
        } else if !named(es, n).capabilities.braille {
            r matches Err(OutputError::BrailleNotSupported(m)) && m@ == n
        } else {
            r == Ok::<usize, OutputError>(index_of(es, n) as usize)
        },
    }
}

impl<B: Backend> Registry<B> {
    /// How speech reaches the backend named `name`.
    pub fn speech_target(&self, name: &str, needs_audio_data: bool) -> (r: Result<Route, OutputError>)
        requires
            self.wf(),
        ensures
            is_route(r, self@, name@, needs_audio_data),
            r matches Ok(Route::Native(i)) ==> i < self@.len(),
            r matches Ok(Route::AudioData(i)) ==> i < self@.len(),
    {
        match self.find(name) {
            None => Err(OutputError::into_backend_not_found(name)),
            Some(i) => {
                let c = self.entry(i).capabilities;
                if needs_audio_data {
                    if c.audio_data {
                        Ok(Route::AudioData(i))
                    } else {
                        Err(OutputError::into_audio_data_not_supported(name))
                    }
                } else if c.audio_output {
                    Ok(Route::Native(i))
                } else if c.audio_data {
                    Ok(Route::AudioData(i))
                } else {
                    Err(OutputError::into_speech_not_supported(name))
                }
            },
        }
    }

    /// The position of the Braille backend that receives text.
    pub fn braille_target(&self, backend: Option<&str>) -> (r: Result<usize, OutputError>)
        requires
            self.wf(),
        ensures
            is_braille_target(r, self@, opt_str(backend)),
            r matches Ok(i) ==> i < self@.len(),
    {
        match backend {
            Some(name) => match self.find(name) {
                None => Err(OutputError::into_backend_not_found(name)),
                Some(i) => {
                    if !self.entry(i).capabilities.braille {
                        Err(OutputError::into_braille_not_supported(name))
                    } else {
                        Ok(i)
                    }
                },
            },
            None => match self.preferred_braille_backend() {
                None => Err(OutputError::NoBrailleBackends),
                Some(i) => Ok(i),
            },
        }
    }

    fn dispatch_audio_data(
        &self,
        name: String,
        voice: Option<&str>,
        language: Option<&str>,
        rate: Option<u8>,
        volume: Option<u8>,
        pitch: Option<u8>,
        text: &str,
    ) -> (r: Result<SpeechResult, OutputError>)
        requires
            self.wf(),
        ensures
            audio_data_outcome(r, Ok(name), self@),
    {
        match self.speech_target(name.as_str(), true) {
            Err(e) => Err(e),
            Ok(Route::AudioData(i)) => SpeechSynthesizerToAudioData::speak(
                &self.entry(i).backend,
                voice,
                language,
                rate,
                volume,
                pitch,
                text,
            ),
            Ok(Route::Native(_)) => Err(OutputError::into_audio_data_not_supported(name.as_str())),
        }
    }

    /// Synthesizes `text` into a complete audio buffer with the named
    /// backend, or with the owner of the best-ranked voice that passes the
    /// voice and language filters among backends that return audio data.
    pub fn speak_to_audio_data(
        &self,
        synthesizer: Option<&str>,
        voice: Option<&str>,
        language: Option<&str>,
        rate: Option<u8>,
        volume: Option<u8>,
        pitch: Option<u8>,
        text: &str,
    ) -> (r: Result<SpeechResult, OutputError>)
        requires
            self.wf(),
        ensures
            speaks_to_audio_data(
                r,
                self@,
                opt_str(synthesizer),
                opt_str(voice),
                opt_str(language),
                rate,
                volume,
                pitch,
            ),
    {
        if let Err(e) = check_speech_parameters(rate, volume, pitch) {
            return Err(e);
        }
        let synthesizer = to_owned_opt(synthesizer);
        let voice_owned = to_owned_opt(voice);
        let language_owned = to_owned_opt(language);
        let res = self.resolve_backend(&synthesizer, &voice_owned, &language_owned, true);
        let ghost g = res;
        let r = match res {
            Err(e) => Err(e),
            Ok(n) => self.dispatch_audio_data(n, voice, language, rate, volume, pitch, text),
        };
        assert(resolves_to(g, self@, opt_text(synthesizer), opt_str(voice), opt_str(language), true)
            && audio_data_outcome(r, g, self@));
        r
    }

    fn dispatch_audio_output(
        &self,
        name: String,
        voice: Option<&str>,
        language: Option<&str>,
        rate: Option<u8>,
        volume: Option<u8>,
        pitch: Option<u8>,
        text: &str,
        interrupt: bool,
        sink: &mut Vec<SinkCommand>,
    ) -> (r: Result<(), OutputError>)
        requires
            self.wf(),
        ensures
            audio_output_outcome(r, Ok(name), self@, old(sink)@, final(sink)@, interrupt),
    {
        match self.speech_target(name.as_str(), false) {
            Err(e) => Err(e),
            Ok(Route::Native(i)) => SpeechSynthesizerToAudioOutput::speak(
                &self.entry(i).backend,
                voice,
                language,
                rate,
                volume,
                pitch,
                text,
                interrupt,
            ),
            Ok(Route::AudioData(i)) => {
                match SpeechSynthesizerToAudioData::speak(
                    &self.entry(i).backend,
                    voice,
                    language,
                    rate,
                    volume,
                    pitch,
                    text,
                ) {
                    Ok(result) => {
                        let ghost before = sink@;
                        play_audio(&result, interrupt, sink);
                        assert(playback_commands_match(
                            sink@.subrange(before.len() as int, sink@.len() as int),
                            result,
                            interrupt,
                        ));
                        assert(sink_plays(before, sink@, interrupt));
                        Ok(())
                    },
                    Err(err) => Err(err),
                }
            },
        }
    }

    /// Speaks `text` aloud. A backend with its own playback speaks itself and
    /// is handed `interrupt`; one that only returns audio data has its
    /// speech queued on the shared sink, after stopping the sink when
    /// `interrupt` is set. The commands for the sink are appended to `sink`.
    pub fn speak_to_audio_output(
        &self,
        synthesizer: Option<&str>,
        voice: Option<&str>,
        language: Option<&str>,
        rate: Option<u8>,
        volume: Option<u8>,
        pitch: Option<u8>,
        text: &str,
        interrupt: bool,
        sink: &mut Vec<SinkCommand>,
    ) -> (r: Result<(), OutputError>)
        requires
            self.wf(),
        ensures
            speaks_to_audio_output(
                r,
                self@,
                opt_str(synthesizer),
                opt_str(voice),
                opt_str(language),
                rate,
                volume,
                pitch,
                interrupt,
                old(sink)@,
                final(sink)@,
            ),
    {
        if let Err(e) = check_speech_parameters(rate, volume, pitch) {
            return Err(e);
        }
        let synthesizer = to_owned_opt(synthesizer);
        let voice_owned = to_owned_opt(voice);
        let language_owned = to_owned_opt(language);
        let res = self.resolve_backend(&synthesizer, &voice_owned, &language_owned, false);
        let ghost g = res;
        let ghost before = sink@;
        let r = match res {
            Err(e) => Err(e),
            Ok(n) => self.dispatch_audio_output(
                n,
                voice,
                language,
                rate,
                volume,
                pitch,
                text,
                interrupt,
                sink,
            ),
        };
        assert(resolves_to(g, self@, opt_text(synthesizer), opt_str(voice), opt_str(language), false)
            && audio_output_outcome(r, g, self@, before, sink@, interrupt));
        r
    }

    /// Stops speech: of the named backend, or, with none named, of the
    /// shared sink and of every backend with its own playback, ignoring
    /// their failures.
    pub fn stop_speech(&self, synthesizer: Option<&str>, sink: &mut Vec<SinkCommand>) -> (r: Result<(), OutputError>)
        requires
            self.wf(),
        ensures
            stops_speech(r, self@, opt_str(synthesizer), old(sink)@, final(sink)@),
    {
        match synthesizer {
            Some(name) => match self.speech_target(name, false) {
                Err(e) => Err(e),
                Ok(Route::Native(i)) => SpeechSynthesizerToAudioOutput::stop_speech(&self.entry(i).backend),
                Ok(Route::AudioData(_)) => {
                    sink.push(SinkCommand::Stop);
                    Ok(())
                },
            },
            None => {
                sink.push(SinkCommand::Stop);
                let natives = self.native_playback_backends();
                let mut k: usize = 0;
                while k < natives.len()
                    invariant
                        k <= natives@.len(),
                        forall|j: int| 0 <= j < natives@.len() ==> (#[trigger] natives@[j] as int) < self@.len(),
                    decreases natives@.len() - k,
                {
                    let _ignored = SpeechSynthesizerToAudioOutput::stop_speech(&self.entry(natives[k]).backend);
                    k = k + 1;
                }
                Ok(())
            },
        }
    }

    /// Writes `text` to the named Braille backend, or, with none named, to
    /// the preferred one.
    pub fn braille(&self, backend: Option<&str>, text: &str) -> (r: Result<(), OutputError>)
        requires
            self.wf(),
        ensures
            brailles(r, self@, opt_str(backend)),
    {
        match self.braille_target(backend) {
            Err(e) => Err(e),
            Ok(i) => BrailleBackend::braille(&self.entry(i).backend, text),
        }
    }

    /// Speaks `text` and writes it in Braille and merges the two outcomes.
    /// Out-of-range parameters fail before either is attempted; otherwise
    /// both are attempted whatever the first one gives.
    pub fn output(
        &self,
        synthesizer: Option<&str>,
        voice: Option<&str>,
        language: Option<&str>,
        rate: Option<u8>,
        volume: Option<u8>,
        pitch: Option<u8>,
        braille_backend: Option<&str>,
        text: &str,
        interrupt: bool,
        sink: &mut Vec<SinkCommand>,
    ) -> (r: Result<(), OutputError>)
        requires
            self.wf(),
        ensures
            outputs(
                r,
                self@,
                opt_str(synthesizer),
                opt_str(voice),
                opt_str(language),
                rate,
                volume,
                pitch,
                opt_str(braille_backend),
                interrupt,
                old(sink)@,
                final(sink)@,
            ),
    {
        if let Err(e) = check_speech_parameters(rate, volume, pitch) {
            return Err(e);
        }
        let s = self.speak_to_audio_output(
            synthesizer,
            voice,
            language,
            rate,
            volume,
            pitch,
            text,
            interrupt,
            sink,
        );
        let ghost gs = s;
        let b = self.braille(braille_backend, text);
        let ghost gb = b;
        let r = merge_output_results(s, b);
        assert(speaks_to_audio_output(
            gs,
            self@,
            opt_str(synthesizer),
            opt_str(voice),
            opt_str(language),
            rate,
            volume,
            pitch,
            interrupt,
            old(sink)@,
            sink@,
        ) && brailles(gb, self@, opt_str(braille_backend)) && r == merged_outcome(gs, gb));
        r
    }
}

} // verus!
