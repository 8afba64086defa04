use vstd::prelude::*;
use crate::audio::{SinkCommand, SpeechResult};
use crate::catalog::{concat_lists, has_braille, keeps, lists_voices, listing_of, resolves_to, speaks};
use crate::dispatch::{
    is_route,
    Route,
    brailles,
    outputs,
    sink_plays,
    speaks_to_audio_data,
    speaks_to_audio_output,
    stops_speech,
};
use crate::error::OutputError;
use crate::metadata::Voice;
use crate::registry::{has_name, index_of, insert_all, lemma_insert_all_keeps, named, oks, Registration};
use crate::rules::{merged_outcome, parameter_error};
use crate::selection::{matching, text_le};

verus! {

/// A speech parameter given and above 100.
pub open spec fn above_range(p: Option<u8>) -> bool {
    p matches Some(x) && x > 100
}

/// A rate, volume or pitch above 100 makes every speaking call fail with the
/// error that names the first such parameter (rate, then volume, then
/// pitch), before any backend is resolved and with the sink untouched.
pub proof fn law_parameters_out_of_range<B>(
    es: Seq<Registration<B>>,
    synthesizer: Option<Seq<char>>,
    voice: Option<Seq<char>>,
    language: Option<Seq<char>>,
    rate: Option<u8>,
    volume: Option<u8>,
    pitch: Option<u8>,
    braille_backend: Option<Seq<char>>,
    interrupt: bool,
    before: Seq<SinkCommand>,
    after_speak: Seq<SinkCommand>,
    after_output: Seq<SinkCommand>,
    r_data: Result<SpeechResult, OutputError>,
    r_speak: Result<(), OutputError>,
    r_output: Result<(), OutputError>,
)
    requires
        above_range(rate) || above_range(volume) || above_range(pitch),
        speaks_to_audio_data(r_data, es, synthesizer, voice, language, rate, volume, pitch),
        speaks_to_audio_output(
            r_speak,
            es,
            synthesizer,
            voice,
            language,
            rate,
            volume,
            pitch,
            interrupt,
            before,
            after_speak,
        ),
        outputs(
            r_output,
            es,
            synthesizer,
            voice,
            language,
            rate,
            volume,
            pitch,
            braille_backend,
            interrupt,
            before,
            after_output,
        ),
    ensures
        above_range(rate) ==> parameter_error(rate, volume, pitch) == Some(
            OutputError::InvalidRate(rate.unwrap()),
        ),
        !above_range(rate) && above_range(volume) ==> parameter_error(rate, volume, pitch) == Some(
            OutputError::InvalidVolume(volume.unwrap()),
        ),
        !above_range(rate) && !above_range(volume) && above_range(pitch) ==> parameter_error(
            rate,
            volume,
            pitch,
        ) == Some(OutputError::InvalidPitch(pitch.unwrap())),
        parameter_error(rate, volume, pitch) is Some,
        r_data == Err::<SpeechResult, OutputError>(parameter_error(rate, volume, pitch).unwrap()),
        r_speak == Err::<(), OutputError>(parameter_error(rate, volume, pitch).unwrap()),
        r_output == Err::<(), OutputError>(parameter_error(rate, volume, pitch).unwrap()),
        after_speak == before,
        after_output == before,
{
}

/// Listed voices come in ascending order of priority, then of name.
pub proof fn law_listed_voices_sorted<B>(
    out: Seq<Voice>,
    es: Seq<Registration<B>>,
    backend: Option<Seq<char>>,
    name: Option<Seq<char>>,
    language: Option<Seq<char>>,
    needs_audio_data: bool,
)
    requires
        lists_voices(out, es, backend, name, language, needs_audio_data),
    ensures
        forall|i: int, j: int|
            0 <= i < j < out.len() ==> (#[trigger] out[i]).priority < (#[trigger] out[j]).priority || (
            out[i].priority == out[j].priority && text_le(out[i].name@, out[j].name@)),
{
}

/// A backend name that is not registered fails every call that names it
/// with that name as not found, whatever the voice and language, and leaves
/// the sink untouched.
pub proof fn law_unknown_backend<B>(
    es: Seq<Registration<B>>,
    backend: Seq<char>,
    voice: Option<Seq<char>>,
    language: Option<Seq<char>>,
    rate: Option<u8>,
    volume: Option<u8>,
    pitch: Option<u8>,
    interrupt: bool,
    before: Seq<SinkCommand>,
    after_speak: Seq<SinkCommand>,
    after_stop: Seq<SinkCommand>,
    r_data: Result<SpeechResult, OutputError>,
    r_speak: Result<(), OutputError>,
    r_stop: Result<(), OutputError>,
    r_braille: Result<(), OutputError>,
)
    requires
        !has_name(es, backend),
        parameter_error(rate, volume, pitch) is None,
        speaks_to_audio_data(r_data, es, Some(backend), voice, language, rate, volume, pitch),
        speaks_to_audio_output(
            r_speak,
            es,
            Some(backend),
            voice,
            language,
            rate,
            volume,
            pitch,
            interrupt,
            before,
            after_speak,
        ),
        stops_speech(r_stop, es, Some(backend), before, after_stop),
        brailles(r_braille, es, Some(backend)),
    ensures
        r_data matches Err(OutputError::BackendNotFound(m)) && m@ == backend,
        r_speak matches Err(OutputError::BackendNotFound(m)) && m@ == backend,
        r_stop matches Err(OutputError::BackendNotFound(m)) && m@ == backend,
        r_braille matches Err(OutputError::BackendNotFound(m)) && m@ == backend,
        after_speak == before,
        after_stop == before,
{
    let rd = choose|res: Result<String, OutputError>|
        resolves_to(res, es, Some(backend), voice, language, true) && crate::dispatch::audio_data_outcome(
            r_data,
            res,
            es,
        );
    let ro = choose|res: Result<String, OutputError>|
        resolves_to(res, es, Some(backend), voice, language, false)
            && crate::dispatch::audio_output_outcome(r_speak, res, es, before, after_speak, interrupt);
    assert(rd matches Ok(n) && n@ == backend);
    assert(ro matches Ok(n) && n@ == backend);
}

/// Every backend that was built is registered under the name it reported,
/// and it is the backend registered under that name unless a later built
/// backend reported the same name.
pub proof fn law_built_backends_registered<B>(
    candidates: Seq<Result<B, OutputError>>,
    regs: Seq<Registration<B>>,
    r: Seq<Registration<B>>,
    k: int,
)
    requires
        regs.len() == oks(candidates).len(),
        forall|j: int| 0 <= j < regs.len() ==> (#[trigger] regs[j]).backend == oks(candidates)[j],
        r == insert_all(Seq::empty(), regs),
        0 <= k < oks(candidates).len(),
    ensures
        has_name(r, regs[k].name@),
        (forall|l: int| k < l < regs.len() ==> (#[trigger] regs[l]).name@ != regs[k].name@) ==> named(
            r,
            regs[k].name@,
        ).backend == oks(candidates)[k],
{
    lemma_insert_all_keeps(Seq::empty(), regs, k);
}

/// Voice lists that are all empty hold no voice together.
pub proof fn lemma_concat_empty(ls: Seq<Seq<Voice>>)
    requires
        forall|i: int| 0 <= i < ls.len() ==> (#[trigger] ls[i]).len() == 0,
    ensures
        concat_lists(ls) =~= Seq::<Voice>::empty(),
    decreases ls.len(),
{
    if ls.len() > 0 {
        assert forall|i: int| 0 <= i < ls.drop_last().len() implies (#[trigger] ls.drop_last()[i]).len()
            == 0 by {
            assert(ls.drop_last()[i] == ls[i]);
        }
        lemma_concat_empty(ls.drop_last());
        assert(ls.last().len() == 0);
    }
}

/// With no speech backend registered (in particular with none at all),
/// resolving without a backend, voice or language finds no voices.
pub proof fn law_empty_registry_has_no_voices<B>(
    r: Result<String, OutputError>,
    es: Seq<Registration<B>>,
    needs_audio_data: bool,
)
    requires
        forall|i: int| 0 <= i < es.len() ==> !speaks((#[trigger] es[i]).capabilities),
        resolves_to(r, es, None, None, None, needs_audio_data),
    ensures
        r == Err::<String, OutputError>(OutputError::NoVoices),
{
    let ls = choose|ls: Seq<Seq<Voice>>|
        listing_of(ls, es, None, needs_audio_data) && crate::catalog::picks(
            r,
            matching(concat_lists(ls), None, None),
            None,
            None,
        );
    assert forall|i: int| 0 <= i < ls.len() implies (#[trigger] ls[i]).len() == 0 by {
        assert(!keeps(es[i], None, needs_audio_data));
    }
    lemma_concat_empty(ls);
    assert(matching(concat_lists(ls), None, None) =~= Seq::<Voice>::empty());
}

/// Speaking through a backend that only returns audio data goes through its
/// synthesis to audio data, never its own playback, and queues the
/// synthesized utterance on the shared sink when synthesis succeeds, and
/// leaves the sink untouched when it fails.
pub proof fn law_audio_data_backend_plays_through_sink<B>(
    es: Seq<Registration<B>>,
    backend: Seq<char>,
    voice: Option<Seq<char>>,
    language: Option<Seq<char>>,
    rate: Option<u8>,
    volume: Option<u8>,
    pitch: Option<u8>,
    interrupt: bool,
    before: Seq<SinkCommand>,
    after: Seq<SinkCommand>,
    r: Result<(), OutputError>,
    route: Result<Route, OutputError>,
)
    requires
        is_route(route, es, backend, false),
        has_name(es, backend),
        named(es, backend).capabilities.audio_data,
        !named(es, backend).capabilities.audio_output,
        parameter_error(rate, volume, pitch) is None,
        speaks_to_audio_output(
            r,
            es,
            Some(backend),
            voice,
            language,
            rate,
            volume,
            pitch,
            interrupt,
            before,
            after,
        ),
    ensures
        route == Ok::<Route, OutputError>(Route::AudioData(index_of(es, backend) as usize)),
        r is Ok ==> sink_plays(before, after, interrupt),
        r is Err ==> after == before,
{
    let res = choose|res: Result<String, OutputError>|
        resolves_to(res, es, Some(backend), voice, language, false)
            && crate::dispatch::audio_output_outcome(r, res, es, before, after, interrupt);
    assert(res matches Ok(n) && n@ == backend);
}

/// Stopping with no backend named always succeeds and stops the shared sink.
pub proof fn law_stop_all_succeeds<B>(
    r: Result<(), OutputError>,
    es: Seq<Registration<B>>,
    before: Seq<SinkCommand>,
    after: Seq<SinkCommand>,
)
    requires
        stops_speech(r, es, None, before, after),
    ensures
        r == Ok::<(), OutputError>(()),
        after == before.push(SinkCommand::Stop),
{
}

/// With no speech and no Braille backend registered (in particular with none
/// at all), combined output with no backend, voice or language named and
/// parameters in range reports that there are no backends at all.
pub proof fn law_empty_registry_has_no_backends<B>(
    r: Result<(), OutputError>,
    es: Seq<Registration<B>>,
    rate: Option<u8>,
    volume: Option<u8>,
    pitch: Option<u8>,
    interrupt: bool,
    before: Seq<SinkCommand>,
    after: Seq<SinkCommand>,
)
    requires
        forall|i: int|
            0 <= i < es.len() ==> !speaks((#[trigger] es[i]).capabilities) && !es[i].capabilities.braille,
        parameter_error(rate, volume, pitch) is None,
        outputs(r, es, None, None, None, rate, volume, pitch, None, interrupt, before, after),
    ensures
        r == Err::<(), OutputError>(OutputError::NoBackends),
{
    let (s, b) = choose|s: Result<(), OutputError>, b: Result<(), OutputError>|
        speaks_to_audio_output(s, es, None, None, None, rate, volume, pitch, interrupt, before, after)
            && brailles(b, es, None) && r == merged_outcome(s, b);
    let res = choose|res: Result<String, OutputError>|
        resolves_to(res, es, None, None, None, false) && crate::dispatch::audio_output_outcome(
            s,
            res,
            es,
            before,
            after,
            interrupt,
        );
    law_empty_registry_has_no_voices(res, es, false);
    if has_braille(es) {
        let i = choose|i: int| 0 <= i < es.len() && (#[trigger] es[i]).capabilities.braille;
        assert(!es[i].capabilities.braille);
    }
}

} // verus!
