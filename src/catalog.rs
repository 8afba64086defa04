use vstd::prelude::*;
use crate::backends::{
    Backend,
    Capabilities,
    SpeechSynthesizerToAudioData,
    SpeechSynthesizerToAudioOutput,
};
use crate::error::OutputError;
use crate::metadata::{BrailleBackendMetadata, SpeechSynthesizerMetadata, Voice};
use crate::registry::{opt_str, to_owned_opt, Registration, Registry};
use crate::rules::{is_no_match_error, no_match_error};
use crate::selection::{lemma_ranked_head, matching, opt_text, rank_voices, ranked, voice_le};

verus! {

/// A backend takes part in a voice listing: it can speak, its name equals
/// the requested one, if any, and it returns audio data, if that is required.
pub open spec fn keeps<B>(reg: Registration<B>, backend: Option<Seq<char>>, needs_audio_data: bool) -> bool {
    &&& speaks(reg.capabilities)
    &&& (backend matches Some(n) ==> reg.name@ == n)
    &&& (needs_audio_data ==> reg.capabilities.audio_data)
}

/// The lists one after the other.
pub open spec fn concat_lists(ls: Seq<Seq<Voice>>) -> Seq<Voice>
    decreases ls.len(),
{
    if ls.len() == 0 {
        Seq::empty()
    } else {
        concat_lists(ls.drop_last()) + ls.last()
    }
}

/// `ls` holds one voice list per registration, empty for each backend that
/// does not take part (a backend whose listing failed contributes an empty
/// list too).
pub open spec fn listing_of<B>(
    ls: Seq<Seq<Voice>>,
    es: Seq<Registration<B>>,
    backend: Option<Seq<char>>,
    needs_audio_data: bool,
) -> bool {
    &&& ls.len() == es.len()
    &&& forall|i: int| 0 <= i < es.len() && !keeps(#[trigger] es[i], backend, needs_audio_data) ==> ls[i].len() == 0
}

/// `out` is a voice listing of the registry: the voices that the taking-part
/// backends returned, filtered by name and language, ranked.
pub open spec fn lists_voices<B>(
    out: Seq<Voice>,
    es: Seq<Registration<B>>,
    backend: Option<Seq<char>>,
    name: Option<Seq<char>>,
    language: Option<Seq<char>>,
    needs_audio_data: bool,
) -> bool {
    exists|ls: Seq<Seq<Voice>>|
        listing_of(ls, es, backend, needs_audio_data) && ranked(out, concat_lists(ls), name, language)
}

/// `r` is the backend chosen from the candidate voices `m`: the owner of a
/// best-ranked one, or the no-match error when there is none.
pub open spec fn picks(r: Result<String, OutputError>, m: Seq<Voice>, voice: Option<Seq<char>>, language: Option<Seq<char>>) -> bool {
    if m.len() == 0 {
        r matches Err(e) && is_no_match_error(e, voice, language)
    } else {
        r matches Ok(n) && exists|i: int|
            0 <= i < m.len() && n@ == m[i].synthesizer.name@ && forall|j: int|
                0 <= j < m.len() ==> voice_le(m[i], #[trigger] m[j])
    }
}

/// `r` is the backend that serves a request: the one named explicitly,
/// else the owner of the best-ranked voice that passes the filters.
pub open spec fn resolves_to<B>(
    r: Result<String, OutputError>,
    es: Seq<Registration<B>>,
    backend: Option<Seq<char>>,
    voice: Option<Seq<char>>,
    language: Option<Seq<char>>,
    needs_audio_data: bool,
) -> bool {
    match backend {
        Some(b) => r matches Ok(n) && n@ == b,
        None => exists|ls: Seq<Seq<Voice>>|
            listing_of(ls, es, None, needs_audio_data) && picks(
                r,
                matching(concat_lists(ls), voice, language),
                voice,
                language,
            ),
    }
}

/// The registrations whose capabilities pass `f`, in order.
pub open spec fn select<B>(es: Seq<Registration<B>>, f: spec_fn(Capabilities) -> bool) -> Seq<Registration<B>>
    decreases es.len(),
{
    if es.len() == 0 {
        Seq::empty()
    } else if f(es.last().capabilities) {
        select(es.drop_last(), f).push(es.last())
    } else {
        select(es.drop_last(), f)
    }
}

/// A backend that can speak one way or the other.
pub open spec fn speaks(c: Capabilities) -> bool {
    c.audio_data || c.audio_output
}

/// `ms` describes the speech backends `sel`, one for one.
pub open spec fn describes_speech<B>(ms: Seq<SpeechSynthesizerMetadata>, sel: Seq<Registration<B>>) -> bool {
    &&& ms.len() == sel.len()
    &&& forall|k: int|
        0 <= k < ms.len() ==> (#[trigger] ms[k]).name@ == sel[k].name@
            && ms[k].supports_speaking_to_audio_data == sel[k].capabilities.audio_data
}

/// `ms` describes the Braille backends `sel`, one for one.
pub open spec fn describes_braille<B>(ms: Seq<BrailleBackendMetadata>, sel: Seq<Registration<B>>) -> bool {
    &&& ms.len() == sel.len()
    &&& forall|k: int|
        0 <= k < ms.len() ==> (#[trigger] ms[k]).name@ == sel[k].name@ && ms[k].priority
            == sel[k].braille_priority
}

/// `i` is a Braille backend that no other Braille backend outranks.
pub open spec fn is_preferred_braille<B>(es: Seq<Registration<B>>, i: int) -> bool {
    &&& 0 <= i < es.len()
    &&& es[i].capabilities.braille
    &&& forall|j: int|
        0 <= j < es.len() && (#[trigger] es[j]).capabilities.braille ==> es[i].braille_priority
            <= es[j].braille_priority
}

/// Some registered backend drives a Braille display.
pub open spec fn has_braille<B>(es: Seq<Registration<B>>) -> bool {
    exists|i: int| 0 <= i < es.len() && (#[trigger] es[i]).capabilities.braille
}

/// The positions of the registrations with their own playback, in order.
pub open spec fn native_positions<B>(es: Seq<Registration<B>>) -> Seq<usize>
    decreases es.len(),
{
    if es.len() == 0 {
        Seq::empty()
    } else if es.last().capabilities.audio_output {
        native_positions(es.drop_last()).push((es.len() - 1) as usize)
    } else {
        native_positions(es.drop_last())
    }
}

/// Each listed position holds a backend with its own playback.
pub proof fn lemma_native_positions<B>(es: Seq<Registration<B>>)
    requires
        es.len() <= usize::MAX,
    ensures
        forall|k: int|
            0 <= k < native_positions(es).len() ==> (#[trigger] native_positions(es)[k] as int) < es.len()
                && es[native_positions(es)[k] as int].capabilities.audio_output,
    decreases es.len(),
{
    if es.len() > 0 {
        lemma_native_positions(es.drop_last());
        let pre = native_positions(es.drop_last());
        assert forall|k: int| 0 <= k < pre.len() implies (pre[k] as int) < es.len()
            && es[pre[k] as int].capabilities.audio_output by {
            assert(es.drop_last()[pre[k] as int] == es[pre[k] as int]);
        }
        if es.last().capabilities.audio_output {
            let p = native_positions(es);
            assert(p == pre.push((es.len() - 1) as usize));
            assert forall|k: int| 0 <= k < p.len() implies (#[trigger] p[k] as int) < es.len()
                && es[p[k] as int].capabilities.audio_output by {
                if k < pre.len() {
                    assert(p[k] == pre[k]);
                }
            }
        }
    }
}

/// The backend that owns a best-ranked voice among those that pass the
/// voice and language filters, or the error that names what found nothing.
pub fn pick_backend(voices: Vec<Voice>, voice: &Option<String>, language: &Option<String>) -> (r: Result<String, OutputError>)
    ensures
        picks(
            r,
            matching(voices@, opt_text(*voice), opt_text(*language)),
            opt_text(*voice),
            opt_text(*language),
        ),
{
    let ghost all = voices@;
    let out = rank_voices(voices, voice, language);
    let ghost m = matching(all, opt_text(*voice), opt_text(*language));
    proof {
        lemma_ranked_head(out@, all, opt_text(*voice), opt_text(*language));
    }
    if out.len() == 0 {
        Err(no_match_error(voice, language))
    } else {
        let r = Ok(out[0].synthesizer.name.clone());
        proof {
            let i = choose|i: int| 0 <= i < m.len() && m[i] == out@[0];
            assert(forall|j: int| 0 <= j < m.len() ==> voice_le(m[i], #[trigger] m[j]));
        }
        r
    }
}

impl<B: Backend> Registry<B> {
    /// Asks each taking-part backend for its voices, one list per
    /// registration; a failed listing counts as no voices.
    fn gather_voices(&self, backend: &Option<String>, needs_audio_data: bool) -> (r: (Vec<Voice>, Ghost<Seq<Seq<Voice>>>))
        ensures
            listing_of(r.1@, self@, opt_text(*backend), needs_audio_data),
            r.0@ == concat_lists(r.1@),
    {
        let mut all: Vec<Voice> = Vec::new();
        let ghost mut ls: Seq<Seq<Voice>> = Seq::empty();
        let n = self.len();
        let mut i: usize = 0;
        while i < n
            invariant
                n == self@.len(),
                i <= n,
                ls.len() == i,
                forall|k: int| 0 <= k < i && !keeps(#[trigger] self@[k], opt_text(*backend), needs_audio_data) ==> ls[k].len() == 0,
                all@ == concat_lists(ls),
            decreases n - i,
        {
            let e = self.entry(i);
            let name_ok = match backend {
                Some(b) => e.name == *b,
                None => true,
            };
            let speaking = e.capabilities.audio_data || e.capabilities.audio_output;
            let keep = speaking && name_ok && (!needs_audio_data || e.capabilities.audio_data);
            let ghost prev = ls;
            let ghost got: Seq<Voice> = Seq::empty();
            if keep {
                match Backend::list_voices(&e.backend) {
                    Ok(vs) => {
                        let mut vs = vs;
                        proof {
                            got = vs@;
                        }
                        all.append(&mut vs);
                    },
                    Err(_) => {},
                }
            }
            proof {
                ls = prev.push(got);
                assert(ls.drop_last() =~= prev);
            }
            i = i + 1;
        }
        (all, Ghost(ls))
    }

    /// The voices of the registered backends that pass the filters, ranked
    /// by priority, then name. A backend whose listing fails contributes no
    /// voices.
    pub fn list_voices(
        &self,
        synthesizer: Option<&str>,
        name: Option<&str>,
        language: Option<&str>,
        needs_audio_data: bool,
    ) -> (r: Result<Vec<Voice>, OutputError>)
        ensures
            r matches Ok(vs) && lists_voices(
                vs@,
                self@,
                opt_str(synthesizer),
                opt_str(name),
                opt_str(language),
                needs_audio_data,
            ),
    {
        let synthesizer = to_owned_opt(synthesizer);
        let name = to_owned_opt(name);
        let language = to_owned_opt(language);
        let (all, Ghost(ls)) = self.gather_voices(&synthesizer, needs_audio_data);
        let out = rank_voices(all, &name, &language);
        assert(listing_of(ls, self@, opt_text(synthesizer), needs_audio_data) && ranked(
            out@,
            concat_lists(ls),
            opt_text(name),
            opt_text(language),
        ));
        Ok(out)
    }

    /// The name of the backend that serves a request: the one named, else
    /// the owner of the best-ranked voice that passes the voice and language
    /// filters.
    pub fn resolve_backend(
        &self,
        synthesizer: &Option<String>,
        voice: &Option<String>,
        language: &Option<String>,
        needs_audio_data: bool,
    ) -> (r: Result<String, OutputError>)
        ensures
            resolves_to(
                r,
                self@,
                opt_text(*synthesizer),
                opt_text(*voice),
                opt_text(*language),
                needs_audio_data,
            ),
    {
        match synthesizer {
            Some(s) => Ok(s.clone()),
            None => {
                let (all, Ghost(ls)) = self.gather_voices(&None, needs_audio_data);
                let r = pick_backend(all, voice, language);
                assert(listing_of(ls, self@, None, needs_audio_data) && picks(
                    r,
                    matching(concat_lists(ls), opt_text(*voice), opt_text(*language)),
                    opt_text(*voice),
                    opt_text(*language),
                ));
                r
            },
        }
    }

    /// The positions of the backends with their own playback, in order.
    pub fn native_playback_backends(&self) -> (r: Vec<usize>)
        ensures
            r@ == native_positions(self@),
            forall|k: int|
                0 <= k < r@.len() ==> (#[trigger] r@[k] as int) < self@.len()
                    && self@[r@[k] as int].capabilities.audio_output,
    {
        let n = self.len();
        proof {
            lemma_native_positions(self@);
        }
        let mut out: Vec<usize> = Vec::new();
        let mut i: usize = 0;
        while i < n
            invariant
                n == self@.len(),
                i <= n,
                out@ == native_positions(self@.subrange(0, i as int)),
            decreases n - i,
        {
            proof {
                assert(self@.subrange(0, i + 1).drop_last() =~= self@.subrange(0, i as int));
                assert(self@.subrange(0, i + 1).last() == self@[i as int]);
            }
            if self.entry(i).capabilities.audio_output {
                out.push(i);
            }
            i = i + 1;
        }
        assert(self@.subrange(0, n as int) =~= self@);
        out
    }

    /// Metadata of every backend that can speak.
    pub fn list_speech_synthesizers(&self) -> (r: Result<Vec<SpeechSynthesizerMetadata>, OutputError>)
        ensures
            r matches Ok(ms) && describes_speech(ms@, select(self@, |c: Capabilities| speaks(c))),
    {
        Ok(self.speech_metadata(false))
    }

    /// Metadata of every backend that can return audio data.
    pub fn list_speech_synthesizers_supporting_audio_data(&self) -> (r: Result<Vec<SpeechSynthesizerMetadata>, OutputError>)
        ensures
            r matches Ok(ms) && describes_speech(ms@, select(self@, |c: Capabilities| c.audio_data)),
    {
        Ok(self.speech_metadata(true))
    }

    fn speech_metadata(&self, needs_audio_data: bool) -> (r: Vec<SpeechSynthesizerMetadata>)
        ensures
            needs_audio_data ==> describes_speech(r@, select(self@, |c: Capabilities| c.audio_data)),
            !needs_audio_data ==> describes_speech(r@, select(self@, |c: Capabilities| speaks(c))),
    {
        let ghost f = if needs_audio_data {
            |c: Capabilities| c.audio_data
        } else {
            |c: Capabilities| speaks(c)
        };
        let mut out: Vec<SpeechSynthesizerMetadata> = Vec::new();
        let n = self.len();
        let mut i: usize = 0;
        while i < n
            invariant
                n == self@.len(),
                i <= n,
                f == (if needs_audio_data {
                    |c: Capabilities| c.audio_data
                } else {
                    |c: Capabilities| speaks(c)
                }),
                describes_speech(out@, select(self@.subrange(0, i as int), f)),
            decreases n - i,
        {
            let e = self.entry(i);
            let c = e.capabilities;
            let wanted = if needs_audio_data {
                c.audio_data
            } else {
                c.audio_data || c.audio_output
            };
            proof {
                assert(self@.subrange(0, i + 1).drop_last() =~= self@.subrange(0, i as int));
                assert(self@.subrange(0, i + 1).last() == *e);
            }
            if wanted {
                let params = if c.audio_data {
                    SpeechSynthesizerToAudioData::supports_speech_parameters(&e.backend)
                } else {
                    SpeechSynthesizerToAudioOutput::supports_speech_parameters(&e.backend)
                };
                out.push(
                    SpeechSynthesizerMetadata {
                        name: e.name.clone(),
                        supports_speaking_to_audio_data: c.audio_data,
                        supports_speech_parameters: params,
                    },
                );
            }
            i = i + 1;
        }
        assert(self@.subrange(0, n as int) =~= self@);
        out
    }

    /// Metadata of every backend that drives a Braille display.
    pub fn list_braille_backends(&self) -> (r: Result<Vec<BrailleBackendMetadata>, OutputError>)
        ensures
            r matches Ok(ms) && describes_braille(ms@, select(self@, |c: Capabilities| c.braille)),
    {
        let ghost f = |c: Capabilities| c.braille;
        let mut out: Vec<BrailleBackendMetadata> = Vec::new();
        let n = self.len();
        let mut i: usize = 0;
        while i < n
            invariant
                n == self@.len(),
                i <= n,
                f == (|c: Capabilities| c.braille),
                describes_braille(out@, select(self@.subrange(0, i as int), f)),
            decreases n - i,
        {
            let e = self.entry(i);
            proof {
                assert(self@.subrange(0, i + 1).drop_last() =~= self@.subrange(0, i as int));
                assert(self@.subrange(0, i + 1).last() == *e);
            }
            if e.capabilities.braille {
                out.push(BrailleBackendMetadata { name: e.name.clone(), priority: e.braille_priority });
            }
            i = i + 1;
        }
        assert(self@.subrange(0, n as int) =~= self@);
        Ok(out)
    }

    /// The Braille backend to use when none is named: the lowest priority
    /// number wins, the earliest registered among equals.
    pub fn preferred_braille_backend(&self) -> (r: Option<usize>)
        ensures
            r is None <==> !has_braille(self@),
            r matches Some(i) ==> is_preferred_braille(self@, i as int),
    {
        let mut best: Option<usize> = None;
        let n = self.len();
        let mut i: usize = 0;
        while i < n
            invariant
                n == self@.len(),
                i <= n,
                best is None <==> forall|k: int| 0 <= k < i ==> !(#[trigger] self@[k]).capabilities.braille,
                best matches Some(b) ==> b < i && self@[b as int].capabilities.braille && forall|k: int|
                    0 <= k < i && (#[trigger] self@[k]).capabilities.braille ==> self@[b as int].braille_priority
                        <= self@[k].braille_priority,
            decreases n - i,
        {
            let e = self.entry(i);
            if e.capabilities.braille {
                match best {
                    None => {
                        best = Some(i);
                    },
                    Some(b) => {
                        if e.braille_priority < self.entry(b).braille_priority {
                            best = Some(i);
                        }
                    },
                }
            }
            i = i + 1;
        }
        best
    }
}

} // verus!
