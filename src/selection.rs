use vstd::prelude::*;
use vstd::string::*;
use crate::metadata::Voice;

verus! {

broadcast use vstd::seq_lib::group_to_multiset_ensures;

/// The text of an optional string argument.
pub open spec fn opt_text(s: Option<String>) -> Option<Seq<char>> {
    match s {
        Some(t) => Some(t@),
        None => None,
    }
}

/// A voice passes the name and language filters: a given name must equal the
/// voice's name, and a given language must be one of the voice's languages
/// unless the voice lists none.
pub open spec fn voice_matches(v: Voice, name: Option<Seq<char>>, language: Option<Seq<char>>) -> bool {
    &&& (name matches Some(n) ==> v.name@ == n)
    &&& (language matches Some(l) ==> v.languages@.len() == 0 || exists|i: int|
        0 <= i < v.languages@.len() && #[trigger] v.languages@[i]@ == l)
}

/// The voices of `vs` that pass the filters, in their original order.
pub open spec fn matching(vs: Seq<Voice>, name: Option<Seq<char>>, language: Option<Seq<char>>) -> Seq<Voice>
    decreases vs.len(),
{
    if vs.len() == 0 {
        Seq::empty()
    } else if voice_matches(vs.last(), name, language) {
        matching(vs.drop_last(), name, language).push(vs.last())
    } else {
        matching(vs.drop_last(), name, language)
    }
}

/// Lexicographic order on the characters of `a` and `b` from position `i` on.
pub open spec fn text_le_from(a: Seq<char>, b: Seq<char>, i: int) -> bool
    decreases a.len() - i,
{
    if i < 0 || i >= a.len() {
        true
    } else if i >= b.len() {
        false
    } else if (a[i] as u32) != (b[i] as u32) {
        (a[i] as u32) < (b[i] as u32)
    } else {
        text_le_from(a, b, i + 1)
    }
}

/// Lexicographic order on text, by code point, as `String`'s `Ord`.
pub open spec fn text_le(a: Seq<char>, b: Seq<char>) -> bool {
    text_le_from(a, b, 0)
}

/// The ranking key of voices: priority first, then name.
pub open spec fn voice_le(a: Voice, b: Voice) -> bool {
    a.priority < b.priority || (a.priority == b.priority && text_le(a.name@, b.name@))
}

/// Every voice comes no later than the voices after it.
pub open spec fn voices_sorted(vs: Seq<Voice>) -> bool {
    forall|i: int, j: int| 0 <= i < j < vs.len() ==> voice_le(#[trigger] vs[i], #[trigger] vs[j])
}

/// `out` is the filtered part of `all`, ranked.
pub open spec fn ranked(out: Seq<Voice>, all: Seq<Voice>, name: Option<Seq<char>>, language: Option<Seq<char>>) -> bool {
    &&& voices_sorted(out)
    &&& out.to_multiset() == matching(all, name, language).to_multiset()
}

proof fn lemma_text_le_from_total(a: Seq<char>, b: Seq<char>, i: int)
    requires
        0 <= i,
    ensures
        text_le_from(a, b, i) || text_le_from(b, a, i),
    decreases a.len() - i,
{
    if i < a.len() && i < b.len() && (a[i] as u32) == (b[i] as u32) {
        lemma_text_le_from_total(a, b, i + 1);
    }
}

proof fn lemma_text_le_from_trans(a: Seq<char>, b: Seq<char>, c: Seq<char>, i: int)
    requires
        0 <= i,
        text_le_from(a, b, i),
        text_le_from(b, c, i),
    ensures
        text_le_from(a, c, i),
    decreases a.len() - i,
{
    if i < a.len() && i < b.len() && i < c.len() && (a[i] as u32) == (b[i] as u32) && (b[i] as u32) == (c[i] as u32) {
        lemma_text_le_from_trans(a, b, c, i + 1);
    }
}

proof fn lemma_text_le_from_refl(a: Seq<char>, i: int)
    requires
        0 <= i,
    ensures
        text_le_from(a, a, i),
    decreases a.len() - i,
{
    if i < a.len() {
        lemma_text_le_from_refl(a, i + 1);
    }
}

/// Every voice ranks no later than itself.
pub proof fn lemma_voice_le_refl(a: Voice)
    ensures
        voice_le(a, a),
{
    lemma_text_le_from_refl(a.name@, 0);
}

/// The ranking key orders any two voices.
pub proof fn lemma_voice_le_total(a: Voice, b: Voice)
    ensures
        voice_le(a, b) || voice_le(b, a),
{
    lemma_text_le_from_total(a.name@, b.name@, 0);
}

/// The ranking key is transitive.
pub proof fn lemma_voice_le_trans(a: Voice, b: Voice, c: Voice)
    requires
        voice_le(a, b),
        voice_le(b, c),
    ensures
        voice_le(a, c),
{
    if a.priority == b.priority && b.priority == c.priority {
        lemma_text_le_from_trans(a.name@, b.name@, c.name@, 0);
    }
}

/// A ranked list is as long as the filtered voices, and its head is one of
/// them that ranks no later than any other.
pub proof fn lemma_ranked_head(out: Seq<Voice>, all: Seq<Voice>, name: Option<Seq<char>>, language: Option<Seq<char>>)
    requires
        ranked(out, all, name, language),
    ensures
        out.len() == matching(all, name, language).len(),
        out.len() > 0 ==> matching(all, name, language).contains(out[0]),
        out.len() > 0 ==> forall|j: int|
            0 <= j < matching(all, name, language).len() ==> voice_le(
                out[0],
                #[trigger] matching(all, name, language)[j],
            ),
{
    let m = matching(all, name, language);
    assert(out.to_multiset().len() == out.len());
    assert(m.to_multiset().len() == m.len());
    if out.len() > 0 {
        assert(out.contains(out[0]));
        assert(out.to_multiset().count(out[0]) > 0);
        assert forall|j: int| 0 <= j < m.len() implies voice_le(out[0], #[trigger] m[j]) by {
            assert(m.contains(m[j]));
            assert(m.to_multiset().count(m[j]) > 0);
            assert(out.contains(m[j]));
            let k = choose|k: int| 0 <= k < out.len() && out[k] == m[j];
            if k == 0 {
                lemma_voice_le_refl(out[0]);
            } else {
                assert(voice_le(out[0], out[k]));
            }
        }
    }
}

/// Compares two texts lexicographically by code point.
pub fn text_le_exec(a: &String, b: &String) -> (r: bool)
    ensures
        r == text_le(a@, b@),
{
    let sa = a.as_str();
    let sb = b.as_str();
    let la = sa.unicode_len();
    let lb = sb.unicode_len();
    let mut i: usize = 0;
    while i < la && i < lb
        invariant
            la == a@.len(),
            lb == b@.len(),
            sa@ == a@,
            sb@ == b@,
            i <= la,
            text_le(a@, b@) == text_le_from(a@, b@, i as int),
        decreases la - i,
    {
        let ca = sa.get_char(i);
        let cb = sb.get_char(i);
        if (ca as u32) != (cb as u32) {
            return (ca as u32) < (cb as u32);
        }
        i = i + 1;
    }
    i >= la
}

/// Whether `a` ranks no later than `b`.
pub fn voice_le_exec(a: &Voice, b: &Voice) -> (r: bool)
    ensures
        r == voice_le(*a, *b),
{
    a.priority < b.priority || (a.priority == b.priority && text_le_exec(&a.name, &b.name))
}

/// Whether a voice passes the name and language filters.
pub fn voice_matches_exec(v: &Voice, name: &Option<String>, language: &Option<String>) -> (r: bool)
    ensures
        r == voice_matches(*v, opt_text(*name), opt_text(*language)),
{
    if let Some(n) = name {
        if !(v.name == *n) {
            return false;
        }
    }
    match language {
        None => true,
        Some(l) => {
            if v.languages.len() == 0 {
                return true;
            }
            let mut i: usize = 0;
            while i < v.languages.len()
                invariant
                    i <= v.languages@.len(),
                    forall|j: int| 0 <= j < i ==> v.languages@[j]@ != l@,
                    opt_text(*name) matches Some(n) ==> v.name@ == n,
                    opt_text(*language) == Some(l@),
                decreases v.languages@.len() - i,
            {
                if v.languages[i] == *l {
                    assert(v.languages@[i as int]@ == l@);
                    return true;
                }
                i = i + 1;
            }
            false
        },
    }
}

/// Keeps the voices that pass the name and language filters, in order.
pub fn filter_voices(voices: Vec<Voice>, name: &Option<String>, language: &Option<String>) -> (r: Vec<Voice>)
    ensures
        r@ == matching(voices@, opt_text(*name), opt_text(*language)),
{
    let ghost all = voices@;
    let mut rest = voices;
    let mut out: Vec<Voice> = Vec::new();
    while rest.len() > 0
        invariant
            all == all.subrange(0, all.len() - rest@.len()) + rest@,
            rest@.len() <= all.len(),
            out@ == matching(all.subrange(0, all.len() - rest@.len()), opt_text(*name), opt_text(*language)),
        decreases rest@.len(),
    {
        let ghost done = all.subrange(0, all.len() - rest@.len());
        let v = rest.remove(0);
        proof {
            let next = all.subrange(0, all.len() - rest@.len());
            assert(next.drop_last() =~= done);
            assert(next.last() == v);
            assert(all =~= next + rest@);
        }
        if voice_matches_exec(&v, name, language) {
            out.push(v);
        }
    }
    proof {
        assert(all.subrange(0, all.len() as int) =~= all);
    }
    out
}

/// Orders voices by priority, then name.
pub fn sort_voices(voices: Vec<Voice>) -> (r: Vec<Voice>)
    ensures
        voices_sorted(r@),
        r@.to_multiset() == voices@.to_multiset(),
{
    let ghost all = voices@;
    let mut rest = voices;
    let mut out: Vec<Voice> = Vec::new();
    while rest.len() > 0
        invariant
            voices_sorted(out@),
            out@.to_multiset().add(rest@.to_multiset()) == all.to_multiset(),
        decreases rest@.len(),
    {
        let ghost before_rest = rest@;
        let v = rest.pop().unwrap();
        proof {
            assert(before_rest =~= rest@.push(v));
        }
        let mut p: usize = 0;
        while p < out.len() && voice_le_exec(&out[p], &v)
            invariant
                p <= out@.len(),
                forall|k: int| 0 <= k < p ==> voice_le(#[trigger] out@[k], v),
            decreases out@.len() - p,
        {
            p = p + 1;
        }
        let ghost before = out@;
        out.insert(p, v);
        proof {
            assert(out@ == before.insert(p as int, v));
            if p < before.len() {
                lemma_voice_le_total(before[p as int], v);
            }
            assert forall|i: int, j: int| 0 <= i < j < out@.len() implies voice_le(
                #[trigger] out@[i],
                #[trigger] out@[j],
            ) by {
                if j < p {
                    assert(out@[i] == before[i] && out@[j] == before[j]);
                } else if j == p {
                    assert(out@[i] == before[i]);
                } else if i == p {
                    assert(out@[j] == before[j - 1]);
                    if j - 1 > p {
                        lemma_voice_le_trans(v, before[p as int], before[j - 1]);
                    }
                } else if i < p {
                    assert(out@[i] == before[i] && out@[j] == before[j - 1]);
                } else {
                    assert(out@[i] == before[i - 1] && out@[j] == before[j - 1]);
                }
            }
        }
    }
    out
}

/// The voices that pass the filters, ranked by priority, then name.
pub fn rank_voices(voices: Vec<Voice>, name: &Option<String>, language: &Option<String>) -> (r: Vec<Voice>)
    ensures
        ranked(r@, voices@, opt_text(*name), opt_text(*language)),
{
    let kept = filter_voices(voices, name, language);
    sort_voices(kept)
}

} // verus!
