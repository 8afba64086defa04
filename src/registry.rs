use vstd::prelude::*;
use vstd::string::*;
use crate::backends::{Backend, BrailleBackend, Capabilities};
use crate::error::OutputError;
use crate::selection::opt_text;

verus! {

/// A backend with what the registry recorded about it when it was added.
pub struct Registration<B> {
    pub name: String,
    pub capabilities: Capabilities,
    /// Meaningful only when `capabilities.braille` holds.
    pub braille_priority: u8,
    pub backend: B,
}

/// The backends that the dispatch layer can reach, keyed by name.
pub struct Registry<B> {
    entries: Vec<Registration<B>>,
}

impl<B> View for Registry<B> {
    type V = Seq<Registration<B>>;

    closed spec fn view(&self) -> Seq<Registration<B>> {
        self.entries@
    }
}

/// The text of an optional borrowed string argument.
pub open spec fn opt_str(s: Option<&str>) -> Option<Seq<char>> {
    match s {
        Some(t) => Some(t@),
        None => None,
    }
}

/// No two registrations share a name.
pub open spec fn names_unique<B>(es: Seq<Registration<B>>) -> bool {
    forall|i: int, j: int|
        0 <= i < es.len() && 0 <= j < es.len() && i != j ==> #[trigger] es[i].name@ != #[trigger] es[j].name@
}

/// Some registration carries the name.
pub open spec fn has_name<B>(es: Seq<Registration<B>>, n: Seq<char>) -> bool {
    exists|i: int| 0 <= i < es.len() && #[trigger] es[i].name@ == n
}

/// The position of the registration with the name.
pub open spec fn index_of<B>(es: Seq<Registration<B>>, n: Seq<char>) -> int {
    choose|i: int| 0 <= i < es.len() && #[trigger] es[i].name@ == n
}

/// The registration with the name.
pub open spec fn named<B>(es: Seq<Registration<B>>, n: Seq<char>) -> Registration<B> {
    es[index_of(es, n)]
}

/// The registrations after adding `reg`: it takes the place of one with the
/// same name, or comes last.
pub open spec fn inserted<B>(es: Seq<Registration<B>>, reg: Registration<B>) -> Seq<Registration<B>> {
    if has_name(es, reg.name@) {
        es.update(index_of(es, reg.name@), reg)
    } else {
        es.push(reg)
    }
}

/// The registrations after adding each of `regs` in order.
pub open spec fn insert_all<B>(es: Seq<Registration<B>>, regs: Seq<Registration<B>>) -> Seq<Registration<B>>
    decreases regs.len(),
{
    if regs.len() == 0 {
        es
    } else {
        inserted(insert_all(es, regs.drop_last()), regs.last())
    }
}

/// The values of the successful outcomes, in order.
pub open spec fn oks<B>(cs: Seq<Result<B, OutputError>>) -> Seq<B>
    decreases cs.len(),
{
    if cs.len() == 0 {
        Seq::empty()
    } else {
        match cs.last() {
            Ok(b) => oks(cs.drop_last()).push(b),
            Err(_) => oks(cs.drop_last()),
        }
    }
}

/// Converts an optional borrowed string into an owned one.
pub fn to_owned_opt(s: Option<&str>) -> (r: Option<String>)
    ensures
        opt_text(r) == opt_str(s),
{
    match s {
        Some(t) => Some(t.to_owned()),
        None => None,
    }
}

proof fn lemma_index_of_unique<B>(es: Seq<Registration<B>>, i: int)
    requires
        names_unique(es),
        0 <= i < es.len(),
    ensures
        has_name(es, es[i].name@),
        index_of(es, es[i].name@) == i,
{
    assert(es[i].name@ == es[i].name@);
    let k = index_of(es, es[i].name@);
    assert(0 <= k < es.len() && es[k].name@ == es[i].name@);
}

/// Adding a registration keeps names unique, makes its name resolve to it,
/// and leaves every other name as it was.
pub proof fn lemma_inserted<B>(es: Seq<Registration<B>>, reg: Registration<B>)
    requires
        names_unique(es),
    ensures
        names_unique(inserted(es, reg)),
        has_name(inserted(es, reg), reg.name@),
        named(inserted(es, reg), reg.name@) == reg,
        forall|n: Seq<char>|
            n != reg.name@ ==> (has_name(inserted(es, reg), n) == has_name(es, n) && (has_name(es, n)
                ==> named(inserted(es, reg), n) == named(es, n))),
{
    let ins = inserted(es, reg);
    if has_name(es, reg.name@) {
        let idx = index_of(es, reg.name@);
        assert(0 <= idx < es.len() && es[idx].name@ == reg.name@);
        assert forall|a: int, b: int|
            0 <= a < ins.len() && 0 <= b < ins.len() && a != b implies #[trigger] ins[a].name@
            != #[trigger] ins[b].name@ by {
            if a != idx && b != idx {
                assert(es[a].name@ != es[b].name@);
            } else if a == idx {
                assert(es[b].name@ != es[idx].name@);
            } else {
                assert(es[a].name@ != es[idx].name@);
            }
        }
        lemma_index_of_unique(ins, idx);
        assert forall|n: Seq<char>| n != reg.name@ implies (has_name(ins, n) == has_name(es, n) && (
        has_name(es, n) ==> named(ins, n) == named(es, n))) by {
            if has_name(es, n) {
                let j = index_of(es, n);
                assert(ins[j] == es[j]);
                lemma_index_of_unique(ins, j);
            }
            if has_name(ins, n) {
                let j = index_of(ins, n);
                assert(es[j].name@ == n);
            }
        }
    } else {
        assert forall|a: int, b: int|
            0 <= a < ins.len() && 0 <= b < ins.len() && a != b implies #[trigger] ins[a].name@
            != #[trigger] ins[b].name@ by {
            if a < es.len() && b < es.len() {
                assert(es[a].name@ != es[b].name@);
            } else if a == es.len() {
                assert(es[b].name@ != reg.name@);
            } else {
                assert(es[a].name@ != reg.name@);
            }
        }
        lemma_index_of_unique(ins, es.len() as int);
        assert forall|n: Seq<char>| n != reg.name@ implies (has_name(ins, n) == has_name(es, n) && (
        has_name(es, n) ==> named(ins, n) == named(es, n))) by {
            if has_name(es, n) {
                let j = index_of(es, n);
                assert(ins[j] == es[j]);
                lemma_index_of_unique(ins, j);
            }
            if has_name(ins, n) {
                let j = index_of(ins, n);
                assert(es[j].name@ == n);
            }
        }
    }
}

/// Adding registrations one by one keeps names unique.
pub proof fn lemma_insert_all_unique<B>(es: Seq<Registration<B>>, regs: Seq<Registration<B>>)
    requires
        names_unique(es),
    ensures
        names_unique(insert_all(es, regs)),
    decreases regs.len(),
{
    if regs.len() > 0 {
        lemma_insert_all_unique(es, regs.drop_last());
        lemma_inserted(insert_all(es, regs.drop_last()), regs.last());
    }
}

/// After adding registrations one by one, each one's name is registered, and
/// it is that registration unless a later one took the same name.
pub proof fn lemma_insert_all_keeps<B>(es: Seq<Registration<B>>, regs: Seq<Registration<B>>, k: int)
    requires
        names_unique(es),
        0 <= k < regs.len(),
    ensures
        has_name(insert_all(es, regs), regs[k].name@),
        (forall|l: int| k < l < regs.len() ==> (#[trigger] regs[l]).name@ != regs[k].name@) ==> named(
            insert_all(es, regs),
            regs[k].name@,
        ) == regs[k],
    decreases regs.len(),
{
    let pre = insert_all(es, regs.drop_last());
    lemma_insert_all_unique(es, regs.drop_last());
    lemma_inserted(pre, regs.last());
    if k < regs.len() - 1 {
        lemma_insert_all_keeps(es, regs.drop_last(), k);
        assert(regs.drop_last()[k] == regs[k]);
        if (forall|l: int| k < l < regs.len() ==> (#[trigger] regs[l]).name@ != regs[k].name@) {
            assert forall|l: int| k < l < regs.drop_last().len() implies (
            #[trigger] regs.drop_last()[l]).name@ != regs.drop_last()[k].name@ by {
                assert(regs.drop_last()[l] == regs[l]);
            }
            assert(regs[regs.len() - 1].name@ != regs[k].name@);
        }
    }
}

impl<B: Backend> Registry<B> {
    /// Names are unique.
    pub open spec fn wf(&self) -> bool {
        names_unique(self@)
    }

    /// An empty registry.
    pub fn new() -> (r: Self)
        ensures
            r@ == Seq::<Registration<B>>::empty(),
            r.wf(),
    {
        Registry { entries: Vec::new() }
    }

    /// The number of registered backends.
    pub fn len(&self) -> (r: usize)
        ensures
            r == self@.len(),
    {
        self.entries.len()
    }

    /// The registration at position `i`.
    pub fn entry(&self, i: usize) -> (r: &Registration<B>)
        requires
            i < self@.len(),
        ensures
            *r == self@[i as int],
    {
        &self.entries[i]
    }

    /// The position of the backend registered under `name`.
    pub fn find(&self, name: &str) -> (r: Option<usize>)
        requires
            self.wf(),
        ensures
            r is None <==> !has_name(self@, name@),
            r matches Some(i) ==> i < self@.len() && self@[i as int].name@ == name@ && index_of(
                self@,
                name@,
            ) == i,
    {
        let mut i: usize = 0;
        while i < self.entries.len()
            invariant
                i <= self.entries@.len(),
                names_unique(self@),
                forall|k: int| 0 <= k < i ==> self.entries@[k].name@ != name@,
            decreases self.entries@.len() - i,
        {
            if self.entries[i].name.as_str().unicode_len() == name.unicode_len() && str_eq(
                self.entries[i].name.as_str(),
                name,
            ) {
                proof {
                    lemma_index_of_unique(self@, i as int);
                }
                return Some(i);
            }
            i = i + 1;
        }
        None
    }

    /// Adds a registration, replacing one with the same name.
    pub fn add(&mut self, reg: Registration<B>)
        requires
            old(self).wf(),
        ensures
            final(self).wf(),
            final(self)@ == inserted(old(self)@, reg),
    {
        let ghost before = self@;
        let ghost n = reg.name@;
        match self.find(reg.name.as_str()) {
            Some(i) => {
                self.entries.set(i, reg);
                proof {
                    assert forall|a: int, b: int|
                        0 <= a < self@.len() && 0 <= b < self@.len() && a != b implies #[trigger] self@[a].name@
                        != #[trigger] self@[b].name@ by {
                        if a != i && b != i {
                            assert(before[a].name@ != before[b].name@);
                        } else if a == i {
                            assert(before[b].name@ != before[i as int].name@);
                        } else {
                            assert(before[a].name@ != before[i as int].name@);
                        }
                    }
                }
            },
            None => {
                self.entries.push(reg);
                proof {
                    assert forall|a: int, b: int|
                        0 <= a < self@.len() && 0 <= b < self@.len() && a != b implies #[trigger] self@[a].name@
                        != #[trigger] self@[b].name@ by {
                        if a < before.len() && b < before.len() {
                            assert(before[a].name@ != before[b].name@);
                        } else if a == before.len() {
                            assert(before[b].name@ != n);
                        } else {
                            assert(before[a].name@ != n);
                        }
                    }
                }
            },
        }
    }

    /// Registers a backend under the name it reports, recording its
    /// capabilities and, for a Braille backend, its priority.
    pub fn register(&mut self, backend: B)
        requires
            old(self).wf(),
        ensures
            final(self).wf(),
            exists|reg: Registration<B>|
                reg.backend == backend && final(self)@ == inserted(old(self)@, reg),
    {
        let name = backend.name();
        let capabilities = backend.capabilities();
        let braille_priority = if capabilities.braille {
            BrailleBackend::priority(&backend)
        } else {
            0
        };
        let reg = Registration { name, capabilities, braille_priority, backend };
        let ghost g = reg;
        self.add(reg);
        assert(g.backend == backend);
    }

    /// Builds a registry from the backends that could be constructed: each
    /// one that was built is registered, in order, under the name it
    /// reports; a backend whose construction failed is left out.
    pub fn from_backends(candidates: Vec<Result<B, OutputError>>) -> (r: Self)
        ensures
            r.wf(),
            exists|regs: Seq<Registration<B>>|
                regs.len() == oks(candidates@).len() && (forall|k: int|
                    0 <= k < regs.len() ==> (#[trigger] regs[k]).backend == oks(candidates@)[k])
                    && r@ == insert_all(Seq::empty(), regs),
    {
        let ghost all = candidates@;
        let mut rest = candidates;
        let mut registry = Registry::new();
        let ghost mut regs: Seq<Registration<B>> = Seq::empty();
        while rest.len() > 0
            invariant
                registry.wf(),
                all == all.subrange(0, all.len() - rest@.len()) + rest@,
                rest@.len() <= all.len(),
                regs.len() == oks(all.subrange(0, all.len() - rest@.len())).len(),
                forall|k: int|
                    0 <= k < regs.len() ==> (#[trigger] regs[k]).backend == oks(
                        all.subrange(0, all.len() - rest@.len()),
                    )[k],
                registry@ == insert_all(Seq::empty(), regs),
            decreases rest@.len(),
        {
            let ghost done = all.subrange(0, all.len() - rest@.len());
            let ghost before = registry@;
            let c = rest.remove(0);
            let ghost next = all.subrange(0, all.len() - rest@.len());
            proof {
                assert(next.drop_last() =~= done);
                assert(next.last() == c);
                assert(all =~= next + rest@);
            }
            if let Ok(b) = c {
                registry.register(b);
                proof {
                    let reg = choose|reg: Registration<B>|
                        reg.backend == b && registry@ == inserted(before, reg);
                    let old_regs = regs;
                    regs = regs.push(reg);
                    assert(regs.drop_last() =~= old_regs);
                    assert(oks(next) == oks(done).push(b));
                    assert forall|k: int| 0 <= k < regs.len() implies (#[trigger] regs[k]).backend
                        == oks(next)[k] by {
                        if k < old_regs.len() {
                            assert(regs[k] == old_regs[k]);
                        }
                    }
                }
            } else {
                proof {
                    assert(oks(next) == oks(done));
                }
            }
        }
        proof {
            assert(all.subrange(0, all.len() as int) =~= all);
        }
        registry
    }
}

/// Whether two texts are equal.
pub fn str_eq(a: &str, b: &str) -> (r: bool)
    ensures
        r == (a@ == b@),
{
    let la = a.unicode_len();
    if la != b.unicode_len() {
        return false;
    }
    let mut i: usize = 0;
    while i < la
        invariant
            la == a@.len(),
            la == b@.len(),
            i <= la,
            forall|k: int| 0 <= k < i ==> a@[k] == b@[k],
        decreases la - i,
    {
        if a.get_char(i) != b.get_char(i) {
            return false;
        }
        i = i + 1;
    }
    assert(a@ =~= b@);
    true
}

} // verus!
