use vstd::prelude::*;

use crate::assoc::{
    assoc_contains, assoc_find, assoc_get, assoc_keys, assoc_wf, lemma_assoc_get_absent,
    lemma_assoc_get_first, lemma_assoc_get_push, lemma_assoc_get_update_other,
};
use crate::realval::RealBits;
use crate::specs::bench::BenchSpec;
use crate::specs::effect::EffectSpec;
use crate::specs::surfel::SurfelRuleSpec;
use crate::specs::transport::Transport;

verus! {

/// The mapping from material name to surfel-spec path: an ordered set of
/// entries without repeated keys, looked up by key.
pub struct MaterialMap {
    entries: Vec<(String, String)>,
}

impl MaterialMap {
    /// The entries, in order.
    pub closed spec fn entries_view(&self) -> Seq<(String, String)> {
        self.entries@
    }

    /// No key occurs twice.
    pub open spec fn wf(&self) -> bool {
        assoc_wf(self.entries_view())
    }

    /// The path stored under a material name, if any.
    pub open spec fn spec_get(&self, k: Seq<char>) -> Option<String> {
        assoc_get(self.entries_view(), k)
    }

    /// Whether some entry stands under the material name.
    pub open spec fn spec_contains(&self, k: Seq<char>) -> bool {
        assoc_contains(self.entries_view(), k)
    }

    pub fn new() -> (r: Self)
        ensures
            r.entries_view() =~= Seq::<(String, String)>::empty(),
            r.wf(),
    {
        MaterialMap { entries: Vec::new() }
    }

    pub fn len(&self) -> (r: usize)
        ensures
            r == self.entries_view().len(),
    {
        self.entries.len()
    }

    pub fn is_empty(&self) -> (r: bool)
        ensures
            r == (self.entries_view().len() == 0),
    {
        self.entries.len() == 0
    }

    /// The entry at an index, copied.
    pub fn entry_at(&self, i: usize) -> (r: (String, String))
        requires
            i < self.entries_view().len(),
        ensures
            r == self.entries_view()[i as int],
    {
        (self.entries[i].0.clone(), self.entries[i].1.clone())
    }

    pub fn contains_key(&self, k: &str) -> (r: bool)
        ensures
            r == self.spec_contains(k@),
    {
        let found = assoc_find(&self.entries, k);
        proof {
            if found.is_some() {
                assert(self.spec_contains(k@));
            } else {
                lemma_assoc_get_absent(self.entries_view(), k@);
            }
        }
        found.is_some()
    }

    /// The path stored under the material name, copied, if any.
    pub fn get(&self, k: &str) -> (r: Option<String>)
        ensures
            r == self.spec_get(k@),
    {
        match assoc_find(&self.entries, k) {
            Some(i) => {
                proof {
                    lemma_assoc_get_first(self.entries_view(), k@, i as int);
                }
                Some(self.entries[i].1.clone())
            },
            None => {
                proof {
                    lemma_assoc_get_absent(self.entries_view(), k@);
                }
                None
            },
        }
    }

    /// Stores the path under the material name, silently overwriting an
    /// earlier path under the same name.
    pub fn insert(&mut self, key: String, value: String)
        requires
            old(self).wf(),
        ensures
            final(self).wf(),
            final(self).spec_get(key@) == Some(value),
            forall|k: Seq<char>|
                k != key@ ==> final(self).spec_get(k) == old(self).spec_get(k),
            forall|k: Seq<char>|
                final(self).spec_contains(k) == (old(self).spec_contains(k) || k == key@),
            old(self).spec_contains(key@) ==> assoc_keys(final(self).entries_view())
                =~= assoc_keys(old(self).entries_view()),
            !old(self).spec_contains(key@) ==> final(self).entries_view() =~= old(
                self,
            ).entries_view().push((key, value)),
    {
        let ghost pre = self.entries@;
        match assoc_find(&self.entries, key.as_str()) {
            Some(i) => {
                proof {
                    lemma_assoc_get_first(pre, key@, i as int);
                }
                self.entries.set(i, (key, value));
                proof {
                    let post = self.entries@;
                    assert(post[i as int].0@ == key@);
                    lemma_assoc_get_first(post, key@, i as int);
                    assert forall|k: Seq<char>| k != key@ implies assoc_get(post, k) == assoc_get(
                        pre,
                        k,
                    ) by {
                        lemma_assoc_get_update_other(pre, i as int, post[i as int], k);
                    }
                    assert forall|k: Seq<char>|
                        assoc_contains(post, k) == (assoc_contains(pre, k) || k
                            == key@) by {
                        if assoc_contains(post, k) {
                            let j = choose|j: int| 0 <= j < post.len() && post[j].0@ == k;
                            if j != i {
                                assert(pre[j].0@ == k);
                            }
                        }
                        if assoc_contains(pre, k) {
                            let j = choose|j: int| 0 <= j < pre.len() && pre[j].0@ == k;
                            if j != i {
                                assert(post[j].0@ == k);
                            } else {
                                assert(post[i as int].0@ == key@);
                            }
                        }
                    }
                    assert(assoc_keys(post) =~= assoc_keys(pre));
                }
            },
            None => {
                proof {
                    lemma_assoc_get_absent(pre, key@);
                }
                let ghost e = (key, value);
                proof {
                    lemma_assoc_get_push(pre, e, key@);
                }
                self.entries.push((key, value));
                proof {
                    let post = self.entries@;
                    assert forall|k: Seq<char>| k != key@ implies assoc_get(post, k) == assoc_get(
                        pre,
                        k,
                    ) by {
                        lemma_assoc_get_push(pre, e, k);
                        if assoc_contains(pre, k) {
                        } else {
                            lemma_assoc_get_absent(pre, k);
                        }
                    }
                    assert forall|k: Seq<char>|
                        assoc_contains(post, k) == (assoc_contains(pre, k) || k
                            == key@) by {
                        if assoc_contains(post, k) {
                            let j = choose|j: int| 0 <= j < post.len() && post[j].0@ == k;
                            if j < pre.len() {
                                assert(pre[j].0@ == k);
                            }
                        }
                        if assoc_contains(pre, k) {
                            let j = choose|j: int| 0 <= j < pre.len() && pre[j].0@ == k;
                            assert(post[j].0@ == k);
                        }
                        if k == key@ {
                            assert(post[post.len() - 1].0@ == key@);
                        }
                    }
                }
            },
        }
    }
}

impl MaterialMap {
    /// The union of two mappings: under a shared key, `second`'s path
    /// wins silently. `self`'s entries keep their place; `second`'s new
    /// keys follow in `second`'s order.
    pub fn extend(self, second: &MaterialMap) -> (r: MaterialMap)
        requires
            self.wf(),
            second.wf(),
        ensures
            r.wf(),
            forall|k: Seq<char>|
                r.spec_contains(k) == (self.spec_contains(k) || second.spec_contains(k)),
            forall|k: Seq<char>|
                second.spec_contains(k) ==> r.spec_get(k) == second.spec_get(k),
            forall|k: Seq<char>|
                !second.spec_contains(k) ==> r.spec_get(k) == self.spec_get(k),
    {
        let mut out = self;
        let n = second.len();
        let mut i: usize = 0;
        while i < n
            invariant
                i <= n,
                n == second.entries_view().len(),
                out.wf(),
                second.wf(),
                forall|k: Seq<char>|
                    out.spec_contains(k) == (self.spec_contains(k) || exists|j: int|
                        0 <= j < i && second.entries_view()[j].0@ == k),
                forall|k: Seq<char>|
                    (exists|j: int| 0 <= j < i && second.entries_view()[j].0@ == k)
                        ==> out.spec_get(k) == second.spec_get(k),
                forall|k: Seq<char>|
                    !(exists|j: int| 0 <= j < i && second.entries_view()[j].0@ == k)
                        ==> out.spec_get(k) == self.spec_get(k),
            decreases n - i,
        {
            let (key, value) = second.entry_at(i);
            let ghost keyv = key@;
            let ghost pre = out;
            proof {
                assert((key, value) == second.entries_view()[i as int]);
                assert(second.entries_view()[i as int].0@ == keyv);
                lemma_assoc_get_first(second.entries_view(), keyv, i as int);
            }
            out.insert(key, value);
            proof {
                assert(out.spec_get(keyv) == Some(value));
                assert(second.spec_get(keyv) == Some(second.entries_view()[i as int].1));
                assert(value == second.entries_view()[i as int].1);
                assert forall|k: Seq<char>|
                    out.spec_contains(k) == (self.spec_contains(k) || exists|j: int|
                        0 <= j < i + 1 && second.entries_view()[j].0@ == k) by {
                    if k == keyv {
                        assert(second.entries_view()[i as int].0@ == k);
                    } else {
                        assert(out.spec_contains(k) == pre.spec_contains(k));
                        assert((exists|j: int| 0 <= j < i + 1 && second.entries_view()[j].0@ == k)
                            == (exists|j: int| 0 <= j < i && second.entries_view()[j].0@ == k));
                    }
                }
            }
            i += 1;
        }
        proof {
            assert forall|k: Seq<char>|
                (exists|j: int| 0 <= j < n && second.entries_view()[j].0@ == k)
                    == second.spec_contains(k) by {}
        }
        out
    }
}

/// A partial, declarative description of a simulation. Every field is
/// optional or may be empty; fragments are merged left to right into one
/// resolved specification.
pub struct SimulationSpec {
    pub name: String,
    pub description: String,
    /// Scene paths, in order.
    pub scenes: Vec<String>,
    pub iterations: Option<u32>,
    /// How often the effect pipeline runs. Iteration zero and the last
    /// iteration always run it, regardless of this setting.
    pub effect_interval: Option<u32>,
    pub log: Option<String>,
    pub surfel_distance: Option<RealBits>,
    /// Particle-source spec paths, in order.
    pub sources: Vec<String>,
    pub surfels_by_material: MaterialMap,
    pub effects: Vec<EffectSpec>,
    pub benchmark: Option<BenchSpec>,
    pub transport: Option<Transport>,
    pub consistent_transport: Option<bool>,
    /// Specification-wide surfel rules, in order.
    pub rules: Vec<SurfelRuleSpec>,
}

impl Default for SimulationSpec {
    fn default() -> (r: Self)
        ensures
            r.name@ =~= Seq::<char>::empty(),
            r.description@ =~= Seq::<char>::empty(),
            r.scenes@ =~= Seq::<String>::empty(),
            r.iterations == None::<u32>,
            r.effect_interval == None::<u32>,
            r.log == None::<String>,
            r.surfel_distance == None::<RealBits>,
            r.sources@ =~= Seq::<String>::empty(),
            r.surfels_by_material.entries_view() =~= Seq::<(String, String)>::empty(),
            r.surfels_by_material.wf(),
            r.effects@ =~= Seq::<EffectSpec>::empty(),
            r.benchmark == None::<BenchSpec>,
            r.transport == None::<Transport>,
            r.consistent_transport == None::<bool>,
            r.rules@ =~= Seq::<SurfelRuleSpec>::empty(),
    {
        SimulationSpec {
            name: String::new(),
            description: String::new(),
            scenes: Vec::new(),
            iterations: None,
            effect_interval: None,
            log: None,
            surfel_distance: None,
            sources: Vec::new(),
            surfels_by_material: MaterialMap::new(),
            effects: Vec::new(),
            benchmark: None,
            transport: None,
            consistent_transport: None,
            rules: Vec::new(),
        }
    }
}

} // verus!
