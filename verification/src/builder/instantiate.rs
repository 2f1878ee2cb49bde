use vstd::prelude::*;

use crate::assoc::{
    assoc_contains, assoc_find, assoc_get, assoc_wf, lemma_assoc_get_absent, lemma_assoc_get_first,
    SubstanceMap,
};
use crate::builder::err::Error;
use crate::entity::EntityDesc;
use crate::realval::{real_le_zero, RealBits};
use crate::specs::sim::SimulationSpec;
use crate::specs::source::{TonSourceSpec, Vector3};
use crate::specs::surfel::{SurfelRuleSpec, SurfelSpec};
use crate::specs::transport::Transport;
use crate::strings::{str_eq, views_of};

verus! {

/// The value stored under `key`, or `default` where the map holds none.
pub open spec fn spec_extract(
    map: Seq<(String, RealBits)>,
    key: Seq<char>,
    default: RealBits,
) -> RealBits {
    match assoc_get(map, key) {
        Some(v) => v,
        None => default,
    }
}

/// Extracts the values of the given keys from the given map, in key
/// order. Where no value is stored under a key, `default` stands in its
/// place. This is how every per-substance vector is aligned to the
/// substance-name table.
pub fn extract_keys(map: &SubstanceMap, keys: &Vec<String>, default: RealBits) -> (r: Vec<
    RealBits,
>)
    ensures
        r@.len() == keys@.len(),
        forall|i: int| 0 <= i < keys@.len() ==> r@[i] == spec_extract(map@, keys@[i]@, default),
{
    let mut out: Vec<RealBits> = Vec::new();
    let n = keys.len();
    let mut i: usize = 0;
    while i < n
        invariant
            i <= n,
            n == keys@.len(),
            out@.len() == i,
            forall|j: int| 0 <= j < i ==> out@[j] == spec_extract(map@, keys@[j]@, default),
        decreases n - i,
    {
        let v = match assoc_find(map, keys[i].as_str()) {
            Some(idx) => {
                proof {
                    lemma_assoc_get_first(map@, keys@[i as int]@, idx as int);
                }
                map[idx].1
            },
            None => {
                proof {
                    lemma_assoc_get_absent(map@, keys@[i as int]@);
                }
                default
            },
        };
        out.push(v);
        i += 1;
    }
    out
}

/// The names a substance map mentions, in order.
pub open spec fn names_of(m: Seq<(String, RealBits)>) -> Seq<Seq<char>> {
    m.map_values(|p: (String, RealBits)| p.0@)
}

/// The substance names one surfel spec mentions: its initial
/// concentrations, then its deposition rates.
pub open spec fn surfel_spec_names(s: (String, SurfelSpec)) -> Seq<Seq<char>> {
    names_of(s.1.initial@) + names_of(s.1.deposit@)
}

/// The substance names one source spec mentions: its initial
/// concentrations, then its absorption rates.
pub open spec fn source_spec_names(s: TonSourceSpec) -> Seq<Seq<char>> {
    names_of(s.initial@) + names_of(s.absorb@)
}

/// The names all surfel specs mention, in spec order.
pub open spec fn flat_surfel_names(ss: Seq<(String, SurfelSpec)>) -> Seq<Seq<char>>
    decreases ss.len(),
{
    if ss.len() == 0 {
        Seq::empty()
    } else {
        surfel_spec_names(ss[0]) + flat_surfel_names(ss.skip(1))
    }
}

/// The names all source specs mention, in spec order.
pub open spec fn flat_source_names(ss: Seq<TonSourceSpec>) -> Seq<Seq<char>>
    decreases ss.len(),
{
    if ss.len() == 0 {
        Seq::empty()
    } else {
        source_spec_names(ss[0]) + flat_source_names(ss.skip(1))
    }
}

/// Every substance name the loaded specs mention, with repetitions, in
/// the order the specs are walked: surfel specs first, then source
/// specs.
pub open spec fn all_substance_names(
    surfel_specs: Seq<(String, SurfelSpec)>,
    source_specs: Seq<TonSourceSpec>,
) -> Seq<Seq<char>> {
    flat_surfel_names(surfel_specs) + flat_source_names(source_specs)
}

proof fn lemma_flat_surfel_snoc(ss: Seq<(String, SurfelSpec)>, x: (String, SurfelSpec))
    ensures
        flat_surfel_names(ss.push(x)) == flat_surfel_names(ss) + surfel_spec_names(x),
    decreases ss.len(),
{
    if ss.len() == 0 {
        assert(ss.push(x)[0] == x);
        assert(ss.push(x).skip(1) =~= Seq::<(String, SurfelSpec)>::empty());
        assert(flat_surfel_names(Seq::<(String, SurfelSpec)>::empty()) =~= Seq::<Seq<char>>::empty());
        assert(flat_surfel_names(ss.push(x)) =~= flat_surfel_names(ss) + surfel_spec_names(x));
    } else {
        assert(ss.push(x)[0] == ss[0]);
        assert(ss.push(x).skip(1) =~= ss.skip(1).push(x));
        lemma_flat_surfel_snoc(ss.skip(1), x);
        assert(flat_surfel_names(ss.push(x)) =~= flat_surfel_names(ss) + surfel_spec_names(x));
    }
}

proof fn lemma_flat_source_snoc(ss: Seq<TonSourceSpec>, x: TonSourceSpec)
    ensures
        flat_source_names(ss.push(x)) == flat_source_names(ss) + source_spec_names(x),
    decreases ss.len(),
{
    if ss.len() == 0 {
        assert(ss.push(x)[0] == x);
        assert(ss.push(x).skip(1) =~= Seq::<TonSourceSpec>::empty());
        assert(flat_source_names(Seq::<TonSourceSpec>::empty()) =~= Seq::<Seq<char>>::empty());
        assert(flat_source_names(ss.push(x)) =~= flat_source_names(ss) + source_spec_names(x));
    } else {
        assert(ss.push(x)[0] == ss[0]);
        assert(ss.push(x).skip(1) =~= ss.skip(1).push(x));
        lemma_flat_source_snoc(ss.skip(1), x);
        assert(flat_source_names(ss.push(x)) =~= flat_source_names(ss) + source_spec_names(x));
    }
}

/// Appends the names a substance map mentions, in order.
fn push_names(out: &mut Vec<String>, m: &SubstanceMap)
    ensures
        views_of(final (out)@) == views_of(old(out)@) + names_of(m@),
{
    let n = m.len();
    let mut i: usize = 0;
    while i < n
        invariant
            i <= n,
            n == m@.len(),
            views_of(out@) =~= views_of(old(out)@) + names_of(m@).take(i as int),
        decreases n - i,
    {
        let ghost pre = out@;
        out.push(m[i].0.clone());
        proof {
            assert(names_of(m@)[i as int] == m@[i as int].0@);
            assert(views_of(out@) =~= views_of(pre).push(m@[i as int].0@));
            assert(names_of(m@).take(i + 1) =~= names_of(m@).take(i as int).push(
                names_of(m@)[i as int],
            ));
            assert(views_of(out@) =~= views_of(old(out)@) + names_of(m@).take(i + 1));
        }
        i += 1;
    }
    proof {
        assert(names_of(m@).take(n as int) =~= names_of(m@));
    }
}

/// Every substance name the loaded specs mention, with repetitions, in
/// walking order.
pub fn collect_substance_names(
    surfel_specs: &Vec<(String, SurfelSpec)>,
    source_specs: &Vec<TonSourceSpec>,
) -> (r: Vec<String>)
    ensures
        views_of(r@) == all_substance_names(surfel_specs@, source_specs@),
{
    let mut out: Vec<String> = Vec::new();
    let n = surfel_specs.len();
    let mut i: usize = 0;
    while i < n
        invariant
            i <= n,
            n == surfel_specs@.len(),
            views_of(out@) == flat_surfel_names(surfel_specs@.take(i as int)),
        decreases n - i,
    {
        push_names(&mut out, &surfel_specs[i].1.initial);
        push_names(&mut out, &surfel_specs[i].1.deposit);
        proof {
            assert(surfel_specs@.take(i + 1) =~= surfel_specs@.take(i as int).push(
                surfel_specs@[i as int],
            ));
            lemma_flat_surfel_snoc(surfel_specs@.take(i as int), surfel_specs@[i as int]);
            assert(views_of(out@) =~= flat_surfel_names(surfel_specs@.take(i + 1)));
        }
        i += 1;
    }
    proof {
        assert(surfel_specs@.take(n as int) =~= surfel_specs@);
    }
    let m = source_specs.len();
    let mut j: usize = 0;
    while j < m
        invariant
            j <= m,
            m == source_specs@.len(),
            views_of(out@) == flat_surfel_names(surfel_specs@) + flat_source_names(
                source_specs@.take(j as int),
            ),
        decreases m - j,
    {
        push_names(&mut out, &source_specs[j].initial);
        push_names(&mut out, &source_specs[j].absorb);
        proof {
            assert(source_specs@.take(j + 1) =~= source_specs@.take(j as int).push(
                source_specs@[j as int],
            ));
            lemma_flat_source_snoc(source_specs@.take(j as int), source_specs@[j as int]);
            assert(views_of(out@) =~= flat_surfel_names(surfel_specs@) + flat_source_names(
                source_specs@.take(j + 1),
            ));
        }
        j += 1;
    }
    proof {
        assert(source_specs@.take(m as int) =~= source_specs@);
    }
    out
}

/// The distinct entries of `s`, each at its first occurrence, in order,
/// after the already-taken entries in `acc`.
pub open spec fn dedup_acc(s: Seq<Seq<char>>, acc: Seq<Seq<char>>) -> Seq<Seq<char>>
    decreases s.len(),
{
    if s.len() == 0 {
        acc
    } else {
        dedup_acc(
            s.skip(1),
            if acc.contains(s[0]) {
                acc
            } else {
                acc.push(s[0])
            },
        )
    }
}

/// The distinct entries of `s`, each at its first occurrence, in order.
pub open spec fn first_occurrences(s: Seq<Seq<char>>) -> Seq<Seq<char>> {
    dedup_acc(s, Seq::empty())
}

/// Whether some entry of `names` reads `name`.
fn contains_name(names: &Vec<String>, name: &str) -> (r: bool)
    ensures
        r == views_of(names@).contains(name@),
{
    let n = names.len();
    let mut i: usize = 0;
    while i < n
        invariant
            i <= n,
            n == names@.len(),
            forall|j: int| 0 <= j < i ==> names@[j]@ != name@,
        decreases n - i,
    {
        if str_eq(names[i].as_str(), name) {
            proof {
                assert(views_of(names@)[i as int] == name@);
            }
            return true;
        }
        i += 1;
    }
    proof {
        if views_of(names@).contains(name@) {
            let j = choose|j: int| 0 <= j < names@.len() && views_of(names@)[j] == name@;
            assert(names@[j]@ == name@);
        }
    }
    false
}

/// `dedup_acc` keeps the accumulator free of repetitions and collects
/// exactly the entries of accumulator and input.
proof fn lemma_dedup_acc_props(s: Seq<Seq<char>>, acc: Seq<Seq<char>>)
    requires
        forall|a: int, b: int| 0 <= a < b < acc.len() ==> acc[a] != acc[b],
    ensures
        forall|a: int, b: int|
            0 <= a < b < dedup_acc(s, acc).len() ==> dedup_acc(s, acc)[a] != dedup_acc(s, acc)[b],
        forall|x: Seq<char>|
            dedup_acc(s, acc).contains(x) == (acc.contains(x) || s.contains(x)),
    decreases s.len(),
{
    if s.len() == 0 {
        assert forall|x: Seq<char>| !s.contains(x) by {}
    } else {
        let acc2 = if acc.contains(s[0]) {
            acc
        } else {
            acc.push(s[0])
        };
        if !acc.contains(s[0]) {
            assert forall|a: int, b: int| 0 <= a < b < acc2.len() implies acc2[a] != acc2[b] by {
                if b == acc2.len() - 1 {
                    assert(acc2[a] == acc[a]);
                    assert(acc.contains(acc[a]));
                }
            }
        }
        lemma_dedup_acc_props(s.skip(1), acc2);
        assert forall|x: Seq<char>| s.contains(x) == (x == s[0] || s.skip(1).contains(x)) by {
            if s.contains(x) {
                let i = choose|i: int| 0 <= i < s.len() && s[i] == x;
                if i > 0 {
                    assert(s.skip(1)[i - 1] == x);
                }
            }
            if s.skip(1).contains(x) {
                let i = choose|i: int| 0 <= i < s.skip(1).len() && s.skip(1)[i] == x;
                assert(s[i + 1] == x);
            }
        }
        assert forall|x: Seq<char>| acc2.contains(x) == (acc.contains(x) || x == s[0]) by {
            if !acc.contains(s[0]) {
                if acc2.contains(x) {
                    let i = choose|i: int| 0 <= i < acc2.len() && acc2[i] == x;
                    if i < acc.len() {
                        assert(acc[i] == x);
                    }
                }
                if acc.contains(x) {
                    let i = choose|i: int| 0 <= i < acc.len() && acc[i] == x;
                    assert(acc2[i] == x);
                }
                if x == s[0] {
                    assert(acc2[acc.len() as int] == x);
                }
            }
        }
    }
}

/// The first occurrence of each name, in order: the substance-name
/// table. The table holds no name twice and holds exactly the names of
/// the input, in the order they first occur.
pub fn dedup_names(names: &Vec<String>) -> (r: Vec<String>)
    ensures
        views_of(r@) == first_occurrences(views_of(names@)),
        forall|i: int, j: int| 0 <= i < j < r@.len() ==> r@[i]@ != r@[j]@,
        forall|x: Seq<char>| views_of(r@).contains(x) == views_of(names@).contains(x),
{
    let mut out: Vec<String> = Vec::new();
    let n = names.len();
    let mut i: usize = 0;
    proof {
        assert(views_of(names@).skip(0) =~= views_of(names@));
        assert(views_of(out@) =~= Seq::<Seq<char>>::empty());
    }
    while i < n
        invariant
            i <= n,
            n == names@.len(),
            dedup_acc(views_of(names@).skip(i as int), views_of(out@)) == first_occurrences(
                views_of(names@),
            ),
        decreases n - i,
    {
        let ghost pre_views = views_of(out@);
        let ghost rest = views_of(names@).skip(i as int);
        proof {
            assert(rest[0] == names@[i as int]@);
            assert(rest.skip(1) =~= views_of(names@).skip(i + 1));
        }
        if !contains_name(&out, names[i].as_str()) {
            out.push(names[i].clone());
            proof {
                assert(views_of(out@) =~= pre_views.push(names@[i as int]@));
            }
        }
        i += 1;
    }
    proof {
        let nv = views_of(names@);
        assert(nv.skip(n as int) =~= Seq::<Seq<char>>::empty());
        lemma_dedup_acc_props(nv, Seq::empty());
        assert forall|x: Seq<char>| !Seq::<Seq<char>>::empty().contains(x) by {}
        assert forall|i: int, j: int|
            0 <= i < j < out@.len() implies out@[i]@ != out@[j]@ by {
            assert(views_of(out@)[i] == out@[i]@);
            assert(views_of(out@)[j] == out@[j]@);
        }
    }
    out
}

/// The substance-name table: an ordered, duplicate-free sequence of the
/// substance names collected from every surfel spec's initial and
/// deposit maps and every source spec's initial and absorb maps, each at
/// its first occurrence.
///
/// The table is a pure function of the loaded specs, so instantiating
/// the same merged specification twice assigns the same index to every
/// name.
pub fn unique_substance_names(
    surfel_specs: &Vec<(String, SurfelSpec)>,
    source_specs: &Vec<TonSourceSpec>,
) -> (r: Vec<String>)
    ensures
        views_of(r@) == first_occurrences(all_substance_names(surfel_specs@, source_specs@)),
        forall|i: int, j: int| 0 <= i < j < r@.len() ==> r@[i]@ != r@[j]@,
        forall|x: Seq<char>|
            views_of(r@).contains(x) == all_substance_names(
                surfel_specs@,
                source_specs@,
            ).contains(x),
{
    let all = collect_substance_names(surfel_specs, source_specs);
    dedup_names(&all)
}

/// The index of the first entry reading `name`, or the length where none
/// does.
pub open spec fn index_of_name(names: Seq<Seq<char>>, name: Seq<char>) -> int
    decreases names.len(),
{
    if names.len() == 0 {
        0
    } else if names[0] == name {
        0
    } else {
        1 + index_of_name(names.skip(1), name)
    }
}

proof fn lemma_index_of_name(names: Seq<Seq<char>>, name: Seq<char>, i: int)
    requires
        0 <= i <= names.len(),
        forall|j: int| 0 <= j < i ==> names[j] != name,
        i == names.len() || names[i] == name,
    ensures
        index_of_name(names, name) == i,
    decreases i,
{
    if i > 0 {
        lemma_index_of_name(names.skip(1), name, i - 1);
    }
}

/// The index a substance name resolves to: its position in the
/// substance-name table, if it stands there.
pub fn position_of(names: &Vec<String>, name: &str) -> (r: Option<usize>)
    ensures
        match r {
            Some(i) => views_of(names@).contains(name@) && i == index_of_name(
                views_of(names@),
                name@,
            ),
            None => !views_of(names@).contains(name@),
        },
{
    let n = names.len();
    let mut i: usize = 0;
    while i < n
        invariant
            i <= n,
            n == names@.len(),
            forall|j: int| 0 <= j < i ==> names@[j]@ != name@,
        decreases n - i,
    {
        if str_eq(names[i].as_str(), name) {
            proof {
                assert(views_of(names@)[i as int] == name@);
                assert forall|j: int| 0 <= j < i implies views_of(names@)[j] != name@ by {
                    assert(views_of(names@)[j] == names@[j]@);
                }
                lemma_index_of_name(views_of(names@), name@, i as int);
            }
            return Some(i);
        }
        i += 1;
    }
    proof {
        if views_of(names@).contains(name@) {
            let j = choose|j: int| 0 <= j < names@.len() && views_of(names@)[j] == name@;
            assert(names@[j]@ == name@);
        }
    }
    None
}

/// A surfel rule with its symbolic substance names resolved to indices
/// into the substance-name table.
#[derive(Debug, Clone, Copy, PartialEq, Eq, Structural)]
pub enum SurfelRule {
    Transfer { source_substance_idx: usize, target_substance_idx: usize, factor: RealBits },
    Deteriorate { substance_idx: usize, factor: RealBits },
    Deposit { substance_idx: usize, amount: RealBits },
}

/// What resolving one rule yields: the rule over indices, or the first
/// unknown substance name. An unknown name is a fatal configuration
/// error, never defaulted.
pub open spec fn spec_rule_by_spec(rule: SurfelRuleSpec, names: Seq<Seq<char>>) -> Result<
    SurfelRule,
    Error,
> {
    match rule {
        SurfelRuleSpec::Transfer { from, to, factor } => if !names.contains(from@) {
            Err(Error::UnknownSubstanceName(from))
        } else if !names.contains(to@) {
            Err(Error::UnknownSubstanceName(to))
        } else {
            Ok(
                SurfelRule::Transfer {
                    source_substance_idx: index_of_name(names, from@) as usize,
                    target_substance_idx: index_of_name(names, to@) as usize,
                    factor,
                },
            )
        },
        SurfelRuleSpec::Deteriorate { from, factor } => if !names.contains(from@) {
            Err(Error::UnknownSubstanceName(from))
        } else {
            Ok(
                SurfelRule::Deteriorate {
                    substance_idx: index_of_name(names, from@) as usize,
                    factor,
                },
            )
        },
        SurfelRuleSpec::Deposit { to, amount } => if !names.contains(to@) {
            Err(Error::UnknownSubstanceName(to))
        } else {
            Ok(
                SurfelRule::Deposit { substance_idx: index_of_name(names, to@) as usize, amount },
            )
        },
    }
}

/// Resolves one rule's substance names against the substance-name table.
pub fn rule_by_spec(rule: &SurfelRuleSpec, names: &Vec<String>) -> (r: Result<SurfelRule, Error>)
    ensures
        r == spec_rule_by_spec(*rule, views_of(names@)),
{
    match rule {
        SurfelRuleSpec::Transfer { from, to, factor } => {
            let source = match position_of(names, from.as_str()) {
                Some(i) => i,
                None => {
                    return Err(Error::UnknownSubstanceName(from.clone()));
                },
            };
            let target = match position_of(names, to.as_str()) {
                Some(i) => i,
                None => {
                    return Err(Error::UnknownSubstanceName(to.clone()));
                },
            };
            Ok(
                SurfelRule::Transfer {
                    source_substance_idx: source,
                    target_substance_idx: target,
                    factor: *factor,
                },
            )
        },
        SurfelRuleSpec::Deteriorate { from, factor } => {
            match position_of(names, from.as_str()) {
                Some(i) => Ok(SurfelRule::Deteriorate { substance_idx: i, factor: *factor }),
                None => Err(Error::UnknownSubstanceName(from.clone())),
            }
        },
        SurfelRuleSpec::Deposit { to, amount } => {
            match position_of(names, to.as_str()) {
                Some(i) => Ok(SurfelRule::Deposit { substance_idx: i, amount: *amount }),
                None => Err(Error::UnknownSubstanceName(to.clone())),
            }
        },
    }
}

/// Whether an entity takes part in the simulation: it does when a
/// fallback surfel spec under `_` exists, or its material has a mapped
/// surfel spec.
pub open spec fn entity_kept(e: EntityDesc, surfel_specs: Seq<(String, SurfelSpec)>) -> bool {
    assoc_contains(surfel_specs, "_"@) || assoc_contains(surfel_specs, e.material.name@)
}

/// Drops the entities whose material has no mapped surfel spec, unless a
/// fallback spec named `_` exists. This affects both surface sampling
/// and particle-intersection cost.
pub fn filter_entities(entities: Vec<EntityDesc>, surfel_specs: &Vec<(String, SurfelSpec)>) -> (r:
    Vec<EntityDesc>)
    ensures
        r@ == entities@.filter(|e: EntityDesc| entity_kept(e, surfel_specs@)),
{
    proof {
        reveal(Seq::filter);
    }
    let ghost pred = |e: EntityDesc| entity_kept(e, surfel_specs@);
    let has_fallback = match assoc_find(surfel_specs, "_") {
        Some(i) => {
            proof {
                assert(assoc_contains(surfel_specs@, "_"@));
            }
            true
        },
        None => {
            proof {
                lemma_assoc_get_absent(surfel_specs@, "_"@);
            }
            false
        },
    };
    let mut entities = entities;
    if has_fallback {
        proof {
            assert forall|i: int| 0 <= i < entities@.len() implies pred(entities@[i]) by {}
            lemma_filter_all(entities@, pred);
        }
        return entities;
    }
    let mut out: Vec<EntityDesc> = Vec::new();
    let n = entities.len();
    let mut i: usize = 0;
    while i < n
        invariant
            i <= n,
            n == entities@.len(),
            pred == (|e: EntityDesc| entity_kept(e, surfel_specs@)),
            !assoc_contains(surfel_specs@, "_"@),
            out@ == entities@.take(i as int).filter(pred),
        decreases n - i,
    {
        let kept = match assoc_find(surfel_specs, entities[i].material.name.as_str()) {
            Some(_) => {
                proof {
                    assert(assoc_contains(surfel_specs@, entities@[i as int].material.name@));
                }
                true
            },
            None => {
                proof {
                    lemma_assoc_get_absent(surfel_specs@, entities@[i as int].material.name@);
                }
                false
            },
        };
        proof {
            reveal(Seq::filter);
            assert(entities@.take(i + 1).drop_last() =~= entities@.take(i as int));
            assert(entities@.take(i + 1).last() == entities@[i as int]);
        }
        if kept {
            out.push(entities[i].clone());
        }
        i += 1;
    }
    proof {
        assert(entities@.take(n as int) =~= entities@);
    }
    out
}

/// Everything kept is the whole list.
proof fn lemma_filter_all(s: Seq<EntityDesc>, pred: spec_fn(EntityDesc) -> bool)
    requires
        forall|i: int| 0 <= i < s.len() ==> pred(s[i]),
    ensures
        s.filter(pred) == s,
    decreases s.len(),
{
    reveal(Seq::filter);
    if s.len() > 0 {
        lemma_filter_all(s.drop_last(), pred);
        assert(s.filter(pred) =~= s);
    }
}

/// The surfel spec an entity samples under: the exact material match,
/// else the fallback `_`, else none, in which case the entity is not
/// sampled.
pub open spec fn spec_surfel_spec_for(
    material_name: Seq<char>,
    surfel_specs: Seq<(String, SurfelSpec)>,
) -> Option<SurfelSpec> {
    if assoc_contains(surfel_specs, material_name) {
        match assoc_get(surfel_specs, material_name) {
            Some(s) => Some(s),
            None => None,
        }
    } else if assoc_contains(surfel_specs, "_"@) {
        match assoc_get(surfel_specs, "_"@) {
            Some(s) => Some(s),
            None => None,
        }
    } else {
        None
    }
}

/// The index of the surfel spec an entity samples under, if any.
fn surfel_spec_index_for(material_name: &str, surfel_specs: &Vec<(String, SurfelSpec)>) -> (r:
    Option<usize>)
    ensures
        match r {
            Some(i) => i < surfel_specs@.len() && spec_surfel_spec_for(material_name@, surfel_specs@)
                == Some(surfel_specs@[i as int].1),
            None => spec_surfel_spec_for(material_name@, surfel_specs@) is None,
        },
{
    match assoc_find(surfel_specs, material_name) {
        Some(i) => {
            proof {
                lemma_assoc_get_first(surfel_specs@, material_name@, i as int);
            }
            Some(i)
        },
        None => {
            proof {
                lemma_assoc_get_absent(surfel_specs@, material_name@);
            }
            match assoc_find(surfel_specs, "_") {
                Some(i) => {
                    proof {
                        lemma_assoc_get_first(surfel_specs@, "_"@, i as int);
                    }
                    Some(i)
                },
                None => {
                    proof {
                        lemma_assoc_get_absent(surfel_specs@, "_"@);
                    }
                    None
                },
            }
        },
    }
}

/// The parameters of one particle source, its per-substance vectors
/// aligned to the substance-name table; entries the spec does not give
/// default to zero. The emission mesh stays a path: its caller loads it,
/// merging a multi-mesh scene into one combined mesh.
pub struct SourceParams {
    pub mesh: String,
    pub emission_count: usize,
    pub diffuse: bool,
    pub p_straight: RealBits,
    pub p_parabolic: RealBits,
    pub p_flow: RealBits,
    pub substances: Vec<RealBits>,
    pub pickup_rates: Vec<RealBits>,
    pub interaction_radius: RealBits,
    pub parabola_height: RealBits,
    pub flow_distance: RealBits,
    pub flow_direction: Option<Vector3>,
}

/// How built source parameters relate to their spec and the
/// substance-name table.
pub open spec fn source_params_ok(
    p: SourceParams,
    s: TonSourceSpec,
    names: Seq<Seq<char>>,
) -> bool {
    &&& p.mesh@ == s.mesh@
    &&& p.emission_count == s.emission_count
    &&& p.diffuse == s.diffuse
    &&& p.p_straight == s.p_straight
    &&& p.p_parabolic == s.p_parabolic
    &&& p.p_flow == s.p_flow
    &&& p.substances.len() == names.len()
    &&& forall|j: int|
        0 <= j < names.len() ==> p.substances[j] == spec_extract(s.initial@, names[j], 0)
    &&& p.pickup_rates.len() == names.len()
    &&& forall|j: int|
        0 <= j < names.len() ==> p.pickup_rates[j] == spec_extract(s.absorb@, names[j], 0)
    &&& p.interaction_radius == s.interaction_radius
    &&& p.parabola_height == s.parabola_height
    &&& p.flow_distance == s.flow_distance
    &&& p.flow_direction == s.flow_direction
}

/// Builds the parameters of every particle source, each with its
/// initial-concentration and absorption vectors aligned to the
/// substance-name table.
pub fn build_sources(source_specs: &Vec<TonSourceSpec>, names: &Vec<String>) -> (r: Vec<
    SourceParams,
>)
    ensures
        r@.len() == source_specs@.len(),
        forall|i: int|
            0 <= i < r@.len() ==> source_params_ok(r@[i], source_specs@[i], views_of(names@)),
{
    let mut out: Vec<SourceParams> = Vec::new();
    let n = source_specs.len();
    let mut i: usize = 0;
    while i < n
        invariant
            i <= n,
            n == source_specs@.len(),
            out@.len() == i,
            forall|j: int|
                0 <= j < i ==> source_params_ok(out@[j], source_specs@[j], views_of(names@)),
        decreases n - i,
    {
        let s = &source_specs[i];
        let substances = extract_keys(&s.initial, names, 0);
        let pickup_rates = extract_keys(&s.absorb, names, 0);
        proof {
            assert forall|j: int| 0 <= j < names@.len() implies substances@[j] == spec_extract(
                s.initial@,
                views_of(names@)[j],
                0,
            ) by {
                assert(views_of(names@)[j] == names@[j]@);
            }
            assert forall|j: int| 0 <= j < names@.len() implies pickup_rates@[j] == spec_extract(
                s.absorb@,
                views_of(names@)[j],
                0,
            ) by {
                assert(views_of(names@)[j] == names@[j]@);
            }
        }
        let p = SourceParams {
            mesh: s.mesh.clone(),
            emission_count: s.emission_count,
            diffuse: s.diffuse,
            p_straight: s.p_straight,
            p_parabolic: s.p_parabolic,
            p_flow: s.p_flow,
            substances,
            pickup_rates,
            interaction_radius: s.interaction_radius,
            parabola_height: s.parabola_height,
            flow_distance: s.flow_distance,
            flow_direction: s.flow_direction,
        };
        out.push(p);
        i += 1;
    }
    out
}

/// The prototype surfel an entity is sampled with: its reflectance
/// coefficients, its concentration and deposition vectors aligned to the
/// substance-name table, and its material's rules resolved to indices.
pub struct ProtoSurfel {
    pub entity_idx: usize,
    pub delta_straight: RealBits,
    pub delta_parabolic: RealBits,
    pub delta_flow: RealBits,
    pub substances: Vec<RealBits>,
    pub deposition_rates: Vec<RealBits>,
    pub rules: Vec<SurfelRule>,
}

/// How a prototype surfel relates to the surfel spec it is built from.
pub open spec fn proto_ok(
    p: ProtoSurfel,
    entity_idx: int,
    s: SurfelSpec,
    names: Seq<Seq<char>>,
) -> bool {
    &&& p.entity_idx == entity_idx
    &&& p.delta_straight == s.reflectance.delta_straight
    &&& p.delta_parabolic == s.reflectance.delta_parabolic
    &&& p.delta_flow == s.reflectance.delta_flow
    &&& p.substances.len() == names.len()
    &&& forall|j: int|
        0 <= j < names.len() ==> p.substances[j] == spec_extract(s.initial@, names[j], 0)
    &&& p.deposition_rates.len() == names.len()
    &&& forall|j: int|
        0 <= j < names.len() ==> p.deposition_rates[j] == spec_extract(s.deposit@, names[j], 0)
    &&& p.rules.len() == s.rules.len()
    &&& forall|j: int|
        0 <= j < s.rules.len() ==> Ok::<SurfelRule, Error>(p.rules[j]) == spec_rule_by_spec(
            s.rules[j],
            names,
        )
}

/// Whether every rule of a surfel spec resolves against the table.
pub open spec fn spec_rules_resolve(s: SurfelSpec, names: Seq<Seq<char>>) -> bool {
    forall|j: int| 0 <= j < s.rules.len() ==> spec_rule_by_spec(s.rules[j], names) is Ok
}

/// Resolves every rule of one surfel spec, stopping at the first unknown
/// substance name.
fn resolve_rules(rules: &Vec<SurfelRuleSpec>, names: &Vec<String>) -> (r: Result<
    Vec<SurfelRule>,
    Error,
>)
    ensures
        match r {
            Ok(v) => v@.len() == rules@.len() && forall|j: int|
                0 <= j < rules@.len() ==> Ok::<SurfelRule, Error>(v@[j]) == spec_rule_by_spec(
                    rules@[j],
                    views_of(names@),
                ),
            Err(e) => exists|j: int|
                0 <= j < rules@.len() && spec_rule_by_spec(rules@[j], views_of(names@)) == Err::<
                    SurfelRule,
                    Error,
                >(e),
        },
{
    let mut out: Vec<SurfelRule> = Vec::new();
    let n = rules.len();
    let mut i: usize = 0;
    while i < n
        invariant
            i <= n,
            n == rules@.len(),
            out@.len() == i,
            forall|j: int|
                0 <= j < i ==> Ok::<SurfelRule, Error>(out@[j]) == spec_rule_by_spec(
                    rules@[j],
                    views_of(names@),
                ),
        decreases n - i,
    {
        match rule_by_spec(&rules[i], names) {
            Ok(rule) => {
                out.push(rule);
            },
            Err(e) => {
                return Err(e);
            },
        }
        i += 1;
    }
    Ok(out)
}

/// Builds the prototype surfel of every entity, or nothing for an entity
/// that no surfel spec covers: such an entity is not sampled. Stops at
/// the first rule that references an unknown substance name.
pub fn build_surface(
    entities: &Vec<EntityDesc>,
    surfel_specs: &Vec<(String, SurfelSpec)>,
    names: &Vec<String>,
) -> (r: Result<Vec<Option<ProtoSurfel>>, Error>)
    ensures
        match r {
            Ok(v) => v@.len() == entities@.len() && forall|i: int|
                0 <= i < entities@.len() ==> match spec_surfel_spec_for(
                    #[trigger] entities@[i].material.name@,
                    surfel_specs@,
                ) {
                    Some(s) => v@[i] is Some && proto_ok(
                        v@[i].unwrap(),
                        i,
                        s,
                        views_of(names@),
                    ),
                    None => v@[i] is None,
                },
            Err(e) => exists|i: int|
                0 <= i < entities@.len() && match spec_surfel_spec_for(
                    #[trigger] entities@[i].material.name@,
                    surfel_specs@,
                ) {
                    Some(s) => exists|j: int|
                        0 <= j < s.rules.len() && spec_rule_by_spec(s.rules[j], views_of(names@))
                            == Err::<SurfelRule, Error>(e),
                    None => false,
                },
        },
{
    let mut out: Vec<Option<ProtoSurfel>> = Vec::new();
    let n = entities.len();
    let mut i: usize = 0;
    while i < n
        invariant
            i <= n,
            n == entities@.len(),
            out@.len() == i,
            forall|k: int|
                0 <= k < i ==> match spec_surfel_spec_for(
                    #[trigger] entities@[k].material.name@,
                    surfel_specs@,
                ) {
                    Some(s) => out@[k] is Some && proto_ok(
                        out@[k].unwrap(),
                        k,
                        s,
                        views_of(names@),
                    ),
                    None => out@[k] is None,
                },
        decreases n - i,
    {
        match surfel_spec_index_for(entities[i].material.name.as_str(), surfel_specs) {
            Some(si) => {
                let s = &surfel_specs[si].1;
                let substances = extract_keys(&s.initial, names, 0);
                let deposition_rates = extract_keys(&s.deposit, names, 0);
                let rules = match resolve_rules(&s.rules, names) {
                    Ok(rules) => rules,
                    Err(e) => {
                        return Err(e);
                    },
                };
                proof {
                    assert forall|j: int|
                        0 <= j < names@.len() implies substances@[j] == spec_extract(
                        s.initial@,
                        views_of(names@)[j],
                        0,
                    ) by {
                        assert(views_of(names@)[j] == names@[j]@);
                    }
                    assert forall|j: int|
                        0 <= j < names@.len() implies deposition_rates@[j] == spec_extract(
                        s.deposit@,
                        views_of(names@)[j],
                        0,
                    ) by {
                        assert(views_of(names@)[j] == names@[j]@);
                    }
                }
                out.push(
                    Some(
                        ProtoSurfel {
                            entity_idx: i,
                            delta_straight: s.reflectance.delta_straight,
                            delta_parabolic: s.reflectance.delta_parabolic,
                            delta_flow: s.reflectance.delta_flow,
                            substances,
                            deposition_rates,
                            rules,
                        },
                    ),
                );
            },
            None => {
                out.push(None);
            },
        }
        i += 1;
    }
    Ok(out)
}

/// The transport mode a specification chooses; the default is
/// differential.
pub fn transport_mode(t: &Option<Transport>) -> (r: Transport)
    ensures
        r == match *t {
            Some(m) => m,
            None => Transport::Differential,
        },
{
    match t {
        Some(m) => *m,
        None => Transport::Differential,
    }
}

/// Whether the sampling distance is present and positive.
pub fn surfel_distance_valid(d: &Option<RealBits>) -> (r: bool)
    ensures
        r == (*d is Some && !real_le_zero(d.unwrap())),
{
    match d {
        Some(bits) => !crate::realval::is_real_le_zero(*bits),
        None => false,
    }
}

/// Everything the runner needs, computed from the resolved specification
/// and the loaded files: the filtered entity baseline, the
/// substance-name table, the source parameters, the prototype surfels,
/// the resolved specification-wide rules and the transport mode.
pub struct SimulationPlan {
    pub spec: SimulationSpec,
    pub unique_substance_names: Vec<String>,
    pub entities: Vec<EntityDesc>,
    pub sources: Vec<SourceParams>,
    pub protos: Vec<Option<ProtoSurfel>>,
    pub surfel_distance: RealBits,
    pub rules: Vec<SurfelRule>,
    pub transport: Transport,
}

/// The substance-name table of the loaded specs, at the spec level.
pub open spec fn spec_substance_names(
    surfel_specs: Seq<(String, SurfelSpec)>,
    source_specs: Seq<TonSourceSpec>,
) -> Seq<Seq<char>> {
    first_occurrences(all_substance_names(surfel_specs, source_specs))
}

/// Turns the resolved specification and the loaded files into a
/// simulation plan, validating as the pipeline requires. The checks
/// short-circuit in the order the pipeline walks its inputs: a missing
/// surfel-spec mapping, an empty particle-source list, an empty
/// substance-name table, an empty effect list, an absent or
/// non-positive sampling distance, then a rule referencing an unknown
/// substance (per-material rules first, specification-wide rules last).
/// Every failure is a distinct named error; with none, instantiation is
/// owed to succeed.
pub fn instantiate(
    spec: SimulationSpec,
    surfel_specs: Vec<(String, SurfelSpec)>,
    entities: Vec<EntityDesc>,
    source_specs: Vec<TonSourceSpec>,
) -> (r: Result<SimulationPlan, Error>)
    ensures
        ({
            let names = spec_substance_names(surfel_specs@, source_specs@);
            let kept = entities@.filter(|e: EntityDesc| entity_kept(e, surfel_specs@));
            if surfel_specs@.len() == 0 {
                r == Err::<SimulationPlan, Error>(Error::SurfelSpecsMissing)
            } else if source_specs@.len() == 0 {
                r == Err::<SimulationPlan, Error>(Error::SourcesMissing)
            } else if names.len() == 0 {
                r == Err::<SimulationPlan, Error>(Error::SubstancesMissing)
            } else if spec.effects@.len() == 0 {
                r == Err::<SimulationPlan, Error>(Error::EffectsMissing)
            } else if !(spec.surfel_distance is Some && !real_le_zero(
                spec.surfel_distance.unwrap(),
            )) {
                r == Err::<SimulationPlan, Error>(
                    Error::InvalidSurfelDistance(spec.surfel_distance),
                )
            } else {
                match r {
                    Ok(plan) => {
                        &&& plan.spec == spec
                        &&& views_of(plan.unique_substance_names@) == names
                        &&& plan.entities@ == kept
                        &&& plan.sources@.len() == source_specs@.len()
                        &&& forall|i: int|
                            0 <= i < source_specs@.len() ==> source_params_ok(
                                #[trigger] plan.sources@[i],
                                source_specs@[i],
                                names,
                            )
                        &&& plan.protos@.len() == kept.len()
                        &&& forall|i: int|
                            0 <= i < kept.len() ==> match spec_surfel_spec_for(
                                #[trigger] kept[i].material.name@,
                                surfel_specs@,
                            ) {
                                Some(s) => plan.protos@[i] is Some && proto_ok(
                                    plan.protos@[i].unwrap(),
                                    i,
                                    s,
                                    names,
                                ),
                                None => plan.protos@[i] is None,
                            }
                        &&& plan.surfel_distance == spec.surfel_distance.unwrap()
                        &&& plan.rules@.len() == spec.rules@.len()
                        &&& forall|j: int|
                            0 <= j < spec.rules@.len() ==> Ok::<SurfelRule, Error>(
                                #[trigger] plan.rules@[j],
                            ) == spec_rule_by_spec(spec.rules@[j], names)
                        &&& plan.transport == match spec.transport {
                            Some(m) => m,
                            None => Transport::Differential,
                        }
                    },
                    Err(e) => e matches Error::UnknownSubstanceName(_) && ((exists|i: int|
                        0 <= i < kept.len() && match spec_surfel_spec_for(
                            #[trigger] kept[i].material.name@,
                            surfel_specs@,
                        ) {
                            Some(s) => exists|j: int|
                                0 <= j < s.rules.len() && spec_rule_by_spec(s.rules[j], names)
                                    == Err::<SurfelRule, Error>(e),
                            None => false,
                        }) || (exists|j: int|
                        0 <= j < spec.rules@.len() && spec_rule_by_spec(
                            #[trigger] spec.rules@[j],
                            names,
                        ) == Err::<SurfelRule, Error>(e))),
                }
            }
        }),
{
    if surfel_specs.len() == 0 {
        return Err(Error::SurfelSpecsMissing);
    }
    if source_specs.len() == 0 {
        return Err(Error::SourcesMissing);
    }
    let unique_names = unique_substance_names(&surfel_specs, &source_specs);
    if unique_names.len() == 0 {
        proof {
            assert(views_of(unique_names@).len() == 0);
        }
        return Err(Error::SubstancesMissing);
    }
    proof {
        assert(views_of(unique_names@).len() == unique_names@.len());
    }
    if spec.effects.len() == 0 {
        return Err(Error::EffectsMissing);
    }
    let sources = build_sources(&source_specs, &unique_names);
    let distance = if surfel_distance_valid(&spec.surfel_distance) {
        match &spec.surfel_distance {
            Some(d) => *d,
            None => 0,
        }
    } else {
        return Err(Error::InvalidSurfelDistance(spec.surfel_distance));
    };
    let kept = filter_entities(entities, &surfel_specs);
    let protos = match build_surface(&kept, &surfel_specs, &unique_names) {
        Ok(protos) => protos,
        Err(e) => {
            return Err(e);
        },
    };
    let rules = match resolve_rules(&spec.rules, &unique_names) {
        Ok(rules) => rules,
        Err(e) => {
            return Err(e);
        },
    };
    let transport = transport_mode(&spec.transport);
    Ok(
        SimulationPlan {
            spec,
            unique_substance_names: unique_names,
            entities: kept,
            sources,
            protos,
            surfel_distance: distance,
            rules,
            transport,
        },
    )
}

} // verus!
