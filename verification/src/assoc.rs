//! Association lists keyed by strings.
//!
//! The declarative specifications carry name-to-value mappings (material
//! name to surfel-spec path, substance name to concentration). They are
//! modeled as ordered lists of pairs looked up by the first matching key,
//! which keeps iteration order deterministic; where a mapping must not
//! hold a key twice, well-formedness says so.

use vstd::prelude::*;

use crate::strings::str_eq;

verus! {

/// Per-substance values keyed by substance name, in declaration order.
pub type SubstanceMap = Vec<(String, crate::realval::RealBits)>;

/// The value under the first entry whose key reads `k`, if any.
pub open spec fn assoc_get<V>(s: Seq<(String, V)>, k: Seq<char>) -> Option<V>
    decreases s.len(),
{
    if s.len() == 0 {
        None
    } else if s[0].0@ == k {
        Some(s[0].1)
    } else {
        assoc_get(s.skip(1), k)
    }
}

/// Whether some entry has a key that reads `k`.
pub open spec fn assoc_contains<V>(s: Seq<(String, V)>, k: Seq<char>) -> bool {
    exists|i: int| 0 <= i < s.len() && s[i].0@ == k
}

/// The keys of the entries, in order, as character sequences.
pub open spec fn assoc_keys<V>(s: Seq<(String, V)>) -> Seq<Seq<char>> {
    s.map_values(|p: (String, V)| p.0@)
}

/// No two entries share a key.
pub open spec fn assoc_wf<V>(s: Seq<(String, V)>) -> bool {
    forall|i: int, j: int| 0 <= i < j < s.len() ==> s[i].0@ != s[j].0@
}

/// If `i` is the first index whose key reads `k`, the lookup returns the
/// value stored there.
pub proof fn lemma_assoc_get_first<V>(s: Seq<(String, V)>, k: Seq<char>, i: int)
    requires
        0 <= i < s.len(),
        s[i].0@ == k,
        forall|j: int| 0 <= j < i ==> s[j].0@ != k,
    ensures
        assoc_contains(s, k),
        assoc_get(s, k) == Some(s[i].1),
    decreases i,
{
    if i > 0 {
        lemma_assoc_get_first(s.skip(1), k, i - 1);
    }
}

/// A key under which no entry stands looks up to nothing.
pub proof fn lemma_assoc_get_absent<V>(s: Seq<(String, V)>, k: Seq<char>)
    requires
        forall|j: int| 0 <= j < s.len() ==> s[j].0@ != k,
    ensures
        !assoc_contains(s, k),
        assoc_get(s, k) == None::<V>,
    decreases s.len(),
{
    if s.len() > 0 {
        lemma_assoc_get_absent(s.skip(1), k);
    }
}

/// Replacing the entry at `i` by one with the same key leaves lookups of
/// other keys unchanged.
pub proof fn lemma_assoc_get_update_other<V>(s: Seq<(String, V)>, i: int, e: (String, V), k: Seq<
    char,
>)
    requires
        0 <= i < s.len(),
        e.0@ == s[i].0@,
        k != e.0@,
    ensures
        assoc_get(s.update(i, e), k) == assoc_get(s, k),
    decreases i,
{
    if i == 0 {
        assert(s.update(0, e).skip(1) =~= s.skip(1));
    } else {
        assert(s.update(i, e).skip(1) =~= s.skip(1).update(i - 1, e));
        lemma_assoc_get_update_other(s.skip(1), i - 1, e, k);
    }
}

/// Appending an entry leaves lookups of present keys unchanged; a lookup
/// of the appended key finds the old value first if the key was present,
/// else the new value.
pub proof fn lemma_assoc_get_push<V>(s: Seq<(String, V)>, e: (String, V), k: Seq<char>)
    ensures
        assoc_contains(s, k) ==> assoc_get(s.push(e), k) == assoc_get(s, k),
        !assoc_contains(s, k) && e.0@ == k ==> assoc_get(s.push(e), k) == Some(e.1),
        !assoc_contains(s, k) && e.0@ != k ==> assoc_get(s.push(e), k) == None::<V>,
    decreases s.len(),
{
    if s.len() == 0 {
        assert(s.push(e)[0] == e);
        assert(s.push(e).skip(1) =~= Seq::<(String, V)>::empty());
        assert(assoc_get(Seq::<(String, V)>::empty(), k) == None::<V>);
    } else {
        assert(s.push(e)[0] == s[0]);
        assert(s.push(e).skip(1) =~= s.skip(1).push(e));
        lemma_assoc_get_push(s.skip(1), e, k);
        if s[0].0@ == k {
            assert(0 <= 0 < s.len() && s[0].0@ == k);
            assert(assoc_contains(s, k));
        } else {
            if assoc_contains(s, k) {
                let i = choose|i: int| 0 <= i < s.len() && s[i].0@ == k;
                assert(s.skip(1)[i - 1].0@ == k);
            }
            if assoc_contains(s.skip(1), k) {
                let i = choose|i: int| 0 <= i < s.skip(1).len() && s.skip(1)[i].0@ == k;
                assert(s[i + 1].0@ == k);
            }
            if !assoc_contains(s, k) {
                assert forall|i: int| 0 <= i < s.skip(1).len() implies s.skip(1)[i].0@ != k by {
                    assert(s.skip(1)[i] == s[i + 1]);
                }
            }
        }
    }
}

/// The index of the first entry whose key reads the same as `k`, if any.
pub fn assoc_find<V>(s: &Vec<(String, V)>, k: &str) -> (r: Option<usize>)
    ensures
        match r {
            Some(i) => i < s@.len() && s@[i as int].0@ == k@ && forall|j: int|
                0 <= j < i ==> s@[j].0@ != k@,
            None => forall|j: int| 0 <= j < s@.len() ==> s@[j].0@ != k@,
        },
{
    let n = s.len();
    let mut i: usize = 0;
    while i < n
        invariant
            i <= n,
            n == s@.len(),
            forall|j: int| 0 <= j < i ==> s@[j].0@ != k@,
        decreases n - i,
    {
        if str_eq(s[i].0.as_str(), k) {
            return Some(i);
        }
        i += 1;
    }
    None
}

} // verus!
