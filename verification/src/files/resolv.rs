use vstd::prelude::*;

use crate::strings::{str_eq, views_of};

verus! {

/// Why a search path or base path could not be handled.
#[derive(Debug)]
pub enum ResolveError {
    /// An empty path was handed to `add_base`.
    EmptyBasePath,
    /// An empty path was handed to `resolve`.
    EmptySearchPath,
    /// A base path could not be brought into canonical form.
    InaccessibleBasePath { base_path: String },
    /// The search path was neither absolute and existing nor found in any
    /// of the base paths.
    NotFound { search_path: String, bases: Vec<String> },
}

/// Resolves relative and absolute filenames against an ordered list of
/// base directories.
///
/// The resolver decides which paths to try and in which order, and which
/// outcome wins; probing the filesystem itself (canonicalizing a
/// candidate, which also checks existence) is its caller's part. A lookup
/// therefore runs in two steps: `candidates` lists the paths to probe,
/// and `resolve` picks the first probe that succeeded.
pub struct Resolver {
    bases: Vec<String>,
}

/// Whether the path starts with a root separator.
pub open spec fn spec_is_absolute(s: Seq<char>) -> bool {
    s.len() > 0 && s[0] == '/'
}

/// The path without its leading root separators.
pub open spec fn strip_roots(s: Seq<char>) -> Seq<char>
    decreases s.len(),
{
    if s.len() > 0 && s[0] == '/' {
        strip_roots(s.skip(1))
    } else {
        s
    }
}

/// A base directory joined with a relative path.
pub open spec fn join_base(base: Seq<char>, rel: Seq<char>) -> Seq<char> {
    base + seq!['/'] + rel
}

/// The paths that a lookup probes, in order: the search path itself if it
/// is absolute, then the search path relative to each base in
/// registration order. An absolute search path falls back to the bases as
/// pseudo-roots, with its root separators dropped.
pub open spec fn spec_candidates(bases: Seq<Seq<char>>, search: Seq<char>) -> Seq<Seq<char>> {
    let rel = if spec_is_absolute(search) {
        strip_roots(search)
    } else {
        search
    };
    let from_bases = bases.map_values(|b: Seq<char>| join_base(b, rel));
    if spec_is_absolute(search) {
        seq![search] + from_bases
    } else {
        from_bases
    }
}

proof fn lemma_strip_roots(s: Seq<char>, a: int)
    requires
        0 <= a <= s.len(),
        forall|k: int| 0 <= k < a ==> s[k] == '/',
        a == s.len() || s[a] != '/',
    ensures
        strip_roots(s) == s.subrange(a, s.len() as int),
    decreases a,
{
    if a == 0 {
        assert(s.subrange(0, s.len() as int) =~= s);
    } else {
        lemma_strip_roots(s.skip(1), a - 1);
        assert(s.skip(1).subrange(a - 1, s.skip(1).len() as int) =~= s.subrange(
            a,
            s.len() as int,
        ));
    }
}

impl Resolver {
    /// The registered base directories, in order, as character sequences.
    pub closed spec fn bases_view(&self) -> Seq<Seq<char>> {
        views_of(self.bases@)
    }

    pub fn new() -> (r: Self)
        ensures
            r.bases_view() =~= Seq::<Seq<char>>::empty(),
    {
        Resolver { bases: Vec::new() }
    }

    /// Adds a base directory, already in canonical form, for later
    /// lookups. A base that is already registered is not added again; a
    /// new one is appended with the least priority. An empty base is
    /// rejected.
    pub fn add_base(&mut self, base: String) -> (r: Result<(), ResolveError>)
        ensures
            match r {
                Ok(()) => base@.len() > 0 && (if old(self).bases_view().contains(base@) {
                    final (self).bases_view() == old(self).bases_view()
                } else {
                    final (self).bases_view() =~= old(self).bases_view().push(base@)
                }),
                Err(e) => e == ResolveError::EmptyBasePath && base@.len() == 0 && *final (self)
                    == *old(self),
            },
    {
        let blen = base.as_str().unicode_len();
        if blen == 0 {
            return Err(ResolveError::EmptyBasePath);
        }
        proof {
            assert(base@.len() > 0);
        }
        let n = self.bases.len();
        let mut i: usize = 0;
        while i < n
            invariant
                i <= n,
                n == self.bases@.len(),
                base@.len() > 0,
                forall|j: int| 0 <= j < i ==> self.bases@[j]@ != base@,
            decreases n - i,
        {
            if str_eq(self.bases[i].as_str(), base.as_str()) {
                proof {
                    assert(self.bases_view()[i as int] == base@);
                    assert(self.bases_view().contains(base@));
                }
                return Ok(());
            }
            i += 1;
        }
        proof {
            assert forall|j: int| 0 <= j < self.bases_view().len() implies self.bases_view()[j]
                != base@ by {
                assert(self.bases_view()[j] == self.bases@[j]@);
            }
        }
        let ghost pre = self.bases@;
        self.bases.push(base);
        proof {
            assert(self.bases_view() =~= views_of(pre).push(self.bases@[pre.len() as int]@));
        }
        Ok(())
    }

    /// The paths a lookup of `search_path` probes, in order. An empty
    /// search path is rejected.
    #[verifier::rlimit(50)]
    pub fn candidates(&self, search_path: &str) -> (r: Result<Vec<String>, ResolveError>)
        ensures
            match r {
                Ok(v) => search_path@.len() > 0 && views_of(v@) == spec_candidates(
                    self.bases_view(),
                    search_path@,
                ),
                Err(e) => e == ResolveError::EmptySearchPath && search_path@.len() == 0,
            },
    {
        let len = search_path.unicode_len();
        if len == 0 {
            return Err(ResolveError::EmptySearchPath);
        }
        let absolute = search_path.get_char(0) == '/';
        let mut a: usize = 0;
        while a < len && search_path.get_char(a) == '/'
            invariant
                a <= len,
                len == search_path@.len(),
                forall|k: int| 0 <= k < a ==> search_path@[k] == '/',
            decreases len - a,
        {
            a += 1;
        }
        proof {
            lemma_strip_roots(search_path@, a as int);
        }
        let rel = if absolute {
            search_path.substring_char(a, len)
        } else {
            search_path.substring_char(0, len)
        };
        let mut out: Vec<String> = Vec::new();
        if absolute {
            out.push(search_path.to_owned());
        }
        let ghost head_len: int = if absolute {
            1
        } else {
            0
        };
        let n = self.bases.len();
        let mut i: usize = 0;
        while i < n
            invariant
                i <= n,
                n == self.bases@.len(),
                rel@ == if spec_is_absolute(search_path@) {
                    strip_roots(search_path@)
                } else {
                    search_path@
                },
                head_len == if spec_is_absolute(search_path@) {
                    1int
                } else {
                    0int
                },
                out@.len() == head_len + i,
                head_len == 1 ==> out@[0]@ == search_path@,
                forall|j: int|
                    0 <= j < i ==> out@[head_len + j]@ == join_base(self.bases@[j]@, rel@),
            decreases n - i,
        {
            let mut joined = self.bases[i].clone();
            joined.append("/");
            joined.append(rel);
            proof {
                reveal_strlit("/");
                assert("/"@ =~= seq!['/']);
                assert(joined@ == join_base(self.bases@[i as int]@, rel@));
            }
            out.push(joined);
            i += 1;
        }
        proof {
            let cands = spec_candidates(self.bases_view(), search_path@);
            assert(views_of(out@).len() == cands.len());
            assert forall|k: int| 0 <= k < cands.len() implies views_of(out@)[k] == cands[k] by {
                if k >= head_len {
                    assert(self.bases_view()[k - head_len] == self.bases@[k - head_len]@);
                    assert(out@[k]@ == join_base(self.bases@[k - head_len]@, rel@));
                }
            }
            assert(views_of(out@) =~= cands);
        }
        Ok(out)
    }

    /// Picks the outcome of a lookup: `canonical` holds, for each path
    /// that `candidates` listed, the canonical form the filesystem gave
    /// it, or nothing where the path does not exist. The first existing
    /// candidate wins; an empty search path is rejected; when nothing
    /// exists the lookup reports the search path and the bases it tried.
    pub fn resolve(&self, search_path: &str, canonical: &Vec<Option<String>>) -> (r: Result<
        String,
        ResolveError,
    >)
        requires
            search_path@.len() > 0 ==> canonical@.len() == spec_candidates(
                self.bases_view(),
                search_path@,
            ).len(),
        ensures
            match r {
                Ok(p) => exists|i: int|
                    0 <= i < canonical@.len() && canonical@[i] == Some(p) && (forall|j: int|
                        0 <= j < i ==> canonical@[j] is None),
                Err(e) => match e {
                    ResolveError::EmptySearchPath => search_path@.len() == 0,
                    ResolveError::NotFound { search_path: sp, bases } => search_path@.len() > 0
                        && sp@ == search_path@ && views_of(bases@) == self.bases_view() && forall|
                        j: int,
                    | 0 <= j < canonical@.len() ==> canonical@[j] is None,
                    _ => false,
                },
            },
    {
        let len = search_path.unicode_len();
        if len == 0 {
            return Err(ResolveError::EmptySearchPath);
        }
        let n = canonical.len();
        let mut i: usize = 0;
        while i < n
            invariant
                i <= n,
                n == canonical@.len(),
                forall|j: int| 0 <= j < i ==> canonical@[j] is None,
            decreases n - i,
        {
            match &canonical[i] {
                Some(p) => {
                    let found = p.clone();
                    proof {
                        assert(canonical@[i as int] == Some(found));
                    }
                    return Ok(found);
                },
                None => {},
            }
            i += 1;
        }
        Err(
            ResolveError::NotFound {
                search_path: search_path.to_owned(),
                bases: crate::strings::clone_string_vec(&self.bases),
            },
        )
    }
}

} // verus!
