//! Building the flattened name-to-version map: the direct
//! dependencies and dev-dependencies of the seed package, plus
//! exactly one further hop of transitivity. The registry manifests
//! are handed in as plain values; fetching them is the caller's work.
use vstd::prelude::*;

use crate::constraint::normalize;
use crate::constraint::normalize_spec;
use crate::dep_map::DepMap;

verus! {

/// The name-and-constraint pairs of a table, as sequences of
/// characters.
pub open spec fn pairs_view(v: Seq<(String, String)>) -> Seq<(Seq<char>, Seq<char>)> {
    v.map(|i: int, p: (String, String)| (p.0@, p.1@))
}

/// The per-version package metadata that the registry serves: the
/// package's own dependency and dev-dependency tables, each a list of
/// (name, constraint) pairs.
#[derive(Debug, PartialEq, Eq)]
pub struct Manifest {
    pub dependencies: Vec<(String, String)>,
    pub dev_dependencies: Vec<(String, String)>,
}

impl Manifest {
    pub open spec fn deps_view(&self) -> Seq<(Seq<char>, Seq<char>)> {
        pairs_view(self.dependencies@)
    }

    pub open spec fn dev_view(&self) -> Seq<(Seq<char>, Seq<char>)> {
        pairs_view(self.dev_dependencies@)
    }
}

/// What one fetch of a manifest came back with. A failed fetch
/// (absent package or transport failure) is non-fatal: the entry
/// contributes nothing and resolution goes on.
pub enum ManifestFetch {
    Fetched(Manifest),
    Missing,
}

/// Folding a table of (name, constraint) pairs into a map: each
/// constraint is normalized and written under its name, a later
/// write overwriting an earlier one.
pub open spec fn merge_normalized(
    m: Map<Seq<char>, Seq<char>>,
    entries: Seq<(Seq<char>, Seq<char>)>,
) -> Map<Seq<char>, Seq<char>>
    decreases entries.len(),
{
    if entries.len() == 0 {
        m
    } else {
        merge_normalized(m, entries.drop_last()).insert(
            entries.last().0,
            normalize_spec(entries.last().1),
        )
    }
}

/// What the whole map looks like after the first `n` fetched
/// manifests have had their dependency tables merged in.
pub open spec fn expand_fold(
    m: Map<Seq<char>, Seq<char>>,
    fetched: Seq<ManifestFetch>,
    n: int,
) -> Map<Seq<char>, Seq<char>>
    decreases n,
{
    if n <= 0 {
        m
    } else {
        let prev = expand_fold(m, fetched, n - 1);
        match fetched[n - 1] {
            ManifestFetch::Fetched(man) => merge_normalized(prev, man.deps_view()),
            ManifestFetch::Missing => prev,
        }
    }
}

/// Merges one table of (name, constraint) pairs into the map,
/// normalizing every constraint.
pub fn merge_table(map: &mut DepMap, entries: &Vec<(String, String)>)
    requires
        old(map).wf(),
    ensures
        final(map).wf(),
        final(map)@ == merge_normalized(old(map)@, pairs_view(entries@)),
{
    let n = entries.len();
    let mut i: usize = 0;
    while i < n
        invariant
            n == entries@.len(),
            0 <= i <= n,
            map.wf(),
            map@ == merge_normalized(old(map)@, pairs_view(entries@).take(i as int)),
        decreases n - i,
    {
        let name = entries[i].0.clone();
        let version = normalize(entries[i].1.as_str());
        map.insert(name, version);
        proof {
            let t = pairs_view(entries@);
            assert(t.take(i + 1).drop_last() =~= t.take(i as int));
            assert(t.take(i + 1).last() == t[i as int]);
        }
        i += 1;
    }
    proof {
        assert(pairs_view(entries@).take(n as int) =~= pairs_view(entries@));
    }
}

/// Fetches nothing itself: given the manifest of a (name, version)
/// pair, returns the union of its dependency and dev-dependency
/// tables as one map, every constraint normalized. On a name found
/// in both tables the dev-dependency constraint wins, as the tables
/// are merged in that order.
pub fn collect_dependencies(manifest: &Manifest) -> (r: DepMap)
    ensures
        r.wf(),
        r@ == merge_normalized(
            merge_normalized(Map::<Seq<char>, Seq<char>>::empty(), manifest.deps_view()),
            manifest.dev_view(),
        ),
{
    let mut r = DepMap::new();
    merge_table(&mut r, &manifest.dependencies);
    merge_table(&mut r, &manifest.dev_dependencies);
    r
}

/// The one extra hop: for every entry of the map (in map order), the
/// caller has fetched that package's own manifest; each fetched
/// manifest's dependency table (dev-dependencies do not travel) is
/// merged into a copy of the map, overwrite-on-collision. A failed
/// fetch contributes nothing and excludes nothing else: the original
/// entries all stay. Grandchildren are not recursed into.
pub fn expand_one_level(map: &DepMap, fetched: &Vec<ManifestFetch>) -> (r: DepMap)
    requires
        map.wf(),
        fetched@.len() == map.order().len(),
    ensures
        r.wf(),
        r@ == expand_fold(map@, fetched@, fetched@.len() as int),
{
    let mut r = map.duplicate();
    let n = fetched.len();
    let mut i: usize = 0;
    while i < n
        invariant
            n == fetched@.len(),
            0 <= i <= n,
            r.wf(),
            r@ == expand_fold(map@, fetched@, i as int),
        decreases n - i,
    {
        match &fetched[i] {
            ManifestFetch::Fetched(man) => {
                merge_table(&mut r, &man.dependencies);
            },
            ManifestFetch::Missing => {},
        }
        i += 1;
    }
    r
}

/// Law: a package with empty dependency tables collects to the empty
/// map.
pub proof fn lemma_collect_empty(manifest: Manifest)
    requires
        manifest.dependencies@.len() == 0,
        manifest.dev_dependencies@.len() == 0,
    ensures
        merge_normalized(
            merge_normalized(Map::<Seq<char>, Seq<char>>::empty(), manifest.deps_view()),
            manifest.dev_view(),
        ) == Map::<Seq<char>, Seq<char>>::empty(),
{
}

/// Law: the extra expansion hop is a no-op when every fetched
/// manifest declares no dependencies of its own.
pub proof fn lemma_expand_no_op(m: Map<Seq<char>, Seq<char>>, fetched: Seq<ManifestFetch>, n: int)
    requires
        0 <= n <= fetched.len(),
        forall|i: int|
            0 <= i < fetched.len() ==> (#[trigger] fetched[i] matches ManifestFetch::Fetched(man)
                ==> man.dependencies@.len() == 0),
    ensures
        expand_fold(m, fetched, n) == m,
    decreases n,
{
    if n > 0 {
        lemma_expand_no_op(m, fetched, n - 1);
    }
}

} // verus!
