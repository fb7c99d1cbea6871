//! The dependency map: the name-to-version mapping accumulated while
//! resolving an install. Keys are unique; a second write to the same
//! name overwrites the first (last write wins); entries are never
//! removed once added. The entries are kept in a deterministic order
//! so that the phases that walk the map are reproducible.
use vstd::prelude::*;

verus! {

/// The mapping described by an association list: later entries win.
pub open spec fn map_of(s: Seq<(Seq<char>, Seq<char>)>) -> Map<Seq<char>, Seq<char>>
    decreases s.len(),
{
    if s.len() == 0 {
        Map::empty()
    } else {
        map_of(s.drop_last()).insert(s.last().0, s.last().1)
    }
}

pub proof fn lemma_map_of_contains(s: Seq<(Seq<char>, Seq<char>)>, k: Seq<char>)
    ensures
        map_of(s).contains_key(k) <==> (exists|i: int| 0 <= i < s.len() && s[i].0 == k),
    decreases s.len(),
{
    if s.len() > 0 {
        lemma_map_of_contains(s.drop_last(), k);
        if s.last().0 == k {
            assert(s[s.len() - 1].0 == k);
        } else {
            if exists|i: int| 0 <= i < s.len() && s[i].0 == k {
                let i = choose|i: int| 0 <= i < s.len() && s[i].0 == k;
                assert(s.drop_last()[i].0 == k);
            }
        }
    }
}

pub proof fn lemma_map_of_get(s: Seq<(Seq<char>, Seq<char>)>, i: int)
    requires
        0 <= i < s.len(),
        forall|p: int, q: int| 0 <= p < q < s.len() ==> s[p].0 != s[q].0,
    ensures
        map_of(s).contains_key(s[i].0),
        map_of(s)[s[i].0] == s[i].1,
    decreases s.len(),
{
    if i < s.len() - 1 {
        lemma_map_of_get(s.drop_last(), i);
        assert(s.drop_last()[i] == s[i]);
        assert(s.last().0 != s[i].0);
    }
}

pub proof fn lemma_map_of_update(s: Seq<(Seq<char>, Seq<char>)>, i: int, v: Seq<char>)
    requires
        0 <= i < s.len(),
        forall|p: int, q: int| 0 <= p < q < s.len() ==> s[p].0 != s[q].0,
    ensures
        map_of(s.update(i, (s[i].0, v))) == map_of(s).insert(s[i].0, v),
    decreases s.len(),
{
    let k = s[i].0;
    let t = s.update(i, (k, v));
    if i == s.len() - 1 {
        assert(t.drop_last() =~= s.drop_last());
        assert(t.last() == (k, v));
        assert(map_of(s).insert(k, v) =~= map_of(s.drop_last()).insert(k, v));
    } else {
        lemma_map_of_update(s.drop_last(), i, v);
        assert(t.drop_last() =~= s.drop_last().update(i, (k, v)));
        assert(t.last() == s.last());
        assert(s.last().0 != k);
        assert(map_of(s.drop_last()).insert(k, v).insert(s.last().0, s.last().1) =~= map_of(
            s.drop_last(),
        ).insert(s.last().0, s.last().1).insert(k, v));
    }
}

pub proof fn lemma_map_of_remove(s: Seq<(Seq<char>, Seq<char>)>, i: int)
    requires
        0 <= i < s.len(),
        forall|p: int, q: int| 0 <= p < q < s.len() ==> s[p].0 != s[q].0,
    ensures
        map_of(s.remove(i)) == map_of(s).remove(s[i].0),
    decreases s.len(),
{
    let k = s[i].0;
    if i == s.len() - 1 {
        assert(s.remove(i) =~= s.drop_last());
        lemma_map_of_contains(s.drop_last(), k);
        assert(map_of(s).remove(k) =~= map_of(s.drop_last()));
    } else {
        lemma_map_of_remove(s.drop_last(), i);
        assert(s.remove(i).drop_last() =~= s.drop_last().remove(i));
        assert(s.remove(i).last() == s.last());
        assert(s.last().0 != k);
        assert(map_of(s.drop_last()).remove(k).insert(s.last().0, s.last().1) =~= map_of(
            s.drop_last(),
        ).insert(s.last().0, s.last().1).remove(k));
    }
}

/// Law: writing a version for a package and then another version for
/// the same package leaves the map as if only the second write had
/// happened (last write wins).
pub proof fn lemma_last_write_wins(
    m: Map<Seq<char>, Seq<char>>,
    k: Seq<char>,
    v1: Seq<char>,
    v2: Seq<char>,
)
    ensures
        m.insert(k, v1).insert(k, v2) == m.insert(k, v2),
{
    assert(m.insert(k, v1).insert(k, v2) =~= m.insert(k, v2));
}

/// The resolved name-to-version mapping, with its entries in a fixed
/// deterministic order: a fresh name goes to the end, an overwrite
/// stays in place.
pub struct DepMap {
    entries: Vec<(String, String)>,
}

impl View for DepMap {
    type V = Map<Seq<char>, Seq<char>>;

    closed spec fn view(&self) -> Map<Seq<char>, Seq<char>> {
        map_of(self.order())
    }
}

impl DepMap {
    /// The entries as a sequence, in the order the phases walk them.
    pub closed spec fn order(&self) -> Seq<(Seq<char>, Seq<char>)> {
        self.entries@.map(|i: int, p: (String, String)| (p.0@, p.1@))
    }

    /// Key uniqueness: every package name appears at most once.
    pub open spec fn wf(&self) -> bool {
        forall|i: int, j: int| 0 <= i < j < self.order().len() ==> self.order()[i].0
            != self.order()[j].0
    }

    pub fn new() -> (r: DepMap)
        ensures
            r.wf(),
            r@ == Map::<Seq<char>, Seq<char>>::empty(),
            r.order() == Seq::<(Seq<char>, Seq<char>)>::empty(),
    {
        let r = DepMap { entries: Vec::new() };
        proof {
            assert(r.order() =~= Seq::<(Seq<char>, Seq<char>)>::empty());
        }
        r
    }

    pub fn len(&self) -> (r: usize)
        ensures
            r == self.order().len(),
    {
        self.entries.len()
    }

    /// The entry at a position of the deterministic order.
    pub fn entry_at(&self, i: usize) -> (r: (String, String))
        requires
            i < self.order().len(),
        ensures
            (r.0@, r.1@) == self.order()[i as int],
    {
        let name = self.entries[i].0.clone();
        let version = self.entries[i].1.clone();
        (name, version)
    }

    /// Adds or overwrites the version resolved for a package: the map
    /// afterwards holds exactly the old entries plus this one, with
    /// the new version winning on a collision. No entry is removed.
    pub fn insert(&mut self, name: String, version: String)
        requires
            old(self).wf(),
        ensures
            final(self).wf(),
            final(self)@ == old(self)@.insert(name@, version@),
            old(self)@.contains_key(name@) ==> final(self).order().len() == old(
                self,
            ).order().len(),
            !old(self)@.contains_key(name@) ==> final(self).order() == old(self).order().push(
                (name@, version@),
            ),
    {
        let n = self.entries.len();
        let mut i: usize = 0;
        while i < n
            invariant
                n == self.entries@.len(),
                0 <= i <= n,
                *self == *old(self),
                old(self).wf(),
                forall|j: int| 0 <= j < i ==> self.order()[j].0 != name@,
            decreases n - i,
        {
            if self.entries[i].0 == name {
                proof {
                    assert(self.order()[i as int].0 == name@);
                    lemma_map_of_update(self.order(), i as int, version@);
                    lemma_map_of_contains(self.order(), name@);
                }
                self.entries[i] = (name, version);
                proof {
                    let s0 = old(self).order();
                    assert(self.order() =~= s0.update(i as int, (s0[i as int].0, version@)));
                    assert(self@ =~= old(self)@.insert(name@, version@));
                }
                return ;
            }
            i += 1;
        }
        proof {
            lemma_map_of_contains(self.order(), name@);
            assert(!old(self)@.contains_key(name@));
        }
        self.entries.push((name, version));
        proof {
            let s0 = old(self).order();
            assert(self.order() =~= s0.push((name@, version@)));
            assert(self.order().drop_last() =~= s0);
            assert(self@ =~= old(self)@.insert(name@, version@));
        }
    }

    /// Looks a package up: `Some` exactly when the map holds it, with
    /// the version recorded for it.
    pub fn get(&self, name: &String) -> (r: Option<String>)
        requires
            self.wf(),
        ensures
            match r {
                Some(v) => self@.contains_key(name@) && v@ == self@[name@],
                None => !self@.contains_key(name@),
            },
    {
        let n = self.entries.len();
        let mut i: usize = 0;
        while i < n
            invariant
                n == self.entries@.len(),
                0 <= i <= n,
                self.wf(),
                forall|j: int| 0 <= j < i ==> self.order()[j].0 != name@,
            decreases n - i,
        {
            if self.entries[i].0 == *name {
                proof {
                    assert(self.order()[i as int].0 == name@);
                    lemma_map_of_get(self.order(), i as int);
                }
                return Some(self.entries[i].1.clone());
            }
            i += 1;
        }
        proof {
            lemma_map_of_contains(self.order(), name@);
        }
        None
    }

    /// An identical copy: same mapping, same order.
    pub fn duplicate(&self) -> (r: DepMap)
        ensures
            r.order() == self.order(),
            r@ == self@,
            r.wf() <==> self.wf(),
    {
        let n = self.entries.len();
        let mut entries: Vec<(String, String)> = Vec::new();
        let mut i: usize = 0;
        while i < n
            invariant
                n == self.entries@.len(),
                0 <= i <= n,
                entries@.len() == i,
                forall|j: int| 0 <= j < i ==> entries@[j] == self.entries@[j],
            decreases n - i,
        {
            let name = self.entries[i].0.clone();
            let version = self.entries[i].1.clone();
            entries.push((name, version));
            i += 1;
        }
        let r = DepMap { entries };
        proof {
            assert(r.entries@ =~= self.entries@);
            assert(r.order() =~= self.order());
        }
        r
    }
}

} // verus!
