//! The map from column family names to engine handles that a database keeps.
use vstd::prelude::*;

use crate::column_family::{AsColumnFamilyRef, ColumnFamily};

verus! {

/// The map that a list of (name, handle) pairs builds when each pair is
/// inserted in turn: a later pair replaces an earlier one of the same name.
pub open spec fn map_of_pairs(p: Seq<(Seq<char>, u64)>) -> Map<Seq<char>, u64>
    decreases p.len(),
{
    if p.len() == 0 {
        Map::empty()
    } else {
        map_of_pairs(p.drop_last()).insert(p.last().0, p.last().1)
    }
}

/// No name occurs twice in `p`.
pub open spec fn unique_names(p: Seq<(Seq<char>, u64)>) -> bool {
    forall|i: int, j: int| 0 <= i < j < p.len() ==> p[i].0 != p[j].0
}

/// The names and handles of a list of named column families.
pub open spec fn cf_pairs(s: Seq<(String, ColumnFamily)>) -> Seq<(Seq<char>, u64)> {
    s.map_values(|e: (String, ColumnFamily)| (e.0@, e.1.spec_inner()))
}

/// The names and handles of a list of named handles.
pub open spec fn handle_pairs(s: Seq<(String, u64)>) -> Seq<(Seq<char>, u64)> {
    s.map_values(|e: (String, u64)| (e.0@, e.1))
}

pub proof fn lemma_map_of_pairs_push(p: Seq<(Seq<char>, u64)>, e: (Seq<char>, u64))
    ensures
        map_of_pairs(p.push(e)) == map_of_pairs(p).insert(e.0, e.1),
{
    assert(p.push(e).drop_last() =~= p);
}

pub proof fn lemma_map_of_pairs_char(p: Seq<(Seq<char>, u64)>)
    requires
        unique_names(p),
    ensures
        forall|n: Seq<char>|
            map_of_pairs(p).contains_key(n) <==> exists|i: int| 0 <= i < p.len() && p[i].0 == n,
        forall|i: int| 0 <= i < p.len() ==> map_of_pairs(p)[#[trigger] p[i].0] == p[i].1,
    decreases p.len(),
{
    if p.len() > 0 {
        let q = p.drop_last();
        assert(unique_names(q));
        lemma_map_of_pairs_char(q);
        let last = p.last();
        assert forall|n: Seq<char>|
            map_of_pairs(p).contains_key(n) <==> exists|i: int| 0 <= i < p.len() && p[i].0 == n by {
            if map_of_pairs(p).contains_key(n) {
                if n == last.0 {
                    assert(p[p.len() - 1].0 == n);
                } else {
                    assert(map_of_pairs(q).contains_key(n));
                    let i = choose|i: int| 0 <= i < q.len() && q[i].0 == n;
                    assert(p[i].0 == n);
                }
            }
            if exists|i: int| 0 <= i < p.len() && p[i].0 == n {
                let i = choose|i: int| 0 <= i < p.len() && p[i].0 == n;
                if i < p.len() - 1 {
                    assert(q[i].0 == n);
                }
            }
        }
        assert forall|i: int| 0 <= i < p.len() implies map_of_pairs(p)[#[trigger] p[i].0]
            == p[i].1 by {
            if i < p.len() - 1 {
                assert(q[i] == p[i]);
                assert(p[i].0 != last.0);
            }
        }
    }
}

pub proof fn lemma_map_of_pairs_update(p: Seq<(Seq<char>, u64)>, i: int, h: u64)
    requires
        unique_names(p),
        0 <= i < p.len(),
    ensures
        unique_names(p.update(i, (p[i].0, h))),
        map_of_pairs(p.update(i, (p[i].0, h))) == map_of_pairs(p).insert(p[i].0, h),
{
    let q = p.update(i, (p[i].0, h));
    assert(unique_names(q)) by {
        assert forall|a: int, b: int| 0 <= a < b < q.len() implies q[a].0 != q[b].0 by {
            assert(q[a].0 == p[a].0);
            assert(q[b].0 == p[b].0);
        }
    }
    lemma_map_of_pairs_char(p);
    lemma_map_of_pairs_char(q);
    let m = map_of_pairs(p).insert(p[i].0, h);
    assert forall|n: Seq<char>| map_of_pairs(q).contains_key(n) <==> m.contains_key(n) by {
        if exists|j: int| 0 <= j < q.len() && q[j].0 == n {
            let j = choose|j: int| 0 <= j < q.len() && q[j].0 == n;
            assert(p[j].0 == n);
        }
        if exists|j: int| 0 <= j < p.len() && p[j].0 == n {
            let j = choose|j: int| 0 <= j < p.len() && p[j].0 == n;
            assert(q[j].0 == n);
        }
        if n == p[i].0 {
            assert(q[i].0 == n);
        }
    }
    assert forall|n: Seq<char>| map_of_pairs(q).contains_key(n) implies map_of_pairs(q)[n]
        == m[n] by {
        let j = choose|j: int| 0 <= j < q.len() && q[j].0 == n;
        assert(map_of_pairs(q)[q[j].0] == q[j].1);
        if j != i {
            assert(p[j] == q[j]);
            assert(map_of_pairs(p)[p[j].0] == p[j].1);
        }
    }
    assert(map_of_pairs(q) =~= m);
}

pub proof fn lemma_map_of_pairs_remove(p: Seq<(Seq<char>, u64)>, i: int)
    requires
        unique_names(p),
        0 <= i < p.len(),
    ensures
        unique_names(p.remove(i)),
        map_of_pairs(p.remove(i)) == map_of_pairs(p).remove(p[i].0),
{
    let q = p.remove(i);
    assert(unique_names(q)) by {
        assert forall|a: int, b: int| 0 <= a < b < q.len() implies q[a].0 != q[b].0 by {
            let pa = if a < i { a } else { a + 1 };
            let pb = if b < i { b } else { b + 1 };
            assert(q[a] == p[pa]);
            assert(q[b] == p[pb]);
        }
    }
    lemma_map_of_pairs_char(p);
    lemma_map_of_pairs_char(q);
    let m = map_of_pairs(p).remove(p[i].0);
    assert forall|n: Seq<char>| map_of_pairs(q).contains_key(n) <==> m.contains_key(n) by {
        if exists|j: int| 0 <= j < q.len() && q[j].0 == n {
            let j = choose|j: int| 0 <= j < q.len() && q[j].0 == n;
            let pj = if j < i { j } else { j + 1 };
            assert(q[j] == p[pj]);
            assert(p[pj].0 == n);
            assert(pj != i);
        }
        if exists|j: int| 0 <= j < p.len() && p[j].0 == n && n != p[i].0 {
            let j = choose|j: int| 0 <= j < p.len() && p[j].0 == n && n != p[i].0;
            assert(j != i);
            let qj = if j < i { j } else { j - 1 };
            assert(q[qj] == p[j]);
        }
    }
    assert forall|n: Seq<char>| map_of_pairs(q).contains_key(n) implies map_of_pairs(q)[n]
        == m[n] by {
        let j = choose|j: int| 0 <= j < q.len() && q[j].0 == n;
        let pj = if j < i { j } else { j + 1 };
        assert(q[j] == p[pj]);
        assert(map_of_pairs(q)[q[j].0] == q[j].1);
        assert(map_of_pairs(p)[p[pj].0] == p[pj].1);
    }
    assert(map_of_pairs(q) =~= m);
}

/// The names that a list of pairs holds.
pub open spec fn pair_names(p: Seq<(Seq<char>, u64)>) -> Set<Seq<char>> {
    Set::new(|n: Seq<char>| exists|i: int| 0 <= i < p.len() && p[i].0 == n)
}

pub proof fn lemma_map_of_pairs_dom(p: Seq<(Seq<char>, u64)>)
    ensures
        map_of_pairs(p).dom() == pair_names(p),
    decreases p.len(),
{
    if p.len() > 0 {
        let q = p.drop_last();
        lemma_map_of_pairs_dom(q);
        assert forall|n: Seq<char>| map_of_pairs(p).dom().contains(n) <==> pair_names(p).contains(n) by {
            if pair_names(p).contains(n) {
                let i = choose|i: int| 0 <= i < p.len() && p[i].0 == n;
                if i < p.len() - 1 {
                    assert(q[i].0 == n);
                    assert(pair_names(q).contains(n));
                }
            }
            if map_of_pairs(q).dom().contains(n) {
                let i = choose|i: int| 0 <= i < q.len() && q[i].0 == n;
                assert(p[i].0 == n);
            }
            if n == p.last().0 {
                assert(p[p.len() - 1].0 == n);
            }
        }
        assert(map_of_pairs(p).dom() =~= pair_names(p));
    } else {
        assert(map_of_pairs(p).dom() =~= pair_names(p));
    }
}

/// Column family handles by name, with no name held twice.
///
/// The pairs are kept in a list, searched by name; the invariant that no
/// name occurs twice makes the list a map, whose view every lookup,
/// insertion and removal below is proved against.  A database holds few
/// column families, so the search costs little.
pub struct CfMap {
    pub(crate) cfs: Vec<(String, ColumnFamily)>,
}

impl CfMap {
    /// Handles by name.
    pub closed spec fn view(&self) -> Map<Seq<char>, u64> {
        map_of_pairs(cf_pairs(self.cfs@))
    }

    /// No name is held twice.
    pub closed spec fn wf(&self) -> bool {
        unique_names(cf_pairs(self.cfs@))
    }

    /// A map with no column family.
    pub fn new() -> (m: CfMap)
        ensures
            m.wf(),
            m.view() == Map::<Seq<char>, u64>::empty(),
    {
        let m = CfMap { cfs: Vec::new() };
        assert(cf_pairs(m.cfs@) =~= Seq::<(Seq<char>, u64)>::empty());
        m
    }

    /// Where `name` is held, if it is.
    fn find(&self, name: &str) -> (r: Option<usize>)
        requires
            self.wf(),
        ensures
            match r {
                Some(i) => i < self.cfs@.len() && self.cfs@[i as int].0@ == name@,
                None => !self.view().contains_key(name@),
            },
    {
        let key = name.to_owned();
        let mut i: usize = 0;
        while i < self.cfs.len()
            invariant
                i <= self.cfs@.len(),
                key@ == name@,
                forall|j: int| 0 <= j < i ==> self.cfs@[j].0@ != name@,
            decreases self.cfs@.len() - i,
        {
            if self.cfs[i].0 == key {
                return Some(i);
            }
            i = i + 1;
        }
        proof {
            let p = cf_pairs(self.cfs@);
            lemma_map_of_pairs_char(p);
            if self.view().contains_key(name@) {
                let j = choose|j: int| 0 <= j < p.len() && p[j].0 == name@;
                assert(p[j].0 == self.cfs@[j].0@);
            }
        }
        None
    }

    /// The column family held under `name`, if any.
    pub fn get(&self, name: &str) -> (r: Option<&ColumnFamily>)
        requires
            self.wf(),
        ensures
            match r {
                Some(cf) => self.view().contains_key(name@) && cf.spec_inner()
                    == self.view()[name@],
                None => !self.view().contains_key(name@),
            },
    {
        match self.find(name) {
            Some(i) => {
                proof {
                    let p = cf_pairs(self.cfs@);
                    lemma_map_of_pairs_char(p);
                    assert(p[i as int].0 == name@);
                }
                Some(&self.cfs[i].1)
            },
            None => None,
        }
    }

    /// Holds `cf` under `name`, replacing and giving back what was held there.
    pub fn insert(&mut self, name: String, cf: ColumnFamily) -> (r: Option<ColumnFamily>)
        requires
            old(self).wf(),
        ensures
            final(self).wf(),
            final(self).view() == old(self).view().insert(name@, cf.spec_inner()),
            match r {
                Some(c) => old(self).view().contains_key(name@) && c.spec_inner() == old(
                    self,
                ).view()[name@],
                None => !old(self).view().contains_key(name@),
            },
    {
        let ghost h = cf.spec_inner();
        match self.find(name.as_str()) {
            Some(i) => {
                let ghost p = cf_pairs(self.cfs@);
                proof {
                    lemma_map_of_pairs_char(p);
                    lemma_map_of_pairs_update(p, i as int, h);
                }
                let old_entry = self.cfs.remove(i);
                self.cfs.insert(i, (name, cf));
                proof {
                    assert(cf_pairs(self.cfs@) =~= p.update(i as int, (p[i as int].0, h)));
                }
                Some(old_entry.1)
            },
            None => {
                let ghost p = cf_pairs(self.cfs@);
                let ghost nm = name@;
                self.cfs.push((name, cf));
                proof {
                    assert(cf_pairs(self.cfs@) =~= p.push((nm, h)));
                    lemma_map_of_pairs_push(p, (nm, h));
                    lemma_map_of_pairs_char(p);
                    assert forall|a: int, b: int|
                        0 <= a < b < cf_pairs(self.cfs@).len() implies cf_pairs(self.cfs@)[a].0
                        != cf_pairs(self.cfs@)[b].0 by {
                        if b == p.len() {
                            assert(cf_pairs(self.cfs@)[a] == p[a]);
                            if p[a].0 == nm {
                                assert(map_of_pairs(p).contains_key(nm));
                            }
                        }
                    }
                }
                None
            },
        }
    }

    /// Takes out the column family held under `name`, if any.
    pub fn remove(&mut self, name: &str) -> (r: Option<ColumnFamily>)
        requires
            old(self).wf(),
        ensures
            final(self).wf(),
            final(self).view() == old(self).view().remove(name@),
            match r {
                Some(c) => old(self).view().contains_key(name@) && c.spec_inner() == old(
                    self,
                ).view()[name@],
                None => !old(self).view().contains_key(name@),
            },
    {
        match self.find(name) {
            Some(i) => {
                let ghost p = cf_pairs(self.cfs@);
                proof {
                    lemma_map_of_pairs_char(p);
                    lemma_map_of_pairs_remove(p, i as int);
                }
                let e = self.cfs.remove(i);
                proof {
                    assert(cf_pairs(self.cfs@) =~= p.remove(i as int));
                }
                Some(e.1)
            },
            None => {
                assert(self.view().remove(name@) =~= self.view());
                None
            },
        }
    }

    /// Removes every column family, giving them back.
    pub fn take_all(&mut self) -> (r: Vec<(String, ColumnFamily)>)
        requires
            old(self).wf(),
        ensures
            final(self).wf(),
            final(self).view() == Map::<Seq<char>, u64>::empty(),
            map_of_pairs(cf_pairs(r@)) == old(self).view(),
    {
        let mut r = Vec::new();
        std::mem::swap(&mut self.cfs, &mut r);
        assert(cf_pairs(self.cfs@) =~= Seq::<(Seq<char>, u64)>::empty());
        r
    }

    /// The map that inserting each (name, handle) pair in turn builds.
    pub fn from_handles(cfs: Vec<(String, u64)>) -> (m: CfMap)
        ensures
            m.wf(),
            m.view() == map_of_pairs(handle_pairs(cfs@)),
    {
        let mut m = CfMap::new();
        let mut i: usize = 0;
        let n = cfs.len();
        while i < n
            invariant
                n == cfs@.len(),
                i <= n,
                m.wf(),
                m.view() == map_of_pairs(handle_pairs(cfs@).subrange(0, i as int)),
            decreases n - i,
        {
            let name = cfs[i].0.clone();
            let h = cfs[i].1;
            let cf = ColumnFamily::new(h);
            let _ = m.insert(name, cf);
            proof {
                let hp = handle_pairs(cfs@);
                assert(hp.subrange(0, i + 1) =~= hp.subrange(0, i as int).push(hp[i as int]));
                lemma_map_of_pairs_push(hp.subrange(0, i as int), hp[i as int]);
            }
            i = i + 1;
        }
        assert(handle_pairs(cfs@).subrange(0, n as int) =~= handle_pairs(cfs@));
        m
    }
}

} // verus!
