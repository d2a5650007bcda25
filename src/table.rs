//! A table from string keys to values, each key held at most once. Its
//! contents are the map `view`.

use vstd::prelude::*;

verus! {

pub struct KeyedTable<V> {
    entries: Vec<(String, V)>,
    contents: Ghost<Map<Seq<char>, V>>,
}

impl<V> KeyedTable<V> {
    pub closed spec fn view(&self) -> Map<Seq<char>, V> {
        self.contents@
    }

    /// Every entry is recorded in the map under its key, every key of the map
    /// has an entry, and no key has two entries.
    pub closed spec fn wf(&self) -> bool {
        &&& forall|i: int|
            0 <= i < self.entries@.len() ==> {
                &&& self.contents@.contains_key(#[trigger] self.entries@[i].0@)
                &&& self.contents@[self.entries@[i].0@] == self.entries@[i].1
            }
        &&& forall|k: Seq<char>|
            #[trigger] self.contents@.contains_key(k) ==> exists|i: int|
                0 <= i < self.entries@.len() && #[trigger] self.entries@[i].0@ == k
        &&& forall|i: int, j: int|
            0 <= i < self.entries@.len() && 0 <= j < self.entries@.len() && #[trigger] self.entries@[i].0@
                == #[trigger] self.entries@[j].0@ ==> i == j
    }

    pub fn new() -> (r: Self)
        ensures
            r.wf(),
            r.view() == Map::<Seq<char>, V>::empty(),
    {
        KeyedTable { entries: Vec::new(), contents: Ghost(Map::empty()) }
    }

    /// Index of the entry under `k`, if there is one.
    fn find(&self, k: &String) -> (r: Option<usize>)
        requires
            self.wf(),
        ensures
            match r {
                Some(i) => i < self.entries@.len() && self.entries@[i as int].0@ == k@,
                None => !self.view().contains_key(k@),
            },
    {
        let mut i: usize = 0;
        while i < self.entries.len()
            invariant
                self.wf(),
                i <= self.entries@.len(),
                forall|j: int| 0 <= j < i ==> self.entries@[j].0@ != k@,
            decreases self.entries@.len() - i,
        {
            if self.entries[i].0 == *k {
                return Some(i);
            }
            i = i + 1;
        }
        None
    }

    pub fn get(&self, k: &String) -> (r: Option<&V>)
        requires
            self.wf(),
        ensures
            match r {
                Some(v) => self.view().contains_key(k@) && *v == self.view()[k@],
                None => !self.view().contains_key(k@),
            },
    {
        match self.find(k) {
            Some(i) => Some(&self.entries[i].1),
            None => None,
        }
    }

    /// Puts `v` under `k`, replacing what was there.
    pub fn insert(&mut self, k: String, v: V)
        requires
            old(self).wf(),
        ensures
            final(self).wf(),
            final(self).view() == old(self).view().insert(k@, v),
    {
        let ghost kv = k@;
        let ghost old_map = self.contents@;
        match self.find(&k) {
            Some(i) => {
                self.entries.set(i, (k, v));
                self.contents = Ghost(old_map.insert(kv, v));
                proof {
                    assert forall|key: Seq<char>| #[trigger]
                        self.contents@.contains_key(key) implies exists|j: int|
                        0 <= j < self.entries@.len() && #[trigger] self.entries@[j].0@ == key by {
                        if key != kv {
                            let j = choose|j: int|
                                0 <= j < old(self).entries@.len() && #[trigger] old(self).entries@[j].0@
                                    == key;
                            assert(self.entries@[j].0@ == key);
                        } else {
                            assert(self.entries@[i as int].0@ == key);
                        }
                    }
                }
            },
            None => {
                self.entries.push((k, v));
                self.contents = Ghost(old_map.insert(kv, v));
                proof {
                    let n = old(self).entries@.len() as int;
                    assert forall|j: int| 0 <= j < n implies #[trigger] self.entries@[j].0@ != kv by {
                        assert(self.entries@[j] == old(self).entries@[j]);
                        assert(old_map.contains_key(old(self).entries@[j].0@));
                    }
                    assert forall|key: Seq<char>| #[trigger]
                        self.contents@.contains_key(key) implies exists|j: int|
                        0 <= j < self.entries@.len() && #[trigger] self.entries@[j].0@ == key by {
                        if key != kv {
                            let j = choose|j: int|
                                0 <= j < old(self).entries@.len() && #[trigger] old(self).entries@[j].0@
                                    == key;
                            assert(self.entries@[j] == old(self).entries@[j]);
                        } else {
                            assert(self.entries@[n].0@ == key);
                        }
                    }
                }
            },
        }
    }

    /// Takes out the entry under `k`; tells whether there was one.
    pub fn remove(&mut self, k: &String) -> (r: bool)
        requires
            old(self).wf(),
        ensures
            final(self).wf(),
            r == old(self).view().contains_key(k@),
            final(self).view() == old(self).view().remove(k@),
    {
        let ghost old_map = self.contents@;
        match self.find(k) {
            Some(i) => {
                let ghost old_entries = self.entries@;
                self.entries.remove(i);
                self.contents = Ghost(old_map.remove(k@));
                proof {
                    let n = self.entries@.len() as int;
                    assert forall|j: int| 0 <= j < n implies #[trigger] self.entries@[j]
                        == old_entries[if j < i { j } else { j + 1 }] by {}
                    assert forall|j: int| 0 <= j < n implies #[trigger] self.entries@[j].0@ != k@ by {
                        let oj = if j < i { j } else { j + 1 };
                        assert(self.entries@[j] == old_entries[oj]);
                    }
                    assert forall|key: Seq<char>| #[trigger]
                        self.contents@.contains_key(key) implies exists|j: int|
                        0 <= j < self.entries@.len() && #[trigger] self.entries@[j].0@ == key by {
                        let oj = choose|oj: int|
                            0 <= oj < old_entries.len() && #[trigger] old_entries[oj].0@ == key;
                        if oj < i {
                            assert(self.entries@[oj] == old_entries[oj]);
                        } else {
                            assert(oj != i);
                            assert(self.entries@[oj - 1] == old_entries[oj]);
                        }
                    }
                    assert forall|a: int, b: int|
                        0 <= a < n && 0 <= b < n && #[trigger] self.entries@[a].0@
                            == #[trigger] self.entries@[b].0@ implies a == b by {
                        let oa = if a < i { a } else { a + 1 };
                        let ob = if b < i { b } else { b + 1 };
                        assert(self.entries@[a] == old_entries[oa]);
                        assert(self.entries@[b] == old_entries[ob]);
                    }
                }
                true
            },
            None => {
                proof {
                    assert(old_map.remove(k@) =~= old_map);
                }
                false
            },
        }
    }
}

/// The entries of `m` whose value is above `bound`.
pub open spec fn above(m: Map<Seq<char>, u64>, bound: u64) -> Map<Seq<char>, u64> {
    Map::new(|k: Seq<char>| m.contains_key(k) && bound < m[k], |k: Seq<char>| m[k])
}

impl KeyedTable<u64> {
    /// Keeps only the entries whose value is above `bound`.
    pub fn retain_above(&mut self, bound: u64)
        requires
            old(self).wf(),
        ensures
            final(self).wf(),
            final(self).view() == above(old(self).view(), bound),
    {
        let ghost m = self.contents@;
        let mut kept: Vec<(String, u64)> = Vec::new();
        let ghost mut kept_map: Map<Seq<char>, u64> = Map::empty();
        let mut i: usize = 0;
        while i < self.entries.len()
            invariant
                self.wf(),
                self.contents@ == m,
                i <= self.entries@.len(),
                forall|a: int|
                    0 <= a < kept@.len() ==> {
                        &&& kept_map.contains_key(#[trigger] kept@[a].0@)
                        &&& kept_map[kept@[a].0@] == kept@[a].1
                    },
                forall|k: Seq<char>| #[trigger]
                    kept_map.contains_key(k) ==> exists|a: int| 0 <= a < kept@.len() && #[trigger] kept@[a].0@ == k,
                forall|a: int, b: int|
                    0 <= a < kept@.len() && 0 <= b < kept@.len() && #[trigger] kept@[a].0@ == #[trigger] kept@[b].0@
                        ==> a == b,
                forall|k: Seq<char>| #[trigger]
                    kept_map.contains_key(k) <==> (m.contains_key(k) && bound < m[k] && exists|j: int|
                        0 <= j < i && #[trigger] self.entries@[j].0@ == k),
                forall|k: Seq<char>| #[trigger] kept_map.contains_key(k) ==> kept_map[k] == m[k],
            decreases self.entries@.len() - i,
        {
            let ghost ki = self.entries@[i as int].0@;
            let v = self.entries[i].1;
            proof {
                assert(m.contains_key(ki));
            }
            if bound < v {
                let key = self.entries[i].0.clone();
                proof {
                    if kept_map.contains_key(ki) {
                        let j = choose|j: int| 0 <= j < i && #[trigger] self.entries@[j].0@ == ki;
                        assert(self.entries@[j].0@ == self.entries@[i as int].0@);
                    }
                }
                let ghost old_kept = kept@;
                kept.push((key, v));
                proof {
                    let old_map = kept_map;
                    kept_map = kept_map.insert(ki, v);
                    let n = old_kept.len() as int;
                    assert forall|a: int| 0 <= a < n implies #[trigger] kept@[a].0@ != ki by {
                        assert(kept@[a] == old_kept[a]);
                        assert(old_map.contains_key(old_kept[a].0@));
                    }
                    assert forall|k: Seq<char>| #[trigger]
                        kept_map.contains_key(k) implies exists|a: int|
                        0 <= a < kept@.len() && #[trigger] kept@[a].0@ == k by {
                        if k != ki {
                            let a = choose|a: int| 0 <= a < old_kept.len() && #[trigger] old_kept[a].0@ == k;
                            assert(kept@[a] == old_kept[a]);
                        } else {
                            assert(kept@[n].0@ == k);
                        }
                    }
                    assert forall|k: Seq<char>| #[trigger]
                        kept_map.contains_key(k) <==> (m.contains_key(k) && bound < m[k] && exists|j: int|
                            0 <= j < i + 1 && #[trigger] self.entries@[j].0@ == k) by {
                        if k == ki {
                            assert(self.entries@[i as int].0@ == k);
                        } else if m.contains_key(k) && bound < m[k] && exists|j: int|
                            0 <= j < i + 1 && #[trigger] self.entries@[j].0@ == k {
                            let j = choose|j: int| 0 <= j < i + 1 && #[trigger] self.entries@[j].0@ == k;
                            assert(j < i);
                        }
                    }
                }
            } else {
                proof {
                    assert forall|k: Seq<char>| #[trigger]
                        kept_map.contains_key(k) <==> (m.contains_key(k) && bound < m[k] && exists|j: int|
                            0 <= j < i + 1 && #[trigger] self.entries@[j].0@ == k) by {
                        if m.contains_key(k) && bound < m[k] && exists|j: int|
                            0 <= j < i + 1 && #[trigger] self.entries@[j].0@ == k {
                            let j = choose|j: int| 0 <= j < i + 1 && #[trigger] self.entries@[j].0@ == k;
                            if j == i {
                                assert(m[ki] == v);
                            }
                        }
                    }
                }
            }
            i = i + 1;
        }
        proof {
            assert forall|k: Seq<char>| #[trigger] kept_map.contains_key(k) <==> (m.contains_key(k) && bound < m[k]) by {
                if m.contains_key(k) {
                    let j = choose|j: int| 0 <= j < self.entries@.len() && #[trigger] self.entries@[j].0@ == k;
                    assert(self.entries@[j].0@ == k);
                }
            }
            assert(kept_map =~= above(m, bound));
        }
        let ghost kv = kept@;
        self.entries = kept;
        self.contents = Ghost(kept_map);
        proof {
            assert(self.entries@ == kv);
            assert forall|a: int| 0 <= a < self.entries@.len() implies {
                &&& self.contents@.contains_key(#[trigger] self.entries@[a].0@)
                &&& self.contents@[self.entries@[a].0@] == self.entries@[a].1
            } by {
                assert(kv[a] == self.entries@[a]);
            }
            assert forall|k: Seq<char>| #[trigger] self.contents@.contains_key(k) implies exists|a: int|
                0 <= a < self.entries@.len() && #[trigger] self.entries@[a].0@ == k by {
                let a = choose|a: int| 0 <= a < kv.len() && #[trigger] kv[a].0@ == k;
                assert(self.entries@[a] == kv[a]);
            }
        }
    }
}

} // verus!
