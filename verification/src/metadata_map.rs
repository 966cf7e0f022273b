use vstd::prelude::*;

verus! {

/// Whether some entry of `s` carries the key `k`.
pub open spec fn has_key(s: Seq<(u64, String)>, k: u64) -> bool {
    exists|i: int| 0 <= i < s.len() && s[i].0 == k
}

/// The value recorded for `k`; meaningful only when `has_key(s, k)` and the
/// keys of `s` are pairwise distinct.
pub open spec fn value_of(s: Seq<(u64, String)>, k: u64) -> Seq<char> {
    s[choose|i: int| 0 <= i < s.len() && s[i].0 == k].1@
}

/// A sparse mapping from token identifier to URI, stored as a vector of
/// entries with pairwise distinct keys.  It models the per-token metadata
/// records; inserting an existing key overwrites its value.
pub struct MetadataMap {
    pub entries: Vec<(u64, String)>,
}

impl MetadataMap {
    /// Keys are pairwise distinct, so each key names one entry.
    pub open spec fn wf(&self) -> bool {
        forall|i: int, j: int|
            0 <= i < j < self.entries@.len() ==> self.entries@[i].0 != self.entries@[j].0
    }

    /// The mapping the entry vector stands for.
    pub open spec fn view(&self) -> Map<u64, Seq<char>> {
        Map::new(
            |k: u64| has_key(self.entries@, k),
            |k: u64| value_of(self.entries@, k),
        )
    }

    /// An empty record set.
    pub fn new() -> (m: MetadataMap)
        ensures
            m.wf(),
            m@ == Map::<u64, Seq<char>>::empty(),
    {
        let m = MetadataMap { entries: Vec::new() };
        proof {
            assert(m@ =~= Map::<u64, Seq<char>>::empty());
        }
        m
    }

    /// Creates or overwrites the entry for `token_id`.
    pub fn insert(&mut self, token_id: u64, uri: String)
        requires
            old(self).wf(),
        ensures
            final(self).wf(),
            final(self)@ == old(self)@.insert(token_id, uri@),
    {
        let ghost s0 = self.entries@;
        let n = self.entries.len();
        let mut i: usize = 0;
        while i < n
            invariant
                n == self.entries@.len(),
                i <= n,
                self.entries@ == s0,
                s0 == old(self).entries@,
                old(self).wf(),
                forall|j: int| 0 <= j < i ==> self.entries@[j].0 != token_id,
            decreases n - i,
        {
            if self.entries[i].0 == token_id {
                self.entries[i] = (token_id, uri);
                proof {
                    let s1 = self.entries@;
                    assert forall|j: int| 0 <= j < s1.len() implies #[trigger] s1[j].0
                        == s0[j].0 by {
                        if j != i {
                            assert(s1[j] == s0[j]);
                        }
                    }
                    assert(old(self).wf());
                    assert(self.wf());
                    assert forall|k: u64|
                        self@.contains_key(k) == old(self)@.insert(
                            token_id,
                            uri@,
                        ).contains_key(k) by {
                        if k == token_id {
                            assert(s1[i as int].0 == k);
                            assert(has_key(s1, k));
                        } else {
                            if has_key(s0, k) {
                                let j = choose|j: int| 0 <= j < s0.len() && s0[j].0 == k;
                                assert(s1[j].0 == k);
                                assert(has_key(s1, k));
                            }
                            if has_key(s1, k) {
                                let j = choose|j: int| 0 <= j < s1.len() && s1[j].0 == k;
                                assert(s0[j].0 == k);
                                assert(has_key(s0, k));
                            }
                        }
                    }
                    assert forall|k: u64| #[trigger] self@.contains_key(k) implies self@[k]
                        == old(self)@.insert(token_id, uri@)[k] by {
                        let w = choose|j: int| 0 <= j < s1.len() && s1[j].0 == k;
                        assert(s1[w].0 == k);
                        if k == token_id {
                            assert(w == i as int);
                            assert(value_of(s1, k) == uri@);
                        } else {
                            assert(s0[w].0 == k);
                            let w0 = choose|j: int| 0 <= j < s0.len() && s0[j].0 == k;
                            assert(s0[w0].0 == k);
                            assert(w == w0);
                            assert(value_of(s1, k) == value_of(s0, k));
                        }
                    }
                    assert(self@ =~= old(self)@.insert(token_id, uri@));
                }
                return ;
            }
            i += 1;
        }
        self.entries.push((token_id, uri));
        proof {
            let s1 = self.entries@;
            assert(s1 == s0.push((token_id, uri)));
            assert(s1[s0.len() as int].0 == token_id);
            assert(old(self).wf());
            assert forall|a: int, b: int| 0 <= a < b < s1.len() implies s1[a].0 != s1[b].0 by {
                if b < s0.len() {
                    assert(s1[a] == s0[a] && s1[b] == s0[b]);
                } else {
                    assert(s1[a] == s0[a]);
                    assert(s0[a].0 != token_id);
                }
            }
            assert(self.wf());
            assert forall|k: u64|
                self@.contains_key(k) == old(self)@.insert(token_id, uri@).contains_key(k) by {
                if k == token_id {
                    assert(has_key(s1, k));
                } else {
                    if has_key(s0, k) {
                        let j = choose|j: int| 0 <= j < s0.len() && s0[j].0 == k;
                        assert(s1[j].0 == k);
                        assert(has_key(s1, k));
                    }
                    if has_key(s1, k) {
                        let j = choose|j: int| 0 <= j < s1.len() && s1[j].0 == k;
                        assert(j < s0.len());
                        assert(s0[j].0 == k);
                        assert(has_key(s0, k));
                    }
                }
            }
            assert forall|k: u64| #[trigger] self@.contains_key(k) implies self@[k] == old(
                self,
            )@.insert(token_id, uri@)[k] by {
                let w = choose|j: int| 0 <= j < s1.len() && s1[j].0 == k;
                assert(s1[w].0 == k);
                if k == token_id {
                    assert(w == s0.len() as int);
                    assert(value_of(s1, k) == uri@);
                } else {
                    assert(w < s0.len());
                    assert(s0[w].0 == k);
                    let w0 = choose|j: int| 0 <= j < s0.len() && s0[j].0 == k;
                    assert(s0[w0].0 == k);
                    assert(w == w0);
                    assert(value_of(s1, k) == value_of(s0, k));
                }
            }
            assert(self@ =~= old(self)@.insert(token_id, uri@));
        }
    }

    /// Looks up the entry for `token_id`, if any.
    pub fn get(&self, token_id: u64) -> (r: Option<&String>)
        requires
            self.wf(),
        ensures
            (match r {
                Some(uri) => self@.contains_key(token_id) && self@[token_id] == uri@,
                None => !self@.contains_key(token_id),
            }),
    {
        let n = self.entries.len();
        let mut i: usize = 0;
        while i < n
            invariant
                n == self.entries@.len(),
                i <= n,
                self.wf(),
                forall|j: int| 0 <= j < i ==> self.entries@[j].0 != token_id,
            decreases n - i,
        {
            if self.entries[i].0 == token_id {
                proof {
                    let w = choose|j: int|
                        0 <= j < self.entries@.len() && self.entries@[j].0 == token_id;
                    assert(self.entries@[w].0 == token_id);
                    assert(w == i as int);
                }
                return Some(&self.entries[i].1);
            }
            i += 1;
        }
        None
    }
}

} // verus!
