//! A map keyed by account names, each name at most once.

use vstd::prelude::*;

verus! {

/// The entries of a map keyed by account names, in the order they were
/// first inserted; no name occurs twice.
pub struct AccountMap<V> {
    entries: Vec<(String, V)>,
}

impl<V> AccountMap<V> {
    /// No account name occurs in two entries.
    #[verifier::type_invariant]
    closed spec fn keys_unique(self) -> bool {
        forall|i: int, j: int|
            0 <= i < j < self.entries@.len() ==> #[trigger] self.entries@[i].0@
                != #[trigger] self.entries@[j].0@
    }

    spec fn has_key_at(self, i: int, k: Seq<char>) -> bool {
        0 <= i < self.entries@.len() && self.entries@[i].0@ == k
    }

    spec fn index_of(self, k: Seq<char>) -> int {
        choose|i: int| self.has_key_at(i, k)
    }

    proof fn lemma_view_entry(self, i: int)
        requires
            self.keys_unique(),
            0 <= i < self.entries@.len(),
        ensures
            self@.contains_key(self.entries@[i].0@),
            self@[self.entries@[i].0@] == self.entries@[i].1,
    {
        let k = self.entries@[i].0@;
        assert(self.has_key_at(i, k));
        let j = self.index_of(k);
        assert(self.has_key_at(j, k));
        if j < i {
            assert(self.entries@[j].0@ != self.entries@[i].0@);
        } else if i < j {
            assert(self.entries@[i].0@ != self.entries@[j].0@);
        }
    }
}

impl<V> View for AccountMap<V> {
    type V = Map<Seq<char>, V>;

    /// Each account name of an entry, mapped to that entry's value.
    closed spec fn view(&self) -> Map<Seq<char>, V> {
        Map::new(
            |k: Seq<char>| exists|i: int| self.has_key_at(i, k),
            |k: Seq<char>| self.entries@[self.index_of(k)].1,
        )
    }
}

impl<V> AccountMap<V> {
    /// An empty map.
    pub fn new() -> (m: Self)
        ensures
            m@ == Map::<Seq<char>, V>::empty(),
    {
        let m = AccountMap { entries: Vec::new() };
        assert(m@ =~= Map::<Seq<char>, V>::empty());
        m
    }

    /// The position of the entry of `k`, if there is one.
    fn find(&self, k: &str) -> (r: Option<usize>)
        ensures
            match r {
                Some(i) => self.has_key_at(i as int, k@),
                None => !self@.contains_key(k@),
            },
    {
        let mut i: usize = 0;
        while i < self.entries.len()
            invariant
                i <= self.entries@.len(),
                forall|j: int| 0 <= j < i ==> self.entries@[j].0@ != k@,
            decreases self.entries@.len() - i,
        {
            if self.entries[i].0.as_str().unicode_len() == k.unicode_len() && str_equal(
                self.entries[i].0.as_str(),
                k,
            ) {
                return Some(i);
            }
            i = i + 1;
        }
        None
    }

    /// Whether `k` has an entry.
    pub fn contains_key(&self, k: &str) -> (r: bool)
        ensures
            r == self@.contains_key(k@),
    {
        proof {
            use_type_invariant(self);
        }
        match self.find(k) {
            Some(i) => {
                proof {
                    self.lemma_view_entry(i as int);
                }
                true
            },
            None => false,
        }
    }

    /// The value of `k`, if it has one.
    pub fn get(&self, k: &str) -> (r: Option<&V>)
        ensures
            match r {
                Some(v) => self@.contains_key(k@) && *v == self@[k@],
                None => !self@.contains_key(k@),
            },
    {
        proof {
            use_type_invariant(self);
        }
        match self.find(k) {
            Some(i) => {
                proof {
                    self.lemma_view_entry(i as int);
                }
                Some(&self.entries[i].1)
            },
            None => None,
        }
    }

    /// Sets the value of `k` to `v`, in place if `k` has an entry and as a new
    /// last entry otherwise.
    pub fn insert(&mut self, k: String, v: V)
        ensures
            final(self)@ == old(self)@.insert(k@, v),
    {
        proof {
            use_type_invariant(&*self);
        }
        let ghost old_map = *self;
        let ghost kv = k@;
        match self.find(k.as_str()) {
            Some(i) => {
                let mut entries = Vec::new();
                std::mem::swap(&mut entries, &mut self.entries);
                entries.set(i, (k, v));
                self.entries = entries;
                proof {
                    assert forall|a: int, b: int|
                        0 <= a < b < self.entries@.len() implies #[trigger] self.entries@[a].0@
                        != #[trigger] self.entries@[b].0@ by {
                        assert(old_map.entries@[a].0@ != old_map.entries@[b].0@);
                    }
                    assert forall|key: Seq<char>|
                        #[trigger] self@.contains_key(key) <==> old_map@.insert(
                            kv,
                            v,
                        ).contains_key(key) by {
                        if old_map@.contains_key(key) {
                            let j = choose|j: int| old_map.has_key_at(j, key);
                            assert(self.has_key_at(j, key));
                        }
                        if self@.contains_key(key) {
                            let j = choose|j: int| self.has_key_at(j, key);
                            if j != i {
                                assert(old_map.has_key_at(j, key));
                            }
                        }
                        assert(self.has_key_at(i as int, kv));
                    }
                    assert forall|key: Seq<char>| #[trigger]
                        self@.contains_key(key) implies self@[key] == old_map@.insert(
                        kv,
                        v,
                    )[key] by {
                        let j = choose|j: int| self.has_key_at(j, key);
                        self.lemma_view_entry(j);
                        if j != i {
                            assert(old_map.entries@[j] == self.entries@[j]);
                            old_map.lemma_view_entry(j);
                        }
                    }
                    assert(self@ =~= old_map@.insert(kv, v));
                }
            },
            None => {
                let mut entries = Vec::new();
                std::mem::swap(&mut entries, &mut self.entries);
                entries.push((k, v));
                proof {
                    let n = old_map.entries@.len() as int;
                    assert forall|a: int, b: int|
                        0 <= a < b < entries@.len() implies #[trigger] entries@[a].0@
                        != #[trigger] entries@[b].0@ by {
                        if b == n {
                            assert(old_map.has_key_at(a, entries@[a].0@));
                        } else {
                            assert(old_map.entries@[a].0@ != old_map.entries@[b].0@);
                        }
                    }
                }
                self.entries = entries;
                proof {
                    let n = old_map.entries@.len() as int;
                    assert forall|key: Seq<char>|
                        #[trigger] self@.contains_key(key) <==> old_map@.insert(
                            kv,
                            v,
                        ).contains_key(key) by {
                        if old_map@.contains_key(key) {
                            let j = choose|j: int| old_map.has_key_at(j, key);
                            assert(self.has_key_at(j, key));
                        }
                        if self@.contains_key(key) {
                            let j = choose|j: int| self.has_key_at(j, key);
                            if j != n {
                                assert(old_map.has_key_at(j, key));
                            }
                        }
                        assert(self.has_key_at(n, kv));
                    }
                    assert forall|key: Seq<char>| #[trigger]
                        self@.contains_key(key) implies self@[key] == old_map@.insert(
                        kv,
                        v,
                    )[key] by {
                        let j = choose|j: int| self.has_key_at(j, key);
                        self.lemma_view_entry(j);
                        if j != n {
                            assert(old_map.entries@[j] == self.entries@[j]);
                            old_map.lemma_view_entry(j);
                        }
                    }
                    assert(self@ =~= old_map@.insert(kv, v));
                }
            },
        }
    }

    /// Drops the entry of `k`, if it has one.
    pub fn remove(&mut self, k: &str)
        ensures
            final(self)@ == old(self)@.remove(k@),
    {
        proof {
            use_type_invariant(&*self);
        }
        let ghost old_map = *self;
        match self.find(k) {
            Some(i) => {
                let mut entries = Vec::new();
                std::mem::swap(&mut entries, &mut self.entries);
                entries.remove(i);
                self.entries = entries;
                proof {
                    let old_e = old_map.entries@;
                    assert forall|a: int| 0 <= a < self.entries@.len() implies #[trigger]
                        self.entries@[a] == if a < i {
                        old_e[a]
                    } else {
                        old_e[a + 1]
                    } by {}
                    assert forall|a: int, b: int|
                        0 <= a < b < self.entries@.len() implies #[trigger] self.entries@[a].0@
                        != #[trigger] self.entries@[b].0@ by {
                        let oa = if a < i {
                            a
                        } else {
                            a + 1
                        };
                        let ob = if b < i {
                            b
                        } else {
                            b + 1
                        };
                        assert(old_e[oa].0@ != old_e[ob].0@);
                    }
                    assert forall|key: Seq<char>|
                        #[trigger] self@.contains_key(key) <==> old_map@.remove(k@).contains_key(
                            key,
                        ) by {
                        if self@.contains_key(key) {
                            let j = choose|j: int| self.has_key_at(j, key);
                            let oj = if j < i {
                                j
                            } else {
                                j + 1
                            };
                            assert(old_map.has_key_at(oj, key));
                            assert(old_e[oj].0@ != old_e[i as int].0@);
                        }
                        if old_map@.remove(k@).contains_key(key) {
                            let j = choose|j: int| old_map.has_key_at(j, key);
                            assert(j != i);
                            let nj = if j < i {
                                j
                            } else {
                                j - 1
                            };
                            assert(self.has_key_at(nj, key));
                        }
                    }
                    assert forall|key: Seq<char>| #[trigger]
                        self@.contains_key(key) implies self@[key] == old_map@.remove(k@)[key] by {
                        let j = choose|j: int| self.has_key_at(j, key);
                        self.lemma_view_entry(j);
                        let oj = if j < i {
                            j
                        } else {
                            j + 1
                        };
                        old_map.lemma_view_entry(oj);
                    }
                    assert(self@ =~= old_map@.remove(k@));
                }
            },
            None => {
                assert(self@ =~= old_map@.remove(k@));
            },
        }
    }

    /// Drops every entry.
    pub fn clear(&mut self)
        ensures
            final(self)@ == Map::<Seq<char>, V>::empty(),
    {
        self.entries = Vec::new();
        assert(self@ =~= Map::<Seq<char>, V>::empty());
    }

    /// The entries: each name of the map once, with its value.
    pub fn entries(&self) -> (r: &Vec<(String, V)>)
        ensures
            forall|i: int|
                0 <= i < r@.len() ==> #[trigger] self@.contains_key(r@[i].0@) && self@[r@[i].0@]
                    == r@[i].1,
            forall|k: Seq<char>| #[trigger]
                self@.contains_key(k) ==> exists|i: int| 0 <= i < r@.len() && r@[i].0@ == k,
            forall|i: int, j: int| 0 <= i < j < r@.len() ==> #[trigger] r@[i].0@ != #[trigger] r@[j].0@,
    {
        proof {
            use_type_invariant(self);
            assert forall|i: int| 0 <= i < self.entries@.len() implies #[trigger] self@.contains_key(
                self.entries@[i].0@,
            ) && self@[self.entries@[i].0@] == self.entries@[i].1 by {
                self.lemma_view_entry(i);
            }
            assert forall|k: Seq<char>| #[trigger] self@.contains_key(k) implies exists|i: int|
                0 <= i < self.entries@.len() && self.entries@[i].0@ == k by {
                let i = choose|i: int| self.has_key_at(i, k);
                assert(self.has_key_at(i, k));
            }
        }
        &self.entries
    }
}

/// Whether `a` and `b`, of the same length, hold the same characters.
fn str_equal(a: &str, b: &str) -> (r: bool)
    requires
        a@.len() == b@.len(),
    ensures
        r == (a@ == b@),
{
    let n = a.unicode_len();
    let mut i: usize = 0;
    while i < n
        invariant
            n == a@.len(),
            a@.len() == b@.len(),
            i <= n,
            forall|j: int| 0 <= j < i ==> a@[j] == b@[j],
        decreases n - i,
    {
        if a.get_char(i) != b.get_char(i) {
            return false;
        }
        i = i + 1;
    }
    assert(a@ =~= b@);
    true
}

} // verus!
