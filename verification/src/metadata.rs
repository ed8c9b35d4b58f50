use vstd::prelude::*;

verus! {

/// Abstract contents of a metadata set: the key/value pairs in order.
pub type MetadataView = Seq<(Seq<char>, Seq<char>)>;

/// Index of the first entry at or after `i` whose key is `k`.
pub open spec fn kv_first_index_from(m: MetadataView, k: Seq<char>, i: int) -> Option<int>
    decreases m.len() - i,
{
    if i < 0 || i >= m.len() {
        None
    } else if m[i].0 == k {
        Some(i)
    } else {
        kv_first_index_from(m, k, i + 1)
    }
}

/// Index of the first entry whose key is `k`.
pub open spec fn kv_first_index(m: MetadataView, k: Seq<char>) -> Option<int> {
    kv_first_index_from(m, k, 0)
}

/// The value stored under `k`, if any.
pub open spec fn kv_get(m: MetadataView, k: Seq<char>) -> Option<Seq<char>> {
    match kv_first_index(m, k) {
        Some(i) => Some(m[i].1),
        None => None,
    }
}

/// Insertion with replace-in-place semantics: a present key keeps its
/// position and receives the new value; an absent key is appended.
pub open spec fn kv_insert(m: MetadataView, k: Seq<char>, v: Seq<char>) -> MetadataView {
    match kv_first_index(m, k) {
        Some(i) => m.update(i, (k, v)),
        None => m.push((k, v)),
    }
}

/// Removal of the entry with key `k`, if present.
pub open spec fn kv_remove(m: MetadataView, k: Seq<char>) -> MetadataView {
    match kv_first_index(m, k) {
        Some(i) => m.remove(i),
        None => m,
    }
}

/// All pairs of `pairs` inserted into `m` in order, each with
/// `kv_insert` semantics (a repeated key keeps the last value).
pub open spec fn kv_insert_all(m: MetadataView, pairs: MetadataView) -> MetadataView
    decreases pairs.len(),
{
    if pairs.len() == 0 {
        m
    } else {
        kv_insert_all(kv_insert(m, pairs[0].0, pairs[0].1), pairs.drop_first())
    }
}

/// Keys are pairwise distinct.
pub open spec fn kv_unique(m: MetadataView) -> bool {
    forall|i: int, j: int| 0 <= i < j < m.len() ==> m[i].0 != m[j].0
}

/// What `kv_first_index_from` finds: the returned index holds the key and is
/// the first such position; `None` means the key occurs nowhere at or after
/// `i`.
pub proof fn lemma_kv_first_index_from(m: MetadataView, k: Seq<char>, i: int)
    requires
        0 <= i,
    ensures
        match kv_first_index_from(m, k, i) {
            Some(j) => i <= j < m.len() && m[j].0 == k && (forall|l: int|
                i <= l < j ==> m[l].0 != k),
            None => forall|l: int| i <= l < m.len() ==> m[l].0 != k,
        },
    decreases m.len() - i,
{
    if i < 0 || i >= m.len() {
    } else if m[i].0 == k {
    } else {
        lemma_kv_first_index_from(m, k, i + 1);
        assert(kv_first_index_from(m, k, i) == kv_first_index_from(m, k, i + 1));
        let r = kv_first_index_from(m, k, i + 1);
        if r is Some {
            let j = r->0;
            assert forall|l: int| i <= l < j implies m[l].0 != k by {
                if l == i {
                } else {
                }
            }
        } else {
            assert forall|l: int| i <= l < m.len() implies m[l].0 != k by {
                if l == i {
                } else {
                }
            }
        }
    }
}

/// Inserting preserves key uniqueness.
pub proof fn lemma_kv_insert_unique(m: MetadataView, k: Seq<char>, v: Seq<char>)
    requires
        kv_unique(m),
    ensures
        kv_unique(kv_insert(m, k, v)),
{
    lemma_kv_first_index_from(m, k, 0);
    let r = kv_first_index(m, k);
    if r is Some {
        let i = r->0;
        let u = m.update(i, (k, v));
        assert forall|x: int| 0 <= x < u.len() implies u[x].0 == m[x].0 by {
            if x == i {
            } else {
            }
        }
    } else {
        let u = m.push((k, v));
        assert forall|a: int, b: int| 0 <= a < b < u.len() implies u[a].0 != u[b].0 by {
            if b == m.len() {
                assert(m[a].0 != k);
            } else {
            }
        }
    }
}

/// Removing preserves key uniqueness.
pub proof fn lemma_kv_remove_unique(m: MetadataView, k: Seq<char>)
    requires
        kv_unique(m),
    ensures
        kv_unique(kv_remove(m, k)),
{
    lemma_kv_first_index_from(m, k, 0);
    let r = kv_first_index(m, k);
    if r is Some {
        let i = r->0;
        let u = m.remove(i);
        assert forall|a: int, b: int| 0 <= a < b < u.len() implies u[a].0 != u[b].0 by {
            let oa: int = if a < i { a } else { a + 1 };
            let ob: int = if b < i { b } else { b + 1 };
            assert(u[a] == m[oa]);
            assert(u[b] == m[ob]);
        }
    }
}

/// An ordered header set: string keys mapped to string values, keys unique,
/// insertion order preserved.  Owned by a call or a credentials object.
pub struct Metadata {
    entries: Vec<(String, String)>,
}

impl View for Metadata {
    type V = MetadataView;

    closed spec fn view(&self) -> MetadataView {
        self.entries.deep_view()
    }
}

impl Metadata {
    /// Keys are unique at all times.
    #[verifier::type_invariant]
    spec fn wf(self) -> bool {
        kv_unique(self@)
    }

    /// An empty header set.
    pub fn new() -> (m: Metadata)
        ensures
            m@ == Seq::<(Seq<char>, Seq<char>)>::empty(),
    {
        let m = Metadata { entries: Vec::new() };
        proof {
            assert(m@ =~= Seq::<(Seq<char>, Seq<char>)>::empty());
        }
        m
    }

    /// A header set built by inserting each pair in order; a repeated key
    /// keeps the value it was given last.
    pub fn from_pairs(pairs: Vec<(String, String)>) -> (m: Metadata)
        ensures
            m@ == kv_insert_all(Seq::<(Seq<char>, Seq<char>)>::empty(), pairs.deep_view()),
    {
        let ghost all: MetadataView = pairs.deep_view();
        let mut m = Metadata::new();
        let mut i: usize = 0;
        proof {
            assert(all.skip(0) =~= all);
        }
        while i < pairs.len()
            invariant
                i <= pairs.len(),
                all == pairs.deep_view(),
                kv_insert_all(Seq::<(Seq<char>, Seq<char>)>::empty(), all) == kv_insert_all(
                    m@,
                    all.skip(i as int),
                ),
            decreases pairs.len() - i,
        {
            let key = pairs[i].0.clone();
            let value = pairs[i].1.clone();
            proof {
                assert(all.skip(i as int)[0] == all[i as int]);
                assert(all[i as int] == (pairs@[i as int].0@, pairs@[i as int].1@));
                assert(all.skip(i as int).drop_first() =~= all.skip(i as int + 1));
            }
            m.add(key, value);
            i += 1;
        }
        proof {
            assert(all.skip(pairs.len() as int) =~= Seq::<(Seq<char>, Seq<char>)>::empty());
        }
        m
    }

    /// Position of the entry whose key is `key`, if any.
    fn index_of(&self, key: &String) -> (r: Option<usize>)
        ensures
            match r {
                Some(i) => kv_first_index(self@, key@) == Some(i as int),
                None => kv_first_index(self@, key@) is None,
            },
    {
        let mut i: usize = 0;
        while i < self.entries.len()
            invariant
                i <= self.entries.len(),
                kv_first_index(self@, key@) == kv_first_index_from(self@, key@, i as int),
            decreases self.entries.len() - i,
        {
            proof {
                assert(self@[i as int] == (self.entries@[i as int].0@, self.entries@[i as int].1@));
            }
            if self.entries[i].0.eq(key) {
                return Some(i);
            }
            i += 1;
        }
        None
    }

    /// Inserts `value` under `key`: a present key keeps its position and
    /// receives the new value, an absent key is appended at the tail.
    pub fn add(&mut self, key: String, value: String)
        ensures
            final(self)@ == kv_insert(old(self)@, key@, value@),
    {
        proof {
            use_type_invariant(&*self);
        }
        let found = self.index_of(&key);
        let mut entries: Vec<(String, String)> = Vec::new();
        std::mem::swap(&mut entries, &mut self.entries);
        match found {
            Some(i) => {
                proof {
                    lemma_kv_first_index_from(old(self)@, key@, 0);
                }
                entries.remove(i);
                entries.insert(i, (key, value));
            },
            None => {
                proof {
                    lemma_kv_first_index_from(old(self)@, key@, 0);
                }
                entries.push((key, value));
            },
        }
        proof {
            assert(entries.deep_view() =~= kv_insert(old(self)@, key@, value@));
            lemma_kv_insert_unique(old(self)@, key@, value@);
        }
        self.entries = entries;
    }

    /// The value stored under `key`, if any.
    pub fn get(&self, key: &String) -> (r: Option<String>)
        ensures
            match r {
                Some(v) => kv_get(self@, key@) == Some(v@),
                None => kv_get(self@, key@) is None,
            },
    {
        let found = self.index_of(key);
        match found {
            Some(i) => {
                proof {
                    lemma_kv_first_index_from(self@, key@, 0);
                    assert(self@[i as int] == (self.entries@[i as int].0@, self.entries@[i as int].1@));
                }
                Some(self.entries[i].1.clone())
            },
            None => None,
        }
    }

    /// Removes the entry stored under `key` and returns its value, if any.
    pub fn remove(&mut self, key: &String) -> (r: Option<String>)
        ensures
            final(self)@ == kv_remove(old(self)@, key@),
            match r {
                Some(v) => kv_get(old(self)@, key@) == Some(v@),
                None => kv_get(old(self)@, key@) is None,
            },
    {
        proof {
            use_type_invariant(&*self);
        }
        let found = self.index_of(key);
        match found {
            Some(i) => {
                proof {
                    lemma_kv_first_index_from(old(self)@, key@, 0);
                    assert(self@[i as int] == (self.entries@[i as int].0@, self.entries@[i as int].1@));
                }
                let mut entries: Vec<(String, String)> = Vec::new();
                std::mem::swap(&mut entries, &mut self.entries);
                let pair = entries.remove(i);
                proof {
                    assert(entries.deep_view() =~= kv_remove(old(self)@, key@));
                    lemma_kv_remove_unique(old(self)@, key@);
                }
                self.entries = entries;
                Some(pair.1)
            },
            None => None,
        }
    }

    /// Removes every entry.
    pub fn clear(&mut self)
        ensures
            final(self)@ == Seq::<(Seq<char>, Seq<char>)>::empty(),
    {
        let entries: Vec<(String, String)> = Vec::new();
        self.entries = entries;
        proof {
            assert(self@ =~= Seq::<(Seq<char>, Seq<char>)>::empty());
        }
    }

    /// The keys, in storage order.
    pub fn keys(&self) -> (r: Vec<String>)
        ensures
            r.deep_view() == self@.map_values(|p: (Seq<char>, Seq<char>)| p.0),
    {
        let mut r: Vec<String> = Vec::new();
        let mut i: usize = 0;
        while i < self.entries.len()
            invariant
                i <= self.entries.len(),
                r@.len() == i,
                forall|j: int| 0 <= j < i ==> r@[j]@ == self@[j].0,
            decreases self.entries.len() - i,
        {
            proof {
                assert(self@[i as int] == (self.entries@[i as int].0@, self.entries@[i as int].1@));
            }
            r.push(self.entries[i].0.clone());
            i += 1;
        }
        proof {
            assert forall|j: int| 0 <= j < r@.len() implies r.deep_view()[j] == self@[j].0 by {
                assert(r.deep_view()[j] == r@[j]@);
            }
            assert(r.deep_view() =~= self@.map_values(|p: (Seq<char>, Seq<char>)| p.0));
        }
        r
    }

    /// The values, in storage order.
    pub fn values(&self) -> (r: Vec<String>)
        ensures
            r.deep_view() == self@.map_values(|p: (Seq<char>, Seq<char>)| p.1),
    {
        let mut r: Vec<String> = Vec::new();
        let mut i: usize = 0;
        while i < self.entries.len()
            invariant
                i <= self.entries.len(),
                r@.len() == i,
                forall|j: int| 0 <= j < i ==> r@[j]@ == self@[j].1,
            decreases self.entries.len() - i,
        {
            proof {
                assert(self@[i as int] == (self.entries@[i as int].0@, self.entries@[i as int].1@));
            }
            r.push(self.entries[i].1.clone());
            i += 1;
        }
        proof {
            assert forall|j: int| 0 <= j < r@.len() implies r.deep_view()[j] == self@[j].1 by {
                assert(r.deep_view()[j] == r@[j]@);
            }
            assert(r.deep_view() =~= self@.map_values(|p: (Seq<char>, Seq<char>)| p.1));
        }
        r
    }

    /// The key/value pairs, in storage order.
    pub fn items(&self) -> (r: Vec<(String, String)>)
        ensures
            r.deep_view() == self@,
    {
        let mut r: Vec<(String, String)> = Vec::new();
        let mut i: usize = 0;
        while i < self.entries.len()
            invariant
                i <= self.entries.len(),
                r.deep_view().len() == i,
                forall|j: int| 0 <= j < i ==> r.deep_view()[j] == self@[j],
            decreases self.entries.len() - i,
        {
            proof {
                assert(self@[i as int] == (self.entries@[i as int].0@, self.entries@[i as int].1@));
            }
            let key = self.entries[i].0.clone();
            let value = self.entries[i].1.clone();
            r.push((key, value));
            i += 1;
        }
        proof {
            assert(r.deep_view() =~= self@);
        }
        r
    }

    /// The pairs as a plain dictionary; identical content to `items`, since
    /// keys are unique.
    pub fn to_dict(&self) -> (r: Vec<(String, String)>)
        ensures
            r.deep_view() == self@,
    {
        self.items()
    }

    /// Replaces the contents with the given pairs, inserted in order.
    pub fn from_dict(&mut self, pairs: Vec<(String, String)>)
        ensures
            final(self)@ == kv_insert_all(Seq::<(Seq<char>, Seq<char>)>::empty(), pairs.deep_view()),
    {
        let replacement = Metadata::from_pairs(pairs);
        *self = replacement;
    }

    pub fn len(&self) -> (r: usize)
        ensures
            r == self@.len(),
    {
        self.entries.len()
    }

    pub fn is_empty(&self) -> (r: bool)
        ensures
            r == (self@.len() == 0),
    {
        self.entries.is_empty()
    }
}

} // verus!
