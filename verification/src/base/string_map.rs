//! A map from strings to strings (environment variables, metadata), kept as
//! a list of entries with distinct keys.
use vstd::prelude::*;

verus! {

/// Key/value entries with distinct keys; the view is the map they describe.
#[derive(Clone, Debug)]
pub struct StringMap {
    entries: Vec<(String, String)>,
}

/// The value of the last entry whose key is `k`.
pub open spec fn lookup(s: Seq<(String, String)>, k: Seq<char>) -> Option<Seq<char>>
    decreases s.len(),
{
    if s.len() == 0 {
        None
    } else if s.last().0@ == k {
        Some(s.last().1@)
    } else {
        lookup(s.drop_last(), k)
    }
}

/// No key occurs twice.
pub open spec fn distinct_keys(s: Seq<(String, String)>) -> bool {
    forall|i: int, j: int| 0 <= i < j < s.len() ==> s[i].0@ != s[j].0@
}

/// The map that a list of entries describes.
pub open spec fn entries_map(s: Seq<(String, String)>) -> Map<Seq<char>, Seq<char>> {
    Map::new(|k: Seq<char>| lookup(s, k) is Some, |k: Seq<char>| lookup(s, k)->0)
}

/// The keys of a list of entries, in order.
pub open spec fn entry_keys(s: Seq<(String, String)>) -> Seq<Seq<char>> {
    s.map_values(|e: (String, String)| e.0@)
}

proof fn lemma_lookup_at(s: Seq<(String, String)>, k: Seq<char>, i: int)
    requires
        distinct_keys(s),
        0 <= i < s.len(),
        s[i].0@ == k,
    ensures
        lookup(s, k) == Some(s[i].1@),
    decreases s.len(),
{
    if i != s.len() - 1 {
        assert(s.last().0@ != k);
        lemma_lookup_at(s.drop_last(), k, i);
    }
}

proof fn lemma_lookup_absent(s: Seq<(String, String)>, k: Seq<char>)
    requires
        forall|i: int| 0 <= i < s.len() ==> s[i].0@ != k,
    ensures
        lookup(s, k) is None,
    decreases s.len(),
{
    if s.len() > 0 {
        lemma_lookup_absent(s.drop_last(), k);
    }
}

proof fn lemma_lookup_cases(s: Seq<(String, String)>, k: Seq<char>)
    requires
        distinct_keys(s),
    ensures
        lookup(s, k) is Some <==> exists|i: int| 0 <= i < s.len() && s[i].0@ == k,
        forall|i: int| 0 <= i < s.len() && s[i].0@ == k ==> lookup(s, k) == Some(s[i].1@),
{
    if exists|i: int| 0 <= i < s.len() && s[i].0@ == k {
        let i = choose|i: int| 0 <= i < s.len() && s[i].0@ == k;
        lemma_lookup_at(s, k, i);
        assert forall|j: int| 0 <= j < s.len() && s[j].0@ == k implies lookup(s, k) == Some(
            s[j].1@,
        ) by {
            lemma_lookup_at(s, k, j);
        }
    } else {
        lemma_lookup_absent(s, k);
    }
}

proof fn lemma_domain_is_keys(s: Seq<(String, String)>)
    requires
        distinct_keys(s),
    ensures
        entries_map(s).dom() =~= entry_keys(s).to_set(),
        entry_keys(s).no_duplicates(),
        entries_map(s).dom().len() == s.len(),
{
    assert forall|k: Seq<char>| entries_map(s).dom().contains(k) <==> entry_keys(
        s,
    ).to_set().contains(k) by {
        lemma_lookup_cases(s, k);
        if entry_keys(s).contains(k) {
            let i = choose|i: int| 0 <= i < entry_keys(s).len() && entry_keys(s)[i] == k;
            assert(s[i].0@ == k);
        }
        if exists|i: int| 0 <= i < s.len() && s[i].0@ == k {
            let i = choose|i: int| 0 <= i < s.len() && s[i].0@ == k;
            assert(entry_keys(s)[i] == k);
        }
    }
    assert(entry_keys(s).no_duplicates());
    entry_keys(s).unique_seq_to_set();
}

impl View for StringMap {
    type V = Map<Seq<char>, Seq<char>>;

    closed spec fn view(&self) -> Map<Seq<char>, Seq<char>> {
        entries_map(self.entries@)
    }
}

impl StringMap {
    /// No key is stored twice.
    pub closed spec fn wf(self) -> bool {
        distinct_keys(self.entries@)
    }

    fn find(&self, key: &str) -> (r: Option<usize>)
        ensures
            match r {
                Some(i) => i < self.entries@.len() && self.entries@[i as int].0@ == key@,
                None => forall|j: int| 0 <= j < self.entries@.len() ==> self.entries@[j].0@ != key@,
            },
    {
        let n = self.entries.len();
        let mut i: usize = 0;
        while i < n
            invariant
                n == self.entries@.len(),
                i <= n,
                forall|j: int| 0 <= j < i ==> self.entries@[j].0@ != key@,
            decreases n - i,
        {
            if crate::text::same_text(self.entries[i].0.as_str(), key) {
                return Some(i);
            }
            i = i + 1;
        }
        None
    }

    /// An empty map.
    pub fn new() -> (m: StringMap)
        ensures
            m.wf(),
            m@ == Map::<Seq<char>, Seq<char>>::empty(),
    {
        let m = StringMap { entries: Vec::new() };
        assert(m@ =~= Map::<Seq<char>, Seq<char>>::empty());
        m
    }

    /// Sets `key` to `value`, replacing an earlier value of `key`.
    pub fn insert(&mut self, key: String, value: String)
        requires
            old(self).wf(),
        ensures
            final(self).wf(),
            final(self)@ == old(self)@.insert(key@, value@),
    {
        let ghost old_entries = self.entries@;
        let ghost k = key@;
        let ghost v = value@;
        match self.find(key.as_str()) {
            Some(i) => {
                self.entries.set(i, (key, value));
                proof {
                    let ne = self.entries@;
                    assert(distinct_keys(ne)) by {
                        assert forall|a: int, b: int| 0 <= a < b < ne.len() implies ne[a].0@
                            != ne[b].0@ by {
                            if a == i as int {
                                assert(old_entries[a].0@ == k);
                            }
                            if b == i as int {
                                assert(old_entries[b].0@ == k);
                            }
                        }
                    }
                    assert forall|k2: Seq<char>| #[trigger] lookup(ne, k2) == (if k2 == k {
                        Some(v)
                    } else {
                        lookup(old_entries, k2)
                    }) by {
                        lemma_lookup_cases(ne, k2);
                        lemma_lookup_cases(old_entries, k2);
                        if k2 == k {
                            lemma_lookup_at(ne, k2, i as int);
                        } else if exists|j: int|
                            0 <= j < old_entries.len() && old_entries[j].0@ == k2 {
                            let j = choose|j: int|
                                0 <= j < old_entries.len() && old_entries[j].0@ == k2;
                            assert(ne[j] == old_entries[j]);
                            lemma_lookup_at(ne, k2, j);
                            lemma_lookup_at(old_entries, k2, j);
                        } else {
                            assert forall|j: int| 0 <= j < ne.len() implies ne[j].0@ != k2 by {
                                if j != i as int {
                                    assert(ne[j] == old_entries[j]);
                                }
                            }
                            lemma_lookup_absent(ne, k2);
                        }
                    }
                    assert(entries_map(ne) =~= entries_map(old_entries).insert(k, v));
                }
            },
            None => {
                self.entries.push((key, value));
                proof {
                    let ne = self.entries@;
                    assert(ne.drop_last() =~= old_entries);
                    assert forall|k2: Seq<char>| #[trigger] lookup(ne, k2) == (if k2 == k {
                        Some(v)
                    } else {
                        lookup(old_entries, k2)
                    }) by {}
                    assert(entries_map(ne) =~= entries_map(old_entries).insert(k, v));
                }
            },
        }
    }

    /// The value stored under `key`, if any.
    pub fn get(&self, key: &str) -> (r: Option<String>)
        requires
            self.wf(),
        ensures
            r is Some == self@.contains_key(key@),
            r matches Some(v) ==> v@ == self@[key@],
    {
        match self.find(key) {
            Some(i) => {
                proof {
                    lemma_lookup_at(self.entries@, key@, i as int);
                }
                Some(self.entries[i].1.clone())
            },
            None => {
                proof {
                    lemma_lookup_absent(self.entries@, key@);
                }
                None
            },
        }
    }

    /// Number of keys.
    pub fn len(&self) -> (r: usize)
        requires
            self.wf(),
        ensures
            r == self@.dom().len(),
    {
        proof {
            lemma_domain_is_keys(self.entries@);
        }
        self.entries.len()
    }

    /// The entries, in the order their keys were first inserted.
    pub fn entries(&self) -> (r: &Vec<(String, String)>)
        requires
            self.wf(),
        ensures
            entries_map(r@) == self@,
            distinct_keys(r@),
    {
        &self.entries
    }
}

proof fn lemma_entries_map_take(s: Seq<(String, String)>, i: int)
    requires
        0 <= i < s.len(),
    ensures
        entries_map(s.take(i + 1)) == entries_map(s.take(i)).insert(s[i].0@, s[i].1@),
{
    let t = s.take(i + 1);
    assert(t.drop_last() =~= s.take(i));
    assert(entries_map(t) =~= entries_map(s.take(i)).insert(s[i].0@, s[i].1@)) by {
        assert forall|k: Seq<char>| #[trigger] lookup(t, k) == (if k == s[i].0@ {
            Some(s[i].1@)
        } else {
            lookup(s.take(i), k)
        }) by {}
    }
}

impl StringMap {
    /// A map with the same keys and values.
    pub fn copy(&self) -> (r: StringMap)
        requires
            self.wf(),
        ensures
            r.wf(),
            r@ == self@,
    {
        let mut r = StringMap::new();
        let n = self.entries.len();
        let mut i: usize = 0;
        proof {
            assert(entries_map(self.entries@.take(0)) =~= Map::<Seq<char>, Seq<char>>::empty());
        }
        while i < n
            invariant
                n == self.entries@.len(),
                i <= n,
                r.wf(),
                r@ == entries_map(self.entries@.take(i as int)),
            decreases n - i,
        {
            proof {
                lemma_entries_map_take(self.entries@, i as int);
            }
            let e = &self.entries[i];
            r.insert(e.0.clone(), e.1.clone());
            i = i + 1;
        }
        proof {
            assert(self.entries@.take(n as int) =~= self.entries@);
        }
        r
    }
}

} // verus!
