use vstd::prelude::*;

verus! {

/// The map described by a sequence of key/value entries, later entries
/// winning. A well-formed [`Store`] never holds two entries for one key,
/// so for it the order does not matter.
pub open spec fn map_of(s: Seq<(String, String)>) -> Map<Seq<char>, Seq<char>>
    decreases s.len(),
{
    if s.len() == 0 {
        Map::<Seq<char>, Seq<char>>::empty()
    } else {
        map_of(s.drop_last()).insert(s.last().0@, s.last().1@)
    }
}

/// No two entries of the sequence share a key.
pub open spec fn distinct_keys(s: Seq<(String, String)>) -> bool {
    forall|i: int, j: int| 0 <= i < j < s.len() ==> s[i].0@ != s[j].0@
}

/// A mapping from string keys to string values. Reads and writes act on
/// an exclusively owned value; callers that share one store across
/// request workers serialize access with a lock around the whole value,
/// so every operation here sees and leaves a consistent mapping.
pub struct Store {
    entries: Vec<(String, String)>,
}

impl View for Store {
    type V = Map<Seq<char>, Seq<char>>;

    closed spec fn view(&self) -> Map<Seq<char>, Seq<char>> {
        map_of(self.entries@)
    }
}

/// A key occurs in `map_of(s)` exactly when some entry of `s` holds it.
proof fn lemma_map_of_domain(s: Seq<(String, String)>, k: Seq<char>)
    ensures
        map_of(s).contains_key(k) <==> exists|i: int| 0 <= i < s.len() && s[i].0@ == k,
    decreases s.len(),
{
    if s.len() > 0 {
        lemma_map_of_domain(s.drop_last(), k);
        if s.last().0@ == k {
            assert(s[s.len() - 1].0@ == k);
        } else if map_of(s).contains_key(k) {
            let i = choose|i: int| 0 <= i < s.drop_last().len() && s.drop_last()[i].0@ == k;
            assert(s[i].0@ == k);
        } else if exists|i: int| 0 <= i < s.len() && s[i].0@ == k {
            let i = choose|i: int| 0 <= i < s.len() && s[i].0@ == k;
            assert(s.drop_last()[i].0@ == k);
        }
    }
}

/// Under distinct keys, the entry at index `i` gives the map's value for
/// its key.
proof fn lemma_map_of_at(s: Seq<(String, String)>, i: int)
    requires
        distinct_keys(s),
        0 <= i < s.len(),
    ensures
        map_of(s).contains_key(s[i].0@),
        map_of(s)[s[i].0@] == s[i].1@,
    decreases s.len(),
{
    if i < s.len() - 1 {
        assert(distinct_keys(s.drop_last()));
        lemma_map_of_at(s.drop_last(), i);
        assert(s.drop_last()[i] == s[i]);
        assert(s.last().0@ != s[i].0@);
    }
}

/// Removing the entry that holds key `k` removes exactly `k` from the map.
proof fn lemma_map_of_remove(s: Seq<(String, String)>, i: int, k: Seq<char>)
    requires
        distinct_keys(s),
        0 <= i < s.len(),
        s[i].0@ == k,
    ensures
        map_of(s.remove(i)) == map_of(s).remove(k),
    decreases s.len(),
{
    s.remove_ensures(i);
    if i == s.len() - 1 {
        assert(s.remove(i) =~= s.drop_last());
        lemma_map_of_domain(s.drop_last(), k);
        assert(forall|j: int|
            0 <= j < s.drop_last().len() ==> #[trigger] s.drop_last()[j].0@ != k);
        assert(!map_of(s.drop_last()).contains_key(k));
        assert(map_of(s).remove(k) =~= map_of(s.drop_last()));
    } else {
        let t = s.drop_last();
        assert(distinct_keys(t));
        assert(t[i] == s[i]);
        lemma_map_of_remove(t, i, k);
        assert(s.remove(i).drop_last() =~= t.remove(i));
        assert(s.remove(i).last() == s.last());
        assert(map_of(s.remove(i)) == map_of(t.remove(i)).insert(s.last().0@, s.last().1@));
        assert(s.last().0@ != k);
        assert(map_of(t).remove(k).insert(s.last().0@, s.last().1@) =~= map_of(t).insert(
            s.last().0@,
            s.last().1@,
        ).remove(k));
    }
}

/// The views of a sequence of entries: each key and value as its
/// character sequence.
pub open spec fn view_pairs(s: Seq<(String, String)>) -> Seq<(Seq<char>, Seq<char>)> {
    s.map_values(|p: (String, String)| (p.0@, p.1@))
}

/// `es` enumerates the bindings of `m` exactly: every listed pair is a
/// binding of `m`, every key of `m` is listed, and no key is listed twice.
pub open spec fn entries_match(es: Seq<(Seq<char>, Seq<char>)>, m: Map<Seq<char>, Seq<char>>) -> bool {
    &&& forall|i: int|
        0 <= i < es.len() ==> m.contains_key((#[trigger] es[i]).0) && m[es[i].0] == es[i].1
    &&& forall|k: Seq<char>|
        #[trigger] m.contains_key(k) ==> exists|i: int| 0 <= i < es.len() && (#[trigger] es[i]).0 == k
    &&& forall|i: int, j: int| 0 <= i < j < es.len() ==> (#[trigger] es[i]).0 != (#[trigger] es[j]).0
}

/// The three bindings every store starts out with.
pub open spec fn seeded_map() -> Map<Seq<char>, Seq<char>> {
    Map::<Seq<char>, Seq<char>>::empty().insert("key1"@, "v1"@).insert("key2"@, "v2"@).insert(
        "key3"@,
        "v3"@,
    )
}

impl Store {
    /// No two entries share a key, so the entry list and the abstract map
    /// describe each other exactly.
    pub closed spec fn wf(&self) -> bool {
        distinct_keys(self.entries@)
    }

    /// A fresh store, pre-populated with the three fixed bindings.
    pub fn new() -> (r: Store)
        ensures
            r.wf(),
            r@ == seeded_map(),
    {
        let mut entries: Vec<(String, String)> = Vec::new();
        entries.push(("key1".to_owned(), "v1".to_owned()));
        entries.push(("key2".to_owned(), "v2".to_owned()));
        entries.push(("key3".to_owned(), "v3".to_owned()));
        proof {
            reveal_strlit("key1");
            reveal_strlit("key2");
            reveal_strlit("key3");
            assert("key1"@[3] == '1' && "key2"@[3] == '2' && "key3"@[3] == '3');
            let s = entries@;
            assert(s.len() == 3);
            let s2 = s.drop_last();
            let s1 = s2.drop_last();
            let s0 = s1.drop_last();
            assert(s0.len() == 0);
            assert(s1.last() == s[0] && s2.last() == s[1] && s.last() == s[2]);
            assert(s[0].0@ == "key1"@ && s[1].0@ == "key2"@ && s[2].0@ == "key3"@);
            assert(map_of(s0) == Map::<Seq<char>, Seq<char>>::empty());
            assert(map_of(s1) == map_of(s0).insert(s[0].0@, s[0].1@));
            assert(map_of(s2) == map_of(s1).insert(s[1].0@, s[1].1@));
            assert(map_of(s) == map_of(s2).insert(s[2].0@, s[2].1@));
            assert(distinct_keys(s));
        }
        Store { entries }
    }

    /// The index of the entry holding `key`, if any.
    fn index_of(&self, key: &String) -> (r: Option<usize>)
        ensures
            match r {
                Some(i) => i < self.entries@.len() && self.entries@[i as int].0@ == key@,
                None => forall|j: int|
                    0 <= j < self.entries@.len() ==> #[trigger] self.entries@[j].0@ != key@,
            },
    {
        let n = self.entries.len();
        let mut i: usize = 0;
        while i < n
            invariant
                i <= n,
                n == self.entries@.len(),
                forall|j: int| 0 <= j < i ==> #[trigger] self.entries@[j].0@ != key@,
            decreases n - i,
        {
            if self.entries[i].0 == *key {
                return Some(i);
            }
            i = i + 1;
        }
        None
    }

    /// Read-only lookup: the current value bound to `key`, or `None` when
    /// the store holds no such key.
    pub fn get(&self, key: &String) -> (r: Option<String>)
        requires
            self.wf(),
        ensures
            match r {
                Some(v) => self@.contains_key(key@) && v@ == self@[key@],
                None => !self@.contains_key(key@),
            },
    {
        proof {
            lemma_map_of_domain(self.entries@, key@);
        }
        match self.index_of(key) {
            Some(i) => {
                proof {
                    lemma_map_of_at(self.entries@, i as int);
                }
                Some(self.entries[i].1.clone())
            },
            None => None,
        }
    }

    /// Insert-or-overwrite: afterwards `key` is bound to `value` and every
    /// other binding is unchanged.
    pub fn set(&mut self, key: String, value: String)
        requires
            old(self).wf(),
        ensures
            final(self).wf(),
            final(self)@ == old(self)@.insert(key@, value@),
    {
        let ghost s0 = self.entries@;
        match self.index_of(&key) {
            Some(i) => {
                proof {
                    lemma_map_of_remove(s0, i as int, key@);
                    s0.remove_ensures(i as int);
                }
                self.entries.remove(i);
                proof {
                    assert forall|j: int|
                        0 <= j < self.entries@.len() implies #[trigger] self.entries@[j].0@
                        != key@ by {
                        if j < i {
                            assert(self.entries@[j] == s0[j]);
                        } else {
                            assert(self.entries@[j] == s0[j + 1]);
                        }
                    }
                    assert(distinct_keys(self.entries@));
                }
            },
            None => {},
        }
        let ghost s1 = self.entries@;
        self.entries.push((key, value));
        proof {
            assert(self.entries@.drop_last() =~= s1);
            assert(self.entries@.last() == (key, value));
            assert(map_of(self.entries@) == map_of(s1).insert(key@, value@));
            lemma_map_of_domain(s1, key@);
            assert(map_of(s1).insert(key@, value@) =~= map_of(s0).insert(key@, value@));
            assert(distinct_keys(self.entries@));
        }
    }

    /// A consistent copy of all entries, for listing: exactly the current
    /// bindings, each key once.
    pub fn snapshot(&self) -> (r: Vec<(String, String)>)
        requires
            self.wf(),
        ensures
            entries_match(view_pairs(r@), self@),
    {
        let mut out: Vec<(String, String)> = Vec::new();
        let n = self.entries.len();
        let mut i: usize = 0;
        while i < n
            invariant
                i <= n,
                n == self.entries@.len(),
                out@.len() == i,
                forall|j: int| 0 <= j < i ==> out@[j] == self.entries@[j],
            decreases n - i,
        {
            let e = &self.entries[i];
            out.push((e.0.clone(), e.1.clone()));
            i = i + 1;
        }
        proof {
            assert(out@ =~= self.entries@);
            let es = view_pairs(out@);
            assert forall|i: int|
                0 <= i < es.len() implies self@.contains_key((#[trigger] es[i]).0) && self@[es[i].0]
                == es[i].1 by {
                lemma_map_of_at(self.entries@, i);
            }
            assert forall|k: Seq<char>| #[trigger]
                self@.contains_key(k) implies exists|i: int|
                0 <= i < es.len() && (#[trigger] es[i]).0 == k by {
                lemma_map_of_domain(self.entries@, k);
                let i = choose|i: int| 0 <= i < self.entries@.len() && self.entries@[i].0@ == k;
                assert(es[i].0 == k);
            }
        }
        out
    }
}

} // verus!
