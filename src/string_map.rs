use vstd::prelude::*;

verus! {

/// The view of a sequence of owned string pairs.
pub open spec fn pairs_view(s: Seq<(String, String)>) -> Seq<(Seq<char>, Seq<char>)> {
    s.map_values(|p: (String, String)| (p.0@, p.1@))
}

/// The map that a sequence of key-value pairs describes when each later pair
/// overrides every earlier pair with the same key.
pub open spec fn map_of_pairs(s: Seq<(Seq<char>, Seq<char>)>) -> Map<Seq<char>, Seq<char>>
    decreases s.len(),
{
    if s.len() == 0 {
        Map::empty()
    } else {
        map_of_pairs(s.drop_last()).insert(s.last().0, s.last().1)
    }
}

/// No two pairs of the sequence share a key.
pub open spec fn keys_unique(s: Seq<(Seq<char>, Seq<char>)>) -> bool {
    forall|i: int, j: int| 0 <= i < j < s.len() ==> s[i].0 != s[j].0
}

/// A key is in the map exactly when some pair carries it.
pub proof fn lemma_map_of_pairs_domain(s: Seq<(Seq<char>, Seq<char>)>, k: Seq<char>)
    ensures
        map_of_pairs(s).dom().contains(k) <==> exists|i: int| 0 <= i < s.len() && s[i].0 == k,
    decreases s.len(),
{
    if s.len() > 0 {
        lemma_map_of_pairs_domain(s.drop_last(), k);
        if map_of_pairs(s).dom().contains(k) && s.last().0 != k {
            let i = choose|i: int| 0 <= i < s.len() - 1 && s.drop_last()[i].0 == k;
            assert(s[i].0 == k);
        }
        if exists|i: int| 0 <= i < s.len() && s[i].0 == k {
            let i = choose|i: int| 0 <= i < s.len() && s[i].0 == k;
            if i < s.len() - 1 {
                assert(s.drop_last()[i].0 == k);
            }
        }
    }
}

/// The value of a key is the value of the last pair that carries it.
pub proof fn lemma_map_of_pairs_last_wins(s: Seq<(Seq<char>, Seq<char>)>, i: int)
    requires
        0 <= i < s.len(),
        forall|j: int| i < j < s.len() ==> s[j].0 != s[i].0,
    ensures
        map_of_pairs(s).dom().contains(s[i].0),
        map_of_pairs(s)[s[i].0] == s[i].1,
    decreases s.len(),
{
    if i < s.len() - 1 {
        let t = s.drop_last();
        assert forall|j: int| i < j < t.len() implies t[j].0 != t[i].0 by {
            assert(t[j] == s[j]);
        }
        lemma_map_of_pairs_last_wins(t, i);
    }
}

/// Replacing the value of a pair in a sequence with unique keys replaces that
/// key's value in the map.
proof fn lemma_map_of_pairs_update(s: Seq<(Seq<char>, Seq<char>)>, i: int, v: Seq<char>)
    requires
        keys_unique(s),
        0 <= i < s.len(),
    ensures
        map_of_pairs(s.update(i, (s[i].0, v))) == map_of_pairs(s).insert(s[i].0, v),
    decreases s.len(),
{
    let k = s[i].0;
    let u = s.update(i, (k, v));
    if i == s.len() - 1 {
        assert(u.drop_last() == s.drop_last());
        assert(map_of_pairs(u) =~= map_of_pairs(s).insert(k, v));
    } else {
        let t = s.drop_last();
        assert(u.drop_last() == t.update(i, (k, v)));
        assert(t[i] == s[i]);
        lemma_map_of_pairs_update(t, i, v);
        assert(s.last().0 != k);
        assert(map_of_pairs(u) =~= map_of_pairs(s).insert(k, v));
    }
}

/// A map from strings to strings, held as pairs with unique keys.
#[derive(Debug, PartialEq, Eq)]
pub struct StringMap {
    entries: Vec<(String, String)>,
}

impl View for StringMap {
    type V = Map<Seq<char>, Seq<char>>;

    closed spec fn view(&self) -> Map<Seq<char>, Seq<char>> {
        map_of_pairs(pairs_view(self.entries@))
    }
}

impl StringMap {
    #[verifier::type_invariant]
    spec fn entries_unique(&self) -> bool {
        keys_unique(pairs_view(self.entries@))
    }

    /// A map without keys.
    pub fn new() -> (r: StringMap)
        ensures
            r@ == Map::<Seq<char>, Seq<char>>::empty(),
    {
        let r = StringMap { entries: Vec::new() };
        assert(pairs_view(r.entries@) =~= Seq::empty());
        r
    }

    /// The number of keys.
    pub fn len(&self) -> (r: usize)
        ensures
            r == self@.len(),
    {
        proof {
            use_type_invariant(self);
            lemma_map_of_pairs_len(pairs_view(self.entries@));
        }
        self.entries.len()
    }

    /// The value stored under `key`, if any.
    pub fn get(&self, key: &String) -> (r: Option<&String>)
        ensures
            match r {
                Some(v) => self@.dom().contains(key@) && self@[key@] == v@,
                None => !self@.dom().contains(key@),
            },
    {
        proof {
            use_type_invariant(self);
        }
        let ghost s = pairs_view(self.entries@);
        let mut i: usize = 0;
        while i < self.entries.len()
            invariant
                s == pairs_view(self.entries@),
                keys_unique(s),
                i <= self.entries.len(),
                forall|j: int| 0 <= j < i ==> s[j].0 != key@,
            decreases self.entries.len() - i,
        {
            if self.entries[i].0 == *key {
                proof {
                    lemma_map_of_pairs_last_wins(s, i as int);
                }
                return Some(&self.entries[i].1);
            }
            i = i + 1;
        }
        proof {
            lemma_map_of_pairs_domain(s, key@);
        }
        None
    }

    /// Stores `value` under `key`, replacing any earlier value of that key.
    pub fn insert(&mut self, key: String, value: String)
        ensures
            final(self)@ == old(self)@.insert(key@, value@),
    {
        proof {
            use_type_invariant(&*self);
        }
        let mut entries: Vec<(String, String)> = Vec::new();
        std::mem::swap(&mut entries, &mut self.entries);
        insert_pair(&mut entries, key, value);
        self.entries = entries;
    }

    /// Builds the map of a sequence of pairs; a later pair overrides an
    /// earlier one with the same key.
    pub fn from_pairs(pairs: Vec<(String, String)>) -> (r: StringMap)
        ensures
            r@ == map_of_pairs(pairs_view(pairs@)),
    {
        let mut r = StringMap::new();
        let mut i: usize = 0;
        let n = pairs.len();
        let ghost whole = pairs_view(pairs@);
        while i < n
            invariant
                n == pairs@.len(),
                i <= n,
                whole == pairs_view(pairs@),
                r@ == map_of_pairs(whole.subrange(0, i as int)),
            decreases n - i,
        {
            let k = pairs[i].0.clone();
            let v = pairs[i].1.clone();
            r.insert(k, v);
            assert(whole.subrange(0, i + 1).drop_last() =~= whole.subrange(0, i as int));
            i = i + 1;
        }
        assert(whole.subrange(0, n as int) =~= whole);
        r
    }

    /// The pairs of the map, each key once.
    pub fn into_pairs(self) -> (r: Vec<(String, String)>)
        ensures
            keys_unique(pairs_view(r@)),
            map_of_pairs(pairs_view(r@)) == self@,
    {
        proof {
            use_type_invariant(&self);
        }
        self.entries
    }
}

impl Clone for StringMap {
    fn clone(&self) -> (r: StringMap)
        ensures
            r@ == self@,
    {
        proof {
            use_type_invariant(self);
        }
        let mut entries: Vec<(String, String)> = Vec::new();
        let mut i: usize = 0;
        while i < self.entries.len()
            invariant
                i <= self.entries.len(),
                entries@ == self.entries@.subrange(0, i as int),
            decreases self.entries.len() - i,
        {
            let k = self.entries[i].0.clone();
            let v = self.entries[i].1.clone();
            entries.push((k, v));
            assert(entries@ =~= self.entries@.subrange(0, i + 1));
            i = i + 1;
        }
        assert(entries@ =~= self.entries@);
        StringMap { entries }
    }
}

/// Sets `value` as the value of `key` in pairs with unique keys.
fn insert_pair(entries: &mut Vec<(String, String)>, key: String, value: String)
    requires
        keys_unique(pairs_view(old(entries)@)),
    ensures
        keys_unique(pairs_view(final(entries)@)),
        map_of_pairs(pairs_view(final(entries)@)) == map_of_pairs(pairs_view(old(entries)@)).insert(
            key@,
            value@,
        ),
{
    let ghost s = pairs_view(entries@);
    let mut i: usize = 0;
    while i < entries.len()
        invariant
            s == pairs_view(entries@),
            s == pairs_view(old(entries)@),
            keys_unique(s),
            i <= entries.len(),
            forall|j: int| 0 <= j < i ==> s[j].0 != key@,
        decreases entries.len() - i,
    {
        if entries[i].0 == key {
            proof {
                assert(s[i as int].0 == key@);
                lemma_map_of_pairs_update(s, i as int, value@);
            }
            entries.set(i, (key, value));
            let ghost u = s.update(i as int, (key@, value@));
            assert(pairs_view(entries@) =~= u);
            assert(keys_unique(u)) by {
                assert forall|a: int, b: int| 0 <= a < b < u.len() implies u[a].0 != u[b].0 by {
                    assert(u[a].0 == s[a].0 && u[b].0 == s[b].0);
                }
            }
            return;
        }
        i = i + 1;
    }
    entries.push((key, value));
    let ghost u = pairs_view(entries@);
    assert(u.drop_last() =~= s);
    assert(keys_unique(u)) by {
        assert forall|a: int, b: int| 0 <= a < b < u.len() implies u[a].0 != u[b].0 by {
            assert(u[a] == s[a]);
            if b < s.len() {
                assert(u[b] == s[b]);
            }
        }
    }
}

/// A sequence with unique keys describes a map of as many keys.
proof fn lemma_map_of_pairs_len(s: Seq<(Seq<char>, Seq<char>)>)
    requires
        keys_unique(s),
    ensures
        map_of_pairs(s).len() == s.len(),
        map_of_pairs(s).dom().finite(),
    decreases s.len(),
{
    if s.len() > 0 {
        let t = s.drop_last();
        lemma_map_of_pairs_len(t);
        lemma_map_of_pairs_domain(t, s.last().0);
    }
}

} // verus!
