use vstd::prelude::*;

verus! {

/// Keys whose executable equality agrees with the equality of their views.
pub trait KeyEq: View + Sized {
    fn key_eq(&self, other: &Self) -> (r: bool)
        ensures
            r == (self@ == other@),
    ;

    fn key_clone(&self) -> (r: Self)
        ensures
            r@ == self@,
    ;
}

impl KeyEq for usize {
    fn key_eq(&self, other: &Self) -> (r: bool) {
        *self == *other
    }

    fn key_clone(&self) -> (r: Self) {
        *self
    }
}

impl KeyEq for String {
    fn key_eq(&self, other: &Self) -> (r: bool) {
        *self == *other
    }

    fn key_clone(&self) -> (r: Self) {
        self.clone()
    }
}

/// No key occurs twice in an association list.
pub open spec fn keys_unique<K, V>(s: Seq<(K, V)>) -> bool {
    forall|i: int, j: int| 0 <= i < j < s.len() ==> s[i].0 != s[j].0
}

/// The map that an association list stands for (a later entry wins).
pub open spec fn map_of<K, V>(s: Seq<(K, V)>) -> Map<K, V>
    decreases s.len(),
{
    if s.len() == 0 {
        Map::empty()
    } else {
        map_of(s.drop_last()).insert(s.last().0, s.last().1)
    }
}

pub proof fn lemma_map_of_dom<K, V>(s: Seq<(K, V)>, k: K)
    ensures
        map_of(s).contains_key(k) <==> exists|i: int| 0 <= i < s.len() && s[i].0 == k,
    decreases s.len(),
{
    if s.len() > 0 {
        lemma_map_of_dom(s.drop_last(), k);
        if map_of(s.drop_last()).contains_key(k) {
            let i = choose|i: int| 0 <= i < s.drop_last().len() && s.drop_last()[i].0 == k;
            assert(s[i].0 == k);
        }
        if exists|i: int| 0 <= i < s.len() && s[i].0 == k {
            let i = choose|i: int| 0 <= i < s.len() && s[i].0 == k;
            if i < s.len() - 1 {
                assert(s.drop_last()[i].0 == k);
            }
        }
    }
}

pub proof fn lemma_map_of_index<K, V>(s: Seq<(K, V)>, i: int)
    requires
        keys_unique(s),
        0 <= i < s.len(),
    ensures
        map_of(s).contains_key(s[i].0),
        map_of(s)[s[i].0] == s[i].1,
    decreases s.len(),
{
    if i < s.len() - 1 {
        lemma_map_of_index(s.drop_last(), i);
        assert(s.drop_last()[i] == s[i]);
    }
}

pub proof fn lemma_map_of_remove<K, V>(s: Seq<(K, V)>, i: int)
    requires
        keys_unique(s),
        0 <= i < s.len(),
    ensures
        keys_unique(s.remove(i)),
        map_of(s.remove(i)) =~= map_of(s).remove(s[i].0),
    decreases s.len(),
{
    let k = s[i].0;
    if i == s.len() - 1 {
        assert(s.remove(i) =~= s.drop_last());
        lemma_map_of_dom(s.drop_last(), k);
        assert(!map_of(s.drop_last()).contains_key(k));
    } else {
        let t = s.drop_last();
        lemma_map_of_remove(t, i);
        assert(s.remove(i) =~= t.remove(i).push(s.last()));
        assert(s.remove(i).drop_last() =~= t.remove(i));
    }
}

pub proof fn lemma_push_unique<K, V>(s: Seq<(K, V)>, e: (K, V))
    requires
        keys_unique(s),
        forall|i: int| 0 <= i < s.len() ==> s[i].0 != e.0,
    ensures
        keys_unique(s.push(e)),
        map_of(s.push(e)) == map_of(s).insert(e.0, e.1),
{
    assert(s.push(e).drop_last() =~= s);
}

/// The entries of a list, each key taken by its view.
pub open spec fn pairs_of<K: View, V>(s: Seq<(K, V)>) -> Seq<(K::V, V)> {
    s.map_values(|e: (K, V)| (e.0@, e.1))
}

fn find_in<K: KeyEq, V>(entries: &Vec<(K, V)>, k: &K) -> (r: Option<usize>)
    ensures
        r matches Some(i) ==> i < entries@.len() && pairs_of(entries@)[i as int].0 == k@,
        r is None ==> forall|i: int| 0 <= i < entries@.len() ==> pairs_of(entries@)[i].0 != k@,
{
    let mut i: usize = 0;
    while i < entries.len()
        invariant
            i <= entries.len(),
            forall|j: int| 0 <= j < i ==> pairs_of(entries@)[j].0 != k@,
        decreases entries.len() - i,
    {
        if entries[i].0.key_eq(k) {
            return Some(i);
        }
        i = i + 1;
    }
    None
}

/// An association list from keys to values in which no key occurs twice.
pub struct Table<K: KeyEq, V> {
    entries: Vec<(K, V)>,
}

impl<K: KeyEq, V> Table<K, V> {
    /// The entries, each key taken by its view.
    pub closed spec fn pairs(&self) -> Seq<(K::V, V)> {
        pairs_of(self.entries@)
    }

    #[verifier::type_invariant]
    closed spec fn wf(&self) -> bool {
        keys_unique(self.pairs())
    }

    pub closed spec fn view(&self) -> Map<K::V, V> {
        map_of(self.pairs())
    }

    pub fn new() -> (t: Self)
        ensures
            t.view() == Map::<K::V, V>::empty(),
    {
        let t = Table { entries: Vec::new() };
        assert(t.pairs() =~= Seq::empty());
        t
    }

    pub fn contains_key(&self, k: &K) -> (b: bool)
        ensures
            b == self.view().contains_key(k@),
    {
        proof {
            lemma_map_of_dom(self.pairs(), k@);
        }
        find_in(&self.entries, k).is_some()
    }

    pub fn get(&self, k: &K) -> (r: Option<&V>)
        ensures
            r is Some <==> self.view().contains_key(k@),
            r matches Some(v) ==> *v == self.view()[k@],
    {
        proof {
            use_type_invariant(self);
            lemma_map_of_dom(self.pairs(), k@);
        }
        match find_in(&self.entries, k) {
            Some(i) => {
                proof {
                    lemma_map_of_index(self.pairs(), i as int);
                }
                Some(&self.entries[i].1)
            },
            None => None,
        }
    }

    /// The entries, each key once, in no particular order.
    pub fn into_entries(self) -> (r: Vec<(K, V)>)
        ensures
            keys_unique(pairs_of(r@)),
            map_of(pairs_of(r@)) == self.view(),
    {
        proof {
            use_type_invariant(&self);
        }
        self.entries
    }

    /// Removes the entry of `k`, handing back its value.
    pub fn remove(&mut self, k: &K) -> (r: Option<V>)
        ensures
            final(self).view() == old(self).view().remove(k@),
            r is Some <==> old(self).view().contains_key(k@),
            r matches Some(v) ==> v == old(self).view()[k@],
    {
        proof {
            use_type_invariant(&*self);
            lemma_map_of_dom(self.pairs(), k@);
        }
        let ghost before = self.pairs();
        let mut entries: Vec<(K, V)> = Vec::new();
        std::mem::swap(&mut entries, &mut self.entries);
        assert(pairs_of(entries@) == before);
        match find_in(&entries, k) {
            Some(i) => {
                proof {
                    lemma_map_of_index(before, i as int);
                    lemma_map_of_remove(before, i as int);
                }
                let (_key, value) = entries.remove(i);
                assert(pairs_of(entries@) =~= before.remove(i as int));
                self.entries = entries;
                Some(value)
            },
            None => {
                self.entries = entries;
                assert(self.view() =~= self.view().remove(k@));
                None
            },
        }
    }

    /// Sets the value of `k`, handing back the value it replaced.
    pub fn insert(&mut self, k: K, v: V) -> (r: Option<V>)
        ensures
            final(self).view() == old(self).view().insert(k@, v),
            r is Some <==> old(self).view().contains_key(k@),
            r matches Some(w) ==> w == old(self).view()[k@],
    {
        let r = self.remove(&k);
        proof {
            use_type_invariant(&*self);
        }
        let ghost before = self.pairs();
        proof {
            lemma_map_of_dom(before, k@);
            lemma_push_unique(before, (k@, v));
        }
        let mut entries: Vec<(K, V)> = Vec::new();
        std::mem::swap(&mut entries, &mut self.entries);
        entries.push((k, v));
        assert(pairs_of(entries@) =~= before.push((k@, v)));
        self.entries = entries;
        assert(self.view() =~= old(self).view().insert(k@, v));
        r
    }
}

} // verus!
