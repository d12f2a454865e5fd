//! Collections keyed by logical names: an insertion-ordered set and an insertion-ordered map.

use vstd::prelude::*;

verus! {

/// The views of a sequence of strings.
pub open spec fn views(v: Seq<String>) -> Seq<Seq<char>> {
    v.map_values(|s: String| s@)
}

/// A set of logical names that remembers the order in which names were first inserted.
pub struct NameSet {
    names: Vec<String>,
}

impl NameSet {
    /// No name occurs twice.
    #[verifier::type_invariant]
    pub open spec fn inv(self) -> bool {
        self.elems().no_duplicates()
    }

    /// The names, in insertion order.
    pub closed spec fn elems(self) -> Seq<Seq<char>> {
        views(self.names@)
    }

    /// The names as a set.
    pub open spec fn to_set(self) -> Set<Seq<char>> {
        self.elems().to_set()
    }

    /// An empty set of names.
    pub fn new() -> (s: Self)
        ensures
            s.elems() == Seq::<Seq<char>>::empty(),
    {
        let s = NameSet { names: Vec::new() };
        assert(views(s.names@) =~= Seq::<Seq<char>>::empty());
        s
    }

    /// The number of names.
    pub fn len(&self) -> (n: usize)
        ensures
            n == self.elems().len(),
    {
        self.names.len()
    }

    /// Whether there is no name.
    pub fn is_empty(&self) -> (b: bool)
        ensures
            b == (self.elems().len() == 0),
    {
        self.names.len() == 0
    }

    /// The `i`-th name in insertion order.
    pub fn get(&self, i: usize) -> (name: &String)
        requires
            i < self.elems().len(),
        ensures
            name@ == self.elems()[i as int],
    {
        &self.names[i]
    }

    /// Whether `name` (exactly, without trimming) is in the set.
    pub fn contains(&self, name: &str) -> (b: bool)
        ensures
            b == self.elems().contains(name@),
    {
        let key = name.to_owned();
        let mut i: usize = 0;
        while i < self.names.len()
            invariant
                i <= self.names@.len(),
                key@ == name@,
                forall|k: int| 0 <= k < i ==> self.names@[k]@ != name@,
            decreases self.names@.len() - i,
        {
            if self.names[i] == key {
                assert(self.elems()[i as int] == name@);
                return true;
            }
            i = i + 1;
        }
        assert forall|k: int| 0 <= k < self.elems().len() implies self.elems()[k] != name@ by {
            assert(self.elems()[k] == self.names@[k]@);
        }
        false
    }

    /// Inserts `name`; returns whether it was not present before.
    pub fn insert(&mut self, name: String) -> (added: bool)
        ensures
            added == !old(self).elems().contains(name@),
            final(self).elems() == (if added {
                old(self).elems().push(name@)
            } else {
                old(self).elems()
            }),
    {
        proof {
            use_type_invariant(&*self);
        }
        if self.contains(name.as_str()) {
            false
        } else {
            let ghost before = self.names@;
            proof {
                assert(views(before.push(name)) =~= views(before).push(name@));
            }
            let mut names: Vec<String> = Vec::new();
            std::mem::swap(&mut names, &mut self.names);
            assert(names@ == before);
            names.push(name);
            self.names = names;
            true
        }
    }
}


impl NameSet {
    /// A copy of this set, in the same order.
    pub fn duplicate(&self) -> (c: NameSet)
        ensures
            c.elems() == self.elems(),
    {
        proof {
            use_type_invariant(self);
        }
        let mut names: Vec<String> = Vec::new();
        let mut i: usize = 0;
        while i < self.names.len()
            invariant
                i <= self.names@.len(),
                views(names@) == views(self.names@).take(i as int),
            decreases self.names@.len() - i,
        {
            let ghost before = names@;
            names.push(self.names[i].clone());
            assert(views(names@) =~= views(before).push(self.names@[i as int]@));
            assert(views(self.names@).take(i + 1) =~= views(self.names@).take(i as int).push(
                views(self.names@)[i as int],
            ));
            i = i + 1;
        }
        assert(views(self.names@).take(self.names@.len() as int) =~= views(self.names@));
        NameSet { names }
    }
}

/// A map from logical names to values, kept in insertion order.
pub struct NameMap<V> {
    keys: Vec<String>,
    vals: Vec<V>,
}

impl<V> NameMap<V> {
    #[verifier::type_invariant]
    spec fn inv(self) -> bool {
        &&& self.keys@.len() == self.vals@.len()
        &&& views(self.keys@).no_duplicates()
    }

    /// The mapping held by the table.
    pub closed spec fn map(self) -> Map<Seq<char>, V> {
        Map::new(
            |k: Seq<char>| views(self.keys@).contains(k),
            |k: Seq<char>|
                self.vals@[choose|i: int| 0 <= i < self.keys@.len() && self.keys@[i]@ == k],
        )
    }

    /// An empty table.
    pub fn new() -> (t: Self)
        ensures
            t.map() == Map::<Seq<char>, V>::empty(),
    {
        let t = NameMap { keys: Vec::new(), vals: Vec::new() };
        assert(t.map() =~= Map::<Seq<char>, V>::empty());
        t
    }

    /// The number of entries.
    pub fn len(&self) -> (n: usize)
        ensures
            n == self.map().len(),
    {
        proof {
            use_type_invariant(self);
            views(self.keys@).unique_seq_to_set();
            assert(self.map().dom() =~= views(self.keys@).to_set());
        }
        self.keys.len()
    }

    fn find(&self, name: &str) -> (r: Option<usize>)
        ensures
            match r {
                Some(i) => i < self.keys@.len() && self.keys@[i as int]@ == name@,
                None => forall|i: int| 0 <= i < self.keys@.len() ==> self.keys@[i]@ != name@,
            },
    {
        proof {
            use_type_invariant(self);
        }
        let key = name.to_owned();
        let mut i: usize = 0;
        while i < self.keys.len()
            invariant
                i <= self.keys@.len(),
                key@ == name@,
                forall|k: int| 0 <= k < i ==> self.keys@[k]@ != name@,
            decreases self.keys@.len() - i,
        {
            if self.keys[i] == key {
                return Some(i);
            }
            i = i + 1;
        }
        None
    }

    /// The identifier stored for `name`, if any.
    pub fn get(&self, name: &str) -> (r: Option<&V>)
        ensures
            match r {
                Some(v) => self.map().dom().contains(name@) && *v == self.map()[name@],
                None => !self.map().dom().contains(name@),
            },
    {
        proof {
            use_type_invariant(self);
        }
        match self.find(name) {
            Some(i) => {
                assert(views(self.keys@)[i as int] == name@);
                let ghost c = choose|j: int| 0 <= j < self.keys@.len() && self.keys@[j]@ == name@;
                assert(views(self.keys@)[c] == name@);
                Some(&self.vals[i])
            },
            None => {
                assert(!views(self.keys@).contains(name@));
                None
            },
        }
    }

    /// Stores `id` for `name`, replacing any earlier identifier.
    pub fn insert(&mut self, name: String, id: V)
        ensures
            final(self).map() == old(self).map().insert(name@, id),
    {
        proof {
            use_type_invariant(&*self);
        }
        let ghost old_map = self.map();
        let mut tmp = NameMap::<V>::new();
        std::mem::swap(&mut tmp, self);
        proof {
            use_type_invariant(&tmp);
        }
        let ghost ok = tmp.keys@;
        let ghost oi = tmp.vals@;
        assert(old_map == tmp.map());
        match tmp.find(name.as_str()) {
            Some(i) => {
                let NameMap { keys: keys2, vals: mut ids2 } = tmp;
                ids2.set(i, id);
                let t = NameMap { keys: keys2, vals: ids2 };
                assert(t.map() =~= old_map.insert(name@, id)) by {
                    assert(t.map().dom() =~= old_map.dom());
                    assert(old_map.dom().contains(name@)) by {
                        assert(views(ok)[i as int] == name@);
                    }
                    assert forall|k: Seq<char>| #[trigger] t.map().dom().contains(k) implies t.map()[k]
                        == old_map.insert(name@, id)[k] by {
                        let c = choose|j: int| 0 <= j < ok.len() && ok[j]@ == k;
                        assert(views(ok)[c] == k);
                        assert(old_map[k] == oi[c]);
                        if k != name@ {
                            assert(c != i);
                        } else {
                            assert(views(ok)[i as int] == k);
                            assert(c == i);
                        }
                    }
                }
                *self = t;
            },
            None => {
                let NameMap { keys: mut keys2, vals: mut ids2 } = tmp;
                let ghost nv = name@;
                keys2.push(name);
                ids2.push(id);
                proof {
                    assert(views(keys2@) =~= views(ok).push(nv));
                    assert(!views(ok).contains(nv));
                }
                let t = NameMap { keys: keys2, vals: ids2 };
                assert(t.map() =~= old_map.insert(nv, id)) by {
                    assert forall|k: Seq<char>|
                        #[trigger] t.map().dom().contains(k) == old_map.insert(nv, id).dom().contains(k) by {
                        if views(ok).contains(k) {
                            let j = choose|j: int| 0 <= j < views(ok).len() && views(ok)[j] == k;
                            assert(views(keys2@)[j] == k);
                        }
                        if views(keys2@).contains(k) && k != nv {
                            let j = choose|j: int| 0 <= j < views(keys2@).len() && views(keys2@)[j] == k;
                            assert(views(ok)[j] == k);
                        }
                        if k == nv {
                            assert(views(keys2@)[ok.len() as int] == k);
                        }
                    }
                    assert forall|k: Seq<char>| #[trigger] t.map().dom().contains(k) implies t.map()[k]
                        == old_map.insert(nv, id)[k] by {
                        let c = choose|j: int| 0 <= j < keys2@.len() && keys2@[j]@ == k;
                        assert(views(keys2@)[c] == k);
                        if k != nv {
                            assert(views(keys2@).contains(k));
                            let j = choose|j: int| 0 <= j < views(keys2@).len() && views(keys2@)[j] == k;
                            assert(views(ok)[j] == k);
                            let c0 = choose|j: int| 0 <= j < ok.len() && ok[j]@ == k;
                            assert(views(ok)[c0] == k);
                        } else {
                            assert(views(keys2@)[ok.len() as int] == k);
                        }
                    }
                }
                *self = t;
            },
        }
    }
}


impl Default for NameSet {
    fn default() -> (s: Self)
        ensures
            s.elems() == Seq::<Seq<char>>::empty(),
    {
        NameSet::new()
    }
}

impl<V> NameMap<V> {
    /// Removes the entry of `name`, returning its value if there was one.
    pub fn remove(&mut self, name: &str) -> (r: Option<V>)
        ensures
            match r {
                Some(v) => old(self).map().dom().contains(name@) && v == old(self).map()[name@],
                None => !old(self).map().dom().contains(name@),
            },
            final(self).map() == old(self).map().remove(name@),
    {
        proof {
            use_type_invariant(&*self);
        }
        let ghost old_map = self.map();
        let mut tmp = NameMap::<V>::new();
        std::mem::swap(&mut tmp, self);
        proof {
            use_type_invariant(&tmp);
        }
        let ghost ok = tmp.keys@;
        let ghost ov = tmp.vals@;
        assert(old_map == tmp.map());
        match tmp.find(name) {
            None => {
                assert(!views(ok).contains(name@));
                assert(old_map.remove(name@) =~= old_map);
                *self = tmp;
                None
            },
            Some(i) => {
                let NameMap { keys: mut keys2, vals: mut vals2 } = tmp;
                let _k = keys2.remove(i);
                let v = vals2.remove(i);
                assert(views(keys2@) =~= views(ok).remove(i as int));
                assert(views(keys2@).no_duplicates()) by {
                    assert forall|a: int, b: int|
                        0 <= a < b < views(keys2@).len() implies views(keys2@)[a] != views(keys2@)[b] by {
                        let oa = if a < i { a } else { a + 1 };
                        let ob = if b < i { b } else { b + 1 };
                        assert(views(keys2@)[a] == views(ok)[oa]);
                        assert(views(keys2@)[b] == views(ok)[ob]);
                    }
                }
                let t = NameMap { keys: keys2, vals: vals2 };
                assert(views(ok)[i as int] == name@);
                let ghost c0 = choose|j: int| 0 <= j < ok.len() && ok[j]@ == name@;
                assert(views(ok)[c0] == name@);
                assert(c0 == i);
                assert(t.map() =~= old_map.remove(name@)) by {
                    assert forall|k: Seq<char>|
                        #[trigger] t.map().dom().contains(k) == old_map.remove(name@).dom().contains(k) by {
                        if views(ok).contains(k) && k != name@ {
                            let j = choose|j: int| 0 <= j < views(ok).len() && views(ok)[j] == k;
                            assert(j != i);
                            let nj = if j < i { j } else { j - 1 };
                            assert(views(keys2@)[nj] == k);
                        }
                        if views(keys2@).contains(k) {
                            let j = choose|j: int| 0 <= j < views(keys2@).len() && views(keys2@)[j] == k;
                            let oj = if j < i { j } else { j + 1 };
                            assert(views(ok)[oj] == k);
                            assert(oj != i);
                        }
                    }
                    assert forall|k: Seq<char>| #[trigger] t.map().dom().contains(k) implies t.map()[k]
                        == old_map.remove(name@)[k] by {
                        let c = choose|j: int| 0 <= j < keys2@.len() && keys2@[j]@ == k;
                        assert(views(keys2@)[c] == k);
                        let oc = if c < i { c } else { c + 1 };
                        assert(views(ok)[oc] == k);
                        let c1 = choose|j: int| 0 <= j < ok.len() && ok[j]@ == k;
                        assert(views(ok)[c1] == k);
                        assert(c1 == oc);
                    }
                }
                *self = t;
                Some(v)
            },
        }
    }
}

impl<V> Default for NameMap<V> {
    fn default() -> (t: Self)
        ensures
            t.map() == Map::<Seq<char>, V>::empty(),
    {
        NameMap::new()
    }
}

} // verus!
