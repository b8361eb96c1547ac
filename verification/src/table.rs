//! Values found by name.

use vstd::prelude::*;

verus! {

/// One named value.
#[derive(Debug)]
pub struct NamedEntry<V> {
    /// The name.
    pub name: String,
    /// The value.
    pub value: V,
}

/// A table of values, each found by its name.
#[derive(Debug)]
pub struct NameTable<V> {
    entries: Vec<NamedEntry<V>>,
}

spec fn first_at<V>(es: Seq<NamedEntry<V>>, name: Seq<char>, i: int) -> bool {
    &&& 0 <= i < es.len()
    &&& es[i].name@ == name
    &&& forall|j: int| 0 <= j < i ==> (#[trigger] es[j]).name@ != name
}

impl<V> View for NameTable<V> {
    type V = Map<Seq<char>, V>;

    closed spec fn view(&self) -> Map<Seq<char>, V> {
        Map::new(
            |name: Seq<char>| exists|i: int| first_at(self.entries@, name, i),
            |name: Seq<char>|
                self.entries@[choose|i: int| first_at(self.entries@, name, i)].value,
        )
    }
}

impl<V> NameTable<V> {
    /// An empty table.
    pub fn new() -> (t: Self)
        ensures
            t@ == Map::<Seq<char>, V>::empty(),
    {
        let t = NameTable { entries: Vec::new() };
        assert(t@ =~= Map::<Seq<char>, V>::empty());
        t
    }

    fn position(&self, name: &String) -> (r: Option<usize>)
        ensures
            match r {
                Some(i) => first_at(self.entries@, name@, i as int),
                None => forall|j: int| 0 <= j < self.entries@.len() ==> (
                #[trigger] self.entries@[j]).name@ != name@,
            },
    {
        let mut i: usize = 0;
        while i < self.entries.len()
            invariant
                i <= self.entries@.len(),
                forall|j: int| 0 <= j < i ==> (#[trigger] self.entries@[j]).name@ != name@,
            decreases self.entries@.len() - i,
        {
            if self.entries[i].name == *name {
                return Some(i);
            }
            i = i + 1;
        }
        None
    }

    /// Gives a name a value, in place of the value it may have had.
    pub fn insert(&mut self, name: String, value: V)
        ensures
            final(self)@ == old(self)@.insert(name@, value),
    {
        let ghost before = self.entries@;
        let ghost key = name@;
        match self.position(&name) {
            Some(i) => {
                self.entries.set(i, NamedEntry { name, value });
                let ghost after = self.entries@;
                proof {
                    assert forall|n: Seq<char>, k: int| first_at(before, n, k) implies first_at(
                        after,
                        n,
                        k,
                    ) by {
                        assert forall|j: int| 0 <= j < k implies (#[trigger] after[j]).name@
                            != n by {
                            assert(before[j].name@ != n);
                        }
                    }
                    assert forall|n: Seq<char>, k: int| first_at(after, n, k) implies first_at(
                        before,
                        n,
                        k,
                    ) by {
                        assert forall|j: int| 0 <= j < k implies (#[trigger] before[j]).name@
                            != n by {
                            assert(after[j].name@ != n);
                        }
                    }
                    assert(first_at(after, key, i as int));
                    assert(self@ =~= old(self)@.insert(key, value)) by {
                        Self::lemma_same_views(before, after, key, value);
                    }
                }
            },
            None => {
                self.entries.push(NamedEntry { name, value });
                let ghost after = self.entries@;
                proof {
                    assert forall|n: Seq<char>, k: int| first_at(before, n, k) implies first_at(
                        after,
                        n,
                        k,
                    ) by {
                        assert forall|j: int| 0 <= j < k implies (#[trigger] after[j]).name@
                            != n by {
                            assert(before[j].name@ != n);
                        }
                    }
                    assert forall|n: Seq<char>, k: int|
                        first_at(after, n, k) && n != key implies first_at(before, n, k) by {
                        assert forall|j: int| 0 <= j < k implies (#[trigger] before[j]).name@
                            != n by {
                            assert(after[j].name@ != n);
                        }
                    }
                    assert(first_at(after, key, before.len() as int)) by {
                        assert forall|j: int| 0 <= j < before.len() implies (
                        #[trigger] after[j]).name@ != key by {
                            assert(before[j].name@ != key);
                        }
                    }
                    assert(self@ =~= old(self)@.insert(key, value)) by {
                        Self::lemma_same_views(before, after, key, value);
                    }
                }
            },
        }
    }

    proof fn lemma_same_views(
        before: Seq<NamedEntry<V>>,
        after: Seq<NamedEntry<V>>,
        key: Seq<char>,
        value: V,
    )
        requires
            forall|n: Seq<char>, k: int|
                n != key ==> (first_at(before, n, k) <==> first_at(after, n, k)),
            forall|n: Seq<char>, k: int|
                first_at(before, n, k) && n != key ==> before[k].value == after[k].value,
            exists|k: int| first_at(after, key, k),
            forall|k: int| first_at(after, key, k) ==> after[k].value == value,
        ensures
            Map::new(
                |name: Seq<char>| exists|i: int| first_at(after, name, i),
                |name: Seq<char>| after[choose|i: int| first_at(after, name, i)].value,
            ) =~= Map::new(
                |name: Seq<char>| exists|i: int| first_at(before, name, i),
                |name: Seq<char>| before[choose|i: int| first_at(before, name, i)].value,
            ).insert(key, value),
    {
    }

    /// The value of a name.
    pub fn get(&self, name: &str) -> (r: Option<&V>)
        ensures
            match r {
                Some(v) => self@.contains_key(name@) && *v == self@[name@],
                None => !self@.contains_key(name@),
            },
    {
        let wanted = String::from_str(name);
        match self.position(&wanted) {
            Some(i) => {
                proof {
                    let k = choose|k: int| first_at(self.entries@, name@, k);
                    assert(first_at(self.entries@, name@, i as int));
                    assert(k == i) by {
                        if k < i {
                            assert(self.entries@[k].name@ != name@);
                        } else if i < k {
                            assert(self.entries@[i as int].name@ != name@);
                        }
                    }
                }
                Some(&self.entries[i].value)
            },
            None => None,
        }
    }

    /// Whether a name has a value.
    pub fn contains(&self, name: &str) -> (r: bool)
        ensures
            r == self@.contains_key(name@),
    {
        self.get(name).is_some()
    }
}

} // verus!
