use vstd::prelude::*;

verus! {

/// Rows keyed by text, at most one row per key, kept in the order in which
/// their keys were first inserted.
#[derive(Debug)]
pub(crate) struct Table<T> {
    rows: Vec<(String, T)>,
}

impl<T> View for Table<T> {
    type V = Map<Seq<char>, T>;

    closed spec fn view(&self) -> Map<Seq<char>, T> {
        Map::new(
            |k: Seq<char>| self.keys().contains(k),
            |k: Seq<char>| self.rows@[self.keys().index_of(k)].1,
        )
    }
}

impl<T> Table<T> {
    /// The keys, row by row.
    pub(crate) closed spec fn keys(&self) -> Seq<Seq<char>> {
        self.rows@.map_values(|r: (String, T)| r.0@)
    }

    pub(crate) closed spec fn wf(&self) -> bool {
        self.keys().no_duplicates()
    }

    proof fn lemma_index_of_row(&self, i: int)
        requires
            self.wf(),
            0 <= i < self.rows@.len(),
        ensures
            self.keys().contains(self.rows@[i].0@),
            self.keys().index_of(self.rows@[i].0@) == i,
            self@.contains_key(self.rows@[i].0@),
            self@[self.rows@[i].0@] == self.rows@[i].1,
    {
        let k = self.rows@[i].0@;
        assert(self.keys()[i] == k);
        let j = self.keys().index_of(k);
        assert(self.keys()[j] == k);
    }

    proof fn lemma_keys_preserved(old_table: Self, new_table: Self, i: int, v: T)
        requires
            0 <= i < old_table.rows@.len(),
            new_table.rows@ == old_table.rows@.update(i, (old_table.rows@[i].0, v)),
        ensures
            new_table.keys() == old_table.keys(),
    {
        assert(new_table.keys() =~= old_table.keys());
    }

    proof fn lemma_len(&self)
        requires
            self.wf(),
        ensures
            self@.len() == self.rows@.len(),
    {
        assert(self@.dom() =~= self.keys().to_set());
        self.keys().unique_seq_to_set();
    }

    pub(crate) fn new() -> (r: Self)
        ensures
            r.wf(),
            r@ == Map::<Seq<char>, T>::empty(),
    {
        let r = Table { rows: Vec::new() };
        assert(r@ =~= Map::<Seq<char>, T>::empty());
        r
    }

    /// The row that holds `key`, if any.
    fn find(&self, key: &str) -> (r: Option<usize>)
        requires
            self.wf(),
        ensures
            match r {
                Some(i) => i < self.rows@.len() && self.rows@[i as int].0@ == key@,
                None => !self@.contains_key(key@),
            },
    {
        let wanted = key.to_owned();
        let mut i: usize = 0;
        while i < self.rows.len()
            invariant
                i <= self.rows@.len(),
                wanted@ == key@,
                forall|j: int| 0 <= j < i ==> self.rows@[j].0@ != key@,
            decreases self.rows@.len() - i,
        {
            if self.rows[i].0 == wanted {
                return Some(i);
            }
            i = i + 1;
        }
        proof {
            if self.keys().contains(key@) {
                let j = self.keys().index_of(key@);
                assert(self.keys()[j] == self.rows@[j].0@);
            }
        }
        None
    }

    pub(crate) fn len(&self) -> (r: usize)
        requires
            self.wf(),
        ensures
            r == self@.len(),
    {
        proof {
            self.lemma_len();
        }
        self.rows.len()
    }

    pub(crate) fn contains_key(&self, key: &str) -> (r: bool)
        requires
            self.wf(),
        ensures
            r == self@.contains_key(key@),
    {
        match self.find(key) {
            Some(i) => {
                proof {
                    self.lemma_index_of_row(i as int);
                }
                true
            },
            None => false,
        }
    }

    pub(crate) fn get(&self, key: &str) -> (r: Option<&T>)
        requires
            self.wf(),
        ensures
            match r {
                Some(v) => self@.contains_key(key@) && *v == self@[key@],
                None => !self@.contains_key(key@),
            },
    {
        match self.find(key) {
            Some(i) => {
                proof {
                    self.lemma_index_of_row(i as int);
                }
                Some(&self.rows[i].1)
            },
            None => None,
        }
    }

    pub(crate) fn get_mut(&mut self, key: &str) -> (r: Option<&mut T>)
        requires
            old(self).wf(),
        ensures
            final(self).wf(),
            match r {
                Some(v) => old(self)@.contains_key(key@) && *v == old(self)@[key@] && final(self)@
                    == old(self)@.insert(key@, *final(v)),
                None => !old(self)@.contains_key(key@) && final(self)@ == old(self)@,
            },
    {
        match self.find(key) {
            Some(i) => {
                proof {
                    self.lemma_index_of_row(i as int);
                }
                let ghost before = *self;
                proof {
                    assert forall|t: Table<T>|
                        #![trigger t.wf()]
                        #![trigger t@]
                        t.rows@ == before.rows@.update(
                            i as int,
                            (before.rows@[i as int].0, t.rows@[i as int].1),
                        ) implies t.wf() && t@ == before@.insert(key@, t.rows@[i as int].1) by {
                        lemma_value_replaced(before, t, i as int, t.rows@[i as int].1);
                    }
                }
                let row = &mut self.rows[i];
                Some(&mut row.1)
            },
            None => None,
        }
    }
    /// Stores `value` under `key`, replacing what was there; a new key goes
    /// after all others.
    pub(crate) fn insert(&mut self, key: String, value: T)
        requires
            old(self).wf(),
        ensures
            final(self).wf(),
            final(self)@ == old(self)@.insert(key@, value),
    {
        match self.find(key.as_str()) {
            Some(i) => {
                proof {
                    self.lemma_index_of_row(i as int);
                }
                let ghost before = *self;
                let ghost k = self.rows@[i as int].0;
                self.rows.set(i, (key, value));
                proof {
                    lemma_row_replaced(before, *self, i as int, k, value);
                }
            },
            None => {
                let ghost before = *self;
                let ghost k = key@;
                self.rows.push((key, value));
                proof {
                    assert(self.keys() =~= before.keys().push(k));
                    assert forall|a: int, b: int|
                        0 <= a < self.keys().len() && 0 <= b < self.keys().len() && a != b
                            implies self.keys()[a] != self.keys()[b] by {
                        if a < before.keys().len() && b < before.keys().len() {
                        } else if a < before.keys().len() {
                            assert(before.keys()[a] == before.rows@[a].0@);
                        } else {
                            assert(before.keys()[b] == before.rows@[b].0@);
                        }
                    }
                    assert forall|j: int| 0 <= j < before.rows@.len() implies #[trigger] self.keys().index_of(self.rows@[j].0@) == j by {
                        self.lemma_index_of_row(j);
                    }
                    self.lemma_index_of_row(before.rows@.len() as int);
                    assert forall|q: Seq<char>| #[trigger] before@.contains_key(q) implies self@[q] == before@[q] by {
                        let j = before.keys().index_of(q);
                        before.lemma_index_of_row(j);
                        self.lemma_index_of_row(j);
                    }
                    assert forall|q: Seq<char>| #[trigger] self@.contains_key(q) implies before@.contains_key(q) || q == k by {
                        let j = self.keys().index_of(q);
                        if j < before.rows@.len() {
                            assert(before.keys()[j] == q);
                        }
                    }
                    assert forall|q: Seq<char>| #[trigger] before@.contains_key(q) implies self@.contains_key(q) by {
                        let j = before.keys().index_of(q);
                        assert(self.keys()[j] == q);
                    }
                    assert(self.keys()[before.rows@.len() as int] == k);
                    assert(self@.dom() =~= before@.dom().insert(k));
                    assert(self@[k] == value);
                    assert(self@ =~= before@.insert(k, value));
                }
            },
        }
    }

    /// Takes out the row of `key`, if any; the other rows keep their order.
    pub(crate) fn remove(&mut self, key: &str) -> (r: Option<T>)
        requires
            old(self).wf(),
        ensures
            final(self).wf(),
            final(self)@ == old(self)@.remove(key@),
            match r {
                Some(v) => old(self)@.contains_key(key@) && v == old(self)@[key@],
                None => !old(self)@.contains_key(key@),
            },
    {
        match self.find(key) {
            Some(i) => {
                proof {
                    self.lemma_index_of_row(i as int);
                }
                let ghost before = *self;
                let row = self.rows.remove(i);
                proof {
                    assert(self.keys() =~= before.keys().remove(i as int));
                    assert forall|a: int, b: int|
                        0 <= a < self.keys().len() && 0 <= b < self.keys().len() && a != b
                            implies self.keys()[a] != self.keys()[b] by {
                        let a0 = if a < i { a } else { a + 1 };
                        let b0 = if b < i { b } else { b + 1 };
                        assert(self.keys()[a] == before.keys()[a0]);
                        assert(self.keys()[b] == before.keys()[b0]);
                    }
                    assert forall|q: Seq<char>| #[trigger] self@.contains_key(q) implies before@.contains_key(q) && q != key@ && self@[q] == before@[q] by {
                        let j = self.keys().index_of(q);
                        self.lemma_index_of_row(j);
                        let j0 = if j < i { j } else { j + 1 };
                        assert(self.rows@[j] == before.rows@[j0]);
                        before.lemma_index_of_row(j0);
                    }
                    assert forall|q: Seq<char>| #[trigger] before@.contains_key(q) && q != key@ implies self@.contains_key(q) by {
                        let j0 = before.keys().index_of(q);
                        before.lemma_index_of_row(j0);
                        let j = if j0 < i { j0 } else { j0 - 1 };
                        assert(self.rows@[j] == before.rows@[j0]);
                        self.lemma_index_of_row(j);
                    }
                    assert(self@ =~= before@.remove(key@));
                }
                Some(row.1)
            },
            None => {
                proof {
                    assert(self@ =~= self@.remove(key@));
                }
                None
            },
        }
    }

    pub(crate) fn clear(&mut self)
        ensures
            final(self).wf(),
            final(self)@ == Map::<Seq<char>, T>::empty(),
    {
        self.rows.clear();
        proof {
            assert(self@ =~= Map::<Seq<char>, T>::empty());
        }
    }

    /// Every key once, in insertion order.
    pub(crate) fn key_list(&self) -> (r: Vec<String>)
        requires
            self.wf(),
        ensures
            r@.map_values(|s: String| s@).no_duplicates(),
            r@.map_values(|s: String| s@).to_set() == self@.dom(),
    {
        let mut out: Vec<String> = Vec::new();
        let mut i: usize = 0;
        while i < self.rows.len()
            invariant
                i <= self.rows@.len(),
                self.wf(),
                out@.map_values(|s: String| s@) == self.keys().subrange(0, i as int),
            decreases self.rows@.len() - i,
        {
            let k = self.rows[i].0.clone();
            let ghost before = out@;
            out.push(k);
            proof {
                assert(out@ == before.push(k));
                assert(before.map_values(|s: String| s@).len() == i);
                assert(k == self.rows@[i as int].0);
                assert(self.keys()[i as int] == self.rows@[i as int].0@);
                assert(out@[i as int]@ == self.keys()[i as int]);
                assert(out@.map_values(|s: String| s@) =~= self.keys().subrange(0, i + 1));
            }
            i = i + 1;
        }
        proof {
            assert(self.keys().subrange(0, self.rows@.len() as int) =~= self.keys());
            assert(self@.dom() =~= self.keys().to_set());
        }
        out
    }
}

/// Replacing a row with one of an equal key keeps the keys and changes the
/// map at that key only.
proof fn lemma_row_replaced<T>(old_table: Table<T>, new_table: Table<T>, i: int, k: String, v: T)
    requires
        old_table.wf(),
        0 <= i < old_table.rows@.len(),
        k == old_table.rows@[i].0,
        new_table.rows@ == old_table.rows@.update(i, (new_table.rows@[i].0, v)),
        new_table.rows@[i].0@ == k@,
    ensures
        new_table.wf(),
        new_table@ == old_table@.insert(k@, v),
{
    assert(new_table.keys() =~= old_table.keys());
    old_table.lemma_index_of_row(i);
    new_table.lemma_index_of_row(i);
    assert forall|q: Seq<char>| #[trigger] old_table@.contains_key(q) && q != k@ implies new_table@[q] == old_table@[q] by {
        let j = old_table.keys().index_of(q);
        old_table.lemma_index_of_row(j);
        new_table.lemma_index_of_row(j);
    }
    assert(new_table@ =~= old_table@.insert(k@, v));
}

/// Writing a new value into a row keeps the keys and changes the map at that
/// row's key only.
proof fn lemma_value_replaced<T>(old_table: Table<T>, new_table: Table<T>, i: int, v: T)
    requires
        old_table.wf(),
        0 <= i < old_table.rows@.len(),
        new_table.rows@ == old_table.rows@.update(i, (old_table.rows@[i].0, v)),
    ensures
        new_table.wf(),
        new_table@ == old_table@.insert(old_table.rows@[i].0@, v),
{
    Table::lemma_keys_preserved(old_table, new_table, i, v);
    old_table.lemma_index_of_row(i);
    new_table.lemma_index_of_row(i);
    assert(new_table@ =~= old_table@.insert(old_table.rows@[i].0@, v));
}

} // verus!
