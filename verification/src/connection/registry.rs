use vstd::prelude::*;

verus! {

/// The set of live sessions, keyed by session id.
///
/// Ids are kept in the order in which they were first registered, and no id
/// occurs twice. The registry is generic in what it keeps per session, so that
/// the owner decides what a live session needs (a cancellation signal, a task
/// handle, ...).
pub struct Registry<E> {
    ids: Vec<String>,
    entries: Vec<E>,
}

impl<E> Registry<E> {
    /// The registered ids, oldest registration first.
    pub closed spec fn order(&self) -> Seq<Seq<char>> {
        self.ids@.map_values(|s: String| s@)
    }

    /// The entry stored at a position of `order()`.
    pub closed spec fn entry_at(&self, i: int) -> E {
        self.entries@[i]
    }

    /// Every id has one entry and no id occurs twice.
    pub closed spec fn wf(&self) -> bool {
        &&& self.ids@.len() == self.entries@.len()
        &&& self.order().no_duplicates()
    }

    /// The registry as a map from session id to entry.
    pub open spec fn view(&self) -> Map<Seq<char>, E> {
        Map::new(
            |id: Seq<char>| self.order().contains(id),
            |id: Seq<char>| self.entry_at(self.order().index_of(id)),
        )
    }

    /// In a well-formed registry each id is found at its own position.
    pub proof fn lemma_position(&self, i: int)
        requires
            self.wf(),
            0 <= i < self.order().len(),
        ensures
            self.order().index_of(self.order()[i]) == i,
            self@.contains_key(self.order()[i]),
            self@[self.order()[i]] == self.entry_at(i),
    {
        let id = self.order()[i];
        assert(self.order().contains(id));
        self.order().index_of_first_ensures(id);
    }

    /// The ids of a well-formed registry are distinct.
    pub proof fn lemma_order_distinct(&self)
        requires
            self.wf(),
        ensures
            self.order().no_duplicates(),
            self.order().to_set() == self@.dom(),
    {
        assert(self.order().to_set() =~= self@.dom());
    }

    /// An empty registry.
    pub fn new() -> (r: Self)
        ensures
            r.wf(),
            r@ == Map::<Seq<char>, E>::empty(),
            r.order() == Seq::<Seq<char>>::empty(),
    {
        let r = Registry { ids: Vec::new(), entries: Vec::new() };
        assert(r.order() =~= Seq::<Seq<char>>::empty());
        assert(r@ =~= Map::<Seq<char>, E>::empty());
        r
    }

    /// Number of live sessions.
    pub fn len(&self) -> (n: usize)
        requires
            self.wf(),
        ensures
            n == self.order().len(),
            n == self@.dom().len(),
    {
        proof {
            self.lemma_order_distinct();
            self.order().unique_seq_to_set();
        }
        self.ids.len()
    }

    /// Whether no session is live.
    pub fn is_empty(&self) -> (b: bool)
        requires
            self.wf(),
        ensures
            b == (self.order().len() == 0),
            b == (self@ == Map::<Seq<char>, E>::empty()),
    {
        proof {
            if self.order().len() == 0 {
                assert(self@ =~= Map::<Seq<char>, E>::empty());
            } else {
                self.lemma_position(0);
            }
        }
        self.ids.len() == 0
    }

    fn position(&self, id: &str) -> (r: Option<usize>)
        requires
            self.wf(),
        ensures
            match r {
                Some(i) => i < self.order().len() && self.order()[i as int] == id@,
                None => !self.order().contains(id@),
            },
    {
        let wanted = id.to_owned();
        let mut i: usize = 0;
        while i < self.ids.len()
            invariant
                i <= self.ids@.len(),
                wanted@ == id@,
                forall|j: int| 0 <= j < i ==> self.order()[j] != id@,
            decreases self.ids@.len() - i,
        {
            if self.ids[i] == wanted {
                return Some(i);
            }
            i += 1;
        }
        None
    }

    /// Whether a session with this id is live.
    pub fn contains(&self, id: &str) -> (b: bool)
        requires
            self.wf(),
        ensures
            b == self@.contains_key(id@),
    {
        self.position(id).is_some()
    }

    /// Registers `entry` under `id`. An entry already registered under that id
    /// is replaced and handed back; the id keeps its place in the order.
    pub fn insert(&mut self, id: String, entry: E) -> (displaced: Option<E>)
        requires
            old(self).wf(),
        ensures
            final(self).wf(),
            final(self)@ == old(self)@.insert(id@, entry),
            displaced == if old(self)@.contains_key(id@) {
                Some(old(self)@[id@])
            } else {
                None::<E>
            },
            old(self)@.contains_key(id@) ==> final(self).order() == old(self).order(),
            !old(self)@.contains_key(id@) ==> final(self).order() == old(self).order().push(id@),
    {
        match self.position(id.as_str()) {
            Some(i) => {
                proof {
                    self.lemma_position(i as int);
                }
                let previous = self.entries.remove(i);
                self.entries.insert(i, entry);
                proof {
                    assert(self.order() == old(self).order());
                    assert forall|k: Seq<char>| #[trigger] self@.contains_key(k) implies self@[k]
                        == old(self)@.insert(id@, entry)[k] by {
                        let j = self.order().index_of(k);
                        self.order().index_of_first_ensures(k);
                        if k != id@ {
                            assert(j != i);
                        }
                    }
                    assert(self@ =~= old(self)@.insert(id@, entry));
                }
                Some(previous)
            },
            None => {
                let ghost new_id = id@;
                self.ids.push(id);
                self.entries.push(entry);
                proof {
                    assert(self.order() =~= old(self).order().push(new_id));
                    assert forall|a: int, b: int|
                        0 <= a < self.order().len() && 0 <= b < self.order().len() && a
                            != b implies self.order()[a] != self.order()[b] by {
                        if a < old(self).order().len() && b < old(self).order().len() {
                            assert(old(self).order()[a] != old(self).order()[b]);
                        } else if a < old(self).order().len() {
                            assert(old(self).order().contains(old(self).order()[a]));
                        } else {
                            assert(old(self).order().contains(old(self).order()[b]));
                        }
                    }
                    assert forall|k: Seq<char>| #[trigger]
                        self@.contains_key(k) == old(self)@.insert(new_id, entry).contains_key(
                            k,
                        ) by {
                        if self.order().contains(k) {
                            let j = self.order().index_of(k);
                            self.order().index_of_first_ensures(k);
                            if j < old(self).order().len() {
                                assert(old(self).order()[j] == k);
                            }
                        }
                        if old(self).order().contains(k) {
                            let j = old(self).order().index_of(k);
                            old(self).order().index_of_first_ensures(k);
                            assert(self.order()[j] == k);
                        }
                        if k == new_id {
                            assert(self.order()[self.order().len() - 1] == k);
                        }
                    }
                    assert forall|k: Seq<char>| #[trigger] self@.contains_key(k) implies self@[k]
                        == old(self)@.insert(new_id, entry)[k] by {
                        let j = self.order().index_of(k);
                        self.order().index_of_first_ensures(k);
                        if k != new_id {
                            assert(old(self).order()[j] == k);
                            old(self).lemma_position(j);
                        }
                    }
                    assert(self@ =~= old(self)@.insert(new_id, entry));
                }
                None
            },
        }
    }

    /// Removes the entry registered under `id`, if there is one, and hands it
    /// back. Removing an id that is not registered changes nothing.
    pub fn remove(&mut self, id: &str) -> (removed: Option<E>)
        requires
            old(self).wf(),
        ensures
            final(self).wf(),
            final(self)@ == old(self)@.remove(id@),
            removed == if old(self)@.contains_key(id@) {
                Some(old(self)@[id@])
            } else {
                None::<E>
            },
            !old(self)@.contains_key(id@) ==> final(self).order() == old(self).order(),
            old(self)@.contains_key(id@) ==> final(self).order() == old(self).order().remove(
                old(self).order().index_of(id@),
            ),
    {
        match self.position(id) {
            Some(i) => {
                proof {
                    self.lemma_position(i as int);
                }
                let _ = self.ids.remove(i);
                let entry = self.entries.remove(i);
                proof {
                    let before = old(self).order();
                    assert(self.order() =~= before.remove(i as int));
                    assert forall|a: int, b: int|
                        0 <= a < self.order().len() && 0 <= b < self.order().len() && a
                            != b implies self.order()[a] != self.order()[b] by {
                        let a0 = if a < i { a } else { a + 1 };
                        let b0 = if b < i { b } else { b + 1 };
                        assert(before[a0] != before[b0]);
                    }
                    assert forall|k: Seq<char>| #[trigger]
                        self@.contains_key(k) == old(self)@.remove(id@).contains_key(k) by {
                        if self.order().contains(k) {
                            let j = self.order().index_of(k);
                            self.order().index_of_first_ensures(k);
                            let j0 = if j < i { j } else { j + 1 };
                            assert(before[j0] == k);
                        }
                        if before.contains(k) && k != id@ {
                            let j = before.index_of(k);
                            before.index_of_first_ensures(k);
                            let j1 = if j < i { j } else { j - 1 };
                            assert(self.order()[j1] == k);
                        }
                    }
                    assert forall|k: Seq<char>| #[trigger] self@.contains_key(k) implies self@[k]
                        == old(self)@.remove(id@)[k] by {
                        let j = self.order().index_of(k);
                        self.order().index_of_first_ensures(k);
                        let j0 = if j < i { j } else { j + 1 };
                        assert(before[j0] == k);
                        old(self).lemma_position(j0);
                    }
                    assert(self@ =~= old(self)@.remove(id@));
                }
                Some(entry)
            },
            None => {
                proof {
                    assert(self@ =~= old(self)@.remove(id@));
                }
                None
            },
        }
    }

    /// Empties the registry and hands back every session with its entry, oldest
    /// registration first.
    pub fn drain(&mut self) -> (drained: Vec<(String, E)>)
        requires
            old(self).wf(),
        ensures
            final(self).wf(),
            final(self)@ == Map::<Seq<char>, E>::empty(),
            final(self).order() == Seq::<Seq<char>>::empty(),
            drained@.len() == old(self).order().len(),
            forall|i: int|
                0 <= i < drained@.len() ==> (#[trigger] drained@[i]).0@ == old(self).order()[i]
                    && drained@[i].1 == old(self)@[old(self).order()[i]],
    {
        let mut drained: Vec<(String, E)> = Vec::new();
        while self.ids.len() > 0
            invariant
                self.ids@.len() == self.entries@.len(),
                old(self).wf(),
                drained@.len() + self.ids@.len() == old(self).ids@.len(),
                forall|j: int|
                    0 <= j < self.ids@.len() ==> #[trigger] self.ids@[j] == old(self).ids@[j
                        + drained@.len()],
                forall|j: int|
                    0 <= j < self.entries@.len() ==> #[trigger] self.entries@[j] == old(self).entries@[j + drained@.len()],
                forall|i: int|
                    0 <= i < drained@.len() ==> (#[trigger] drained@[i]).0 == old(self).ids@[i]
                        && drained@[i].1 == old(self).entries@[i],
            decreases self.ids@.len(),
        {
            let id = self.ids.remove(0);
            let entry = self.entries.remove(0);
            drained.push((id, entry));
        }
        proof {
            assert(self.order() =~= Seq::<Seq<char>>::empty());
            assert(self@ =~= Map::<Seq<char>, E>::empty());
            assert forall|i: int| 0 <= i < drained@.len() implies (#[trigger] drained@[i]).0@
                == old(self).order()[i] && drained@[i].1 == old(self)@[old(self).order()[i]] by {
                old(self).lemma_position(i);
            }
        }
        drained
    }
}

} // verus!
