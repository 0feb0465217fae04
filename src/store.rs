use vstd::prelude::*;

verus! {

/// The mapping from storage key to value: at most one value per key.
///
/// Entries are kept as (key, value) pairs with pairwise distinct keys; the
/// ghost map `model` is what they denote.
pub struct RecordStore {
    entries: Vec<(String, String)>,
    model: Ghost<Map<Seq<char>, Seq<char>>>,
}

impl View for RecordStore {
    type V = Map<Seq<char>, Seq<char>>;

    closed spec fn view(&self) -> Map<Seq<char>, Seq<char>> {
        self.model@
    }
}

impl RecordStore {
    /// Keys are distinct, every entry is in the model with its value, and the
    /// model holds nothing else.
    pub closed spec fn wf(&self) -> bool {
        &&& forall|i: int, j: int|
            0 <= i < j < self.entries@.len() ==> self.entries@[i].0@ != self.entries@[j].0@
        &&& forall|i: int|
            0 <= i < self.entries@.len() ==> {
                &&& #[trigger] self.model@.contains_key(self.entries@[i].0@)
                &&& self.model@[self.entries@[i].0@] == self.entries@[i].1@
            }
        &&& forall|k: Seq<char>|
            #[trigger] self.model@.contains_key(k) ==> exists|i: int|
                0 <= i < self.entries@.len() && #[trigger] self.entries@[i].0@ == k
    }

    /// An empty store.
    pub fn new() -> (r: RecordStore)
        ensures
            r.wf(),
            r@ == Map::<Seq<char>, Seq<char>>::empty(),
    {
        RecordStore { entries: Vec::new(), model: Ghost(Map::empty()) }
    }

    /// The position of the entry for `key`, if there is one.
    fn find(&self, key: &String) -> (r: Option<usize>)
        requires
            self.wf(),
        ensures
            self@.contains_key(key@) <==> r is Some,
            r matches Some(i) ==> i < self.entries@.len() && self.entries@[i as int].0@ == key@,
    {
        let mut i: usize = 0;
        while i < self.entries.len()
            invariant
                self.wf(),
                i <= self.entries@.len(),
                forall|j: int| 0 <= j < i ==> self.entries@[j].0@ != key@,
            decreases self.entries@.len() - i,
        {
            if self.entries[i].0 == *key {
                return Some(i);
            }
            i = i + 1;
        }
        None
    }

    /// The number of records kept.
    pub fn len(&self) -> (r: usize)
        requires
            self.wf(),
        ensures
            r as nat == self@.len(),
    {
        proof { self.lemma_len(); }
        self.entries.len()
    }

    proof fn lemma_len(&self)
        requires
            self.wf(),
        ensures
            self@.dom().finite(),
            self@.len() == self.entries@.len(),
    {
        let keys = self.entries@.map_values(|e: (String, String)| e.0@);
        assert(keys.no_duplicates());
        assert(self@.dom() =~= keys.to_set()) by {
            assert forall|k: Seq<char>| self@.dom().contains(k) implies keys.to_set().contains(k) by {
                let i = choose|i: int| 0 <= i < self.entries@.len() && #[trigger] self.entries@[i].0@ == k;
                assert(keys[i] == k);
            }
        }
        keys.unique_seq_to_set();
    }

    /// The value kept for `key`, or `None` where there is none.
    pub fn get(&self, key: &String) -> (r: Option<String>)
        requires
            self.wf(),
        ensures
            r is Some <==> self@.contains_key(key@),
            r matches Some(v) ==> v@ == self@[key@],
    {
        match self.find(key) {
            Some(i) => Some(self.entries[i].1.clone()),
            None => None,
        }
    }
    /// Keeps `value` for `key`, replacing any value kept before.
    pub fn put(&mut self, key: String, value: String)
        requires
            old(self).wf(),
        ensures
            final(self).wf(),
            final(self)@ == old(self)@.insert(key@, value@),
    {
        let ghost k = key@;
        let ghost v = value@;
        match self.find(&key) {
            Some(i) => {
                self.entries[i] = (key, value);
                self.model = Ghost(self.model@.insert(k, v));
                assert forall|j: int| 0 <= j < self.entries@.len() implies {
                    &&& #[trigger] self.model@.contains_key(self.entries@[j].0@)
                    &&& self.model@[self.entries@[j].0@] == self.entries@[j].1@
                } by {
                    if j != i {
                        assert(old(self).entries@[j].0@ != old(self).entries@[i as int].0@);
                    }
                }
                assert forall|c: Seq<char>| #[trigger] self.model@.contains_key(c) implies exists|j: int|
                    0 <= j < self.entries@.len() && #[trigger] self.entries@[j].0@ == c by {
                    if c == k {
                        assert(self.entries@[i as int].0@ == c);
                    } else {
                        let j = choose|j: int| 0 <= j < self.entries@.len() && #[trigger] old(self).entries@[j].0@ == c;
                        assert(self.entries@[j].0@ == c);
                    }
                }
            },
            None => {
                assert forall|j: int| 0 <= j < self.entries@.len() implies self.entries@[j].0@ != k by {
                    assert(self.model@.contains_key(self.entries@[j].0@));
                }
                self.entries.push((key, value));
                self.model = Ghost(self.model@.insert(k, v));
                assert forall|j: int| 0 <= j < self.entries@.len() implies {
                    &&& #[trigger] self.model@.contains_key(self.entries@[j].0@)
                    &&& self.model@[self.entries@[j].0@] == self.entries@[j].1@
                } by {
                    if j < self.entries@.len() - 1 {
                        assert(old(self).entries@[j] == self.entries@[j]);
                    }
                }
                assert forall|c: Seq<char>| #[trigger] self.model@.contains_key(c) implies exists|j: int|
                    0 <= j < self.entries@.len() && #[trigger] self.entries@[j].0@ == c by {
                    if c == k {
                        assert(self.entries@[self.entries@.len() - 1].0@ == c);
                    } else {
                        let j = choose|j: int| 0 <= j < old(self).entries@.len() && #[trigger] old(self).entries@[j].0@ == c;
                        assert(self.entries@[j].0@ == c);
                    }
                }
            },
        }
    }

    /// Removes the record for `key` and hands its value back; `None`, with
    /// the store left as it was, where there is no such record.
    pub fn remove(&mut self, key: &String) -> (r: Option<String>)
        requires
            old(self).wf(),
        ensures
            final(self).wf(),
            r is Some <==> old(self)@.contains_key(key@),
            r matches Some(v) ==> v@ == old(self)@[key@],
            final(self)@ == old(self)@.remove(key@),
            !old(self)@.contains_key(key@) ==> final(self)@ == old(self)@,
    {
        match self.find(key) {
            Some(i) => {
                let ghost k = key@;
                let ghost last = self.entries@.len() - 1;
                let (_, value) = self.entries.swap_remove(i);
                self.model = Ghost(self.model@.remove(k));
                assert forall|a: int, b: int| 0 <= a < b < self.entries@.len() implies
                    self.entries@[a].0@ != self.entries@[b].0@ by {
                    let oa = if a == i { last } else { a };
                    let ob = if b == i { last } else { b };
                    assert(old(self).entries@[oa].0@ != old(self).entries@[ob].0@);
                }
                assert forall|j: int| 0 <= j < self.entries@.len() implies {
                    &&& #[trigger] self.model@.contains_key(self.entries@[j].0@)
                    &&& self.model@[self.entries@[j].0@] == self.entries@[j].1@
                } by {
                    let oj = if j == i { last } else { j };
                    assert(old(self).entries@[oj].0@ != k);
                }
                assert forall|c: Seq<char>| #[trigger] self.model@.contains_key(c) implies exists|j: int|
                    0 <= j < self.entries@.len() && #[trigger] self.entries@[j].0@ == c by {
                    let oj = choose|j: int| 0 <= j < old(self).entries@.len() && #[trigger] old(self).entries@[j].0@ == c;
                    let j = if oj == last { i as int } else { oj };
                    assert(self.entries@[j].0@ == c);
                }
                Some(value)
            },
            None => {
                assert(self.model@.remove(key@) =~= self.model@);
                None
            },
        }
    }
}

} // verus!
