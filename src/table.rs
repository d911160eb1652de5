//! A keyed collection of records: at most one record per key, viewed as a map
//! from key to record.

use vstd::prelude::*;

verus! {

/// A record stored under a key that it carries in one of its fields.
pub trait Record: Copy {
    type Key;

    spec fn key(&self) -> Self::Key;

    fn record_key(&self) -> (k: Self::Key)
        ensures
            k == self.key();

    fn has_key(&self, k: &Self::Key) -> (r: bool)
        ensures
            r == (self.key() == *k);
}

/// Records with pairwise distinct keys, in order of insertion.
pub struct Table<R: Record> {
    rows: Vec<R>,
    contents: Ghost<Map<R::Key, R>>,
}

impl<R: Record> Table<R> {
    pub closed spec fn view(&self) -> Map<R::Key, R> {
        self.contents@
    }

    pub closed spec fn wf(&self) -> bool {
        &&& forall|i: int|
            #![trigger self.rows@[i]]
            0 <= i < self.rows@.len() ==> self.contents@.contains_key(self.rows@[i].key())
                && self.contents@[self.rows@[i].key()] == self.rows@[i]
        &&& forall|k: R::Key|
            #![trigger self.contents@.contains_key(k)]
            self.contents@.contains_key(k) ==> exists|i: int|
                0 <= i < self.rows@.len() && #[trigger] self.rows@[i].key() == k
        &&& forall|i: int, j: int|
            0 <= i < j < self.rows@.len() ==> #[trigger] self.rows@[i].key()
                != #[trigger] self.rows@[j].key()
    }

    /// Each record is stored under its own key.
    pub proof fn lemma_keys(&self)
        requires
            self.wf(),
        ensures
            forall|k: R::Key| #[trigger] self@.contains_key(k) ==> self@[k].key() == k,
    {
        assert forall|k: R::Key| #[trigger] self@.contains_key(k) implies self@[k].key() == k by {
            let i = choose|i: int| 0 <= i < self.rows@.len() && #[trigger] self.rows@[i].key() == k;
            assert(self.contents@[self.rows@[i].key()] == self.rows@[i]);
        }
    }

    pub fn new() -> (t: Table<R>)
        ensures
            t.wf(),
            t@ == Map::<R::Key, R>::empty(),
    {
        Table { rows: Vec::new(), contents: Ghost(Map::empty()) }
    }

    fn position(&self, k: &R::Key) -> (r: Option<usize>)
        requires
            self.wf(),
        ensures
            match r {
                Some(i) => i < self.rows@.len() && self.rows@[i as int].key() == *k,
                None => !self@.contains_key(*k),
            },
    {
        let mut i: usize = 0;
        while i < self.rows.len()
            invariant
                self.wf(),
                0 <= i <= self.rows@.len(),
                forall|j: int| 0 <= j < i ==> #[trigger] self.rows@[j].key() != *k,
            decreases self.rows@.len() - i,
        {
            if self.rows[i].has_key(k) {
                return Some(i);
            }
            i = i + 1;
        }
        None
    }

    /// The record stored under `k`, if any.
    pub fn get(&self, k: &R::Key) -> (r: Option<R>)
        requires
            self.wf(),
        ensures
            r == (if self@.contains_key(*k) {
                Some(self@[*k])
            } else {
                None
            }),
    {
        match self.position(k) {
            Some(i) => Some(self.rows[i]),
            None => None,
        }
    }

    /// Stores `r` under a key that holds no record yet.
    pub fn insert_new(&mut self, r: R)
        requires
            old(self).wf(),
            !old(self)@.contains_key(r.key()),
        ensures
            final(self).wf(),
            final(self)@ == old(self)@.insert(r.key(), r),
    {
        let ghost old_rows = self.rows@;
        self.rows.push(r);
        self.contents = Ghost(self.contents@.insert(r.key(), r));
        assert forall|i: int, j: int|
            0 <= i < j < self.rows@.len() implies #[trigger] self.rows@[i].key()
            != #[trigger] self.rows@[j].key() by {
            if j == old_rows.len() {
                assert(self.rows@[i] == old_rows[i]);
            }
        }
        assert forall|k: R::Key| #[trigger]
            self.contents@.contains_key(k) implies exists|i: int|
            0 <= i < self.rows@.len() && #[trigger] self.rows@[i].key() == k by {
            if k == r.key() {
                assert(self.rows@[old_rows.len() as int] == r);
            } else {
                let i = choose|i: int| 0 <= i < old_rows.len() && #[trigger] old_rows[i].key() == k;
                assert(self.rows@[i] == old_rows[i]);
            }
        }
        assert forall|i: int| #![trigger self.rows@[i]]
            0 <= i < self.rows@.len() implies self.contents@.contains_key(self.rows@[i].key())
            && self.contents@[self.rows@[i].key()] == self.rows@[i] by {
            if i < old_rows.len() {
                assert(old_rows[i] == self.rows@[i]);
            }
        }
    }

    /// Replaces the record stored under the key of `r`.
    pub fn replace(&mut self, r: R)
        requires
            old(self).wf(),
            old(self)@.contains_key(r.key()),
        ensures
            final(self).wf(),
            final(self)@ == old(self)@.insert(r.key(), r),
    {
        let k = Ghost(r.key());
        let ghost old_rows = self.rows@;
        let pos = match self.position(&r.record_key()) {
            Some(pos) => pos,
            None => {
                return;
            },
        };
        self.rows.set(pos, r);
        self.contents = Ghost(self.contents@.insert(r.key(), r));
        assert forall|i: int, j: int|
            0 <= i < j < self.rows@.len() implies #[trigger] self.rows@[i].key()
            != #[trigger] self.rows@[j].key() by {
            assert(old_rows[i].key() != old_rows[j].key());
        }
        assert forall|k2: R::Key| #[trigger]
            self.contents@.contains_key(k2) implies exists|i: int|
            0 <= i < self.rows@.len() && #[trigger] self.rows@[i].key() == k2 by {
            if k2 == k@ {
                assert(self.rows@[pos as int] == r);
            } else {
                let i = choose|i: int| 0 <= i < old_rows.len() && #[trigger] old_rows[i].key() == k2;
                assert(self.rows@[i] == old_rows[i]);
            }
        }
        assert forall|i: int| #![trigger self.rows@[i]]
            0 <= i < self.rows@.len() implies self.contents@.contains_key(self.rows@[i].key())
            && self.contents@[self.rows@[i].key()] == self.rows@[i] by {
            if i != pos {
                assert(old_rows[i] == self.rows@[i]);
                assert(old_rows[i].key() != old_rows[pos as int].key());
            }
        }
    }
}

} // verus!
