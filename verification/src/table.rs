//! A table keyed by address: the storage behind the holdings and the records.
//! No address occurs twice, so a table stands for a finite map.

use vstd::prelude::*;
use crate::address::Address;

verus! {

/// A finite map from addresses to values, kept as two lists of equal length.
pub struct Table<T> {
    keys: Vec<Address>,
    values: Vec<T>,
}

impl<T: Copy> View for Table<T> {
    type V = Map<Address, T>;

    closed spec fn view(&self) -> Map<Address, T> {
        Map::new(
            |key: Address| self.keys@.contains(key),
            |key: Address| self.values@[self.keys@.index_of(key)],
        )
    }
}

impl<T: Copy> Table<T> {
    /// The lists have one length and no key occurs twice.
    pub closed spec fn wf(&self) -> bool {
        &&& self.keys@.len() == self.values@.len()
        &&& forall|i: int, j: int|
            0 <= i < j < self.keys@.len() ==> self.keys@[i] != self.keys@[j]
    }

    /// A well-formed table holds finitely many keys.
    pub proof fn lemma_finite(&self)
        requires
            self.wf(),
        ensures
            self@.dom().finite(),
    {
        vstd::seq_lib::seq_to_set_is_finite(self.keys@);
        assert(self@.dom() =~= self.keys@.to_set());
    }

    proof fn lemma_at(&self, i: int)
        requires
            self.wf(),
            0 <= i < self.keys@.len(),
        ensures
            self@.contains_key(self.keys@[i]),
            self@[self.keys@[i]] == self.values@[i],
    {
        let key = self.keys@[i];
        assert(self.keys@.contains(key));
        let k = self.keys@.index_of(key);
        assert(self.keys@[k] == key);
    }

    /// The empty table.
    pub fn new() -> (table: Table<T>)
        ensures
            table.wf(),
            table@ == Map::<Address, T>::empty(),
    {
        let table = Table { keys: Vec::new(), values: Vec::new() };
        assert(table@ =~= Map::<Address, T>::empty());
        table
    }

    fn position(&self, key: &Address) -> (found: Option<usize>)
        requires
            self.wf(),
        ensures
            match found {
                Some(i) => i < self.keys@.len() && self.keys@[i as int] == *key,
                None => !self.keys@.contains(*key),
            },
    {
        let mut i: usize = 0;
        while i < self.keys.len()
            invariant
                i <= self.keys@.len(),
                forall|k: int| 0 <= k < i ==> self.keys@[k] != *key,
            decreases self.keys@.len() - i,
        {
            if self.keys[i].same(key) {
                return Some(i);
            }
            i += 1;
        }
        None
    }

    /// The value kept under `key`, if there is one.
    pub fn get(&self, key: &Address) -> (found: Option<T>)
        requires
            self.wf(),
        ensures
            found == (if self@.contains_key(*key) {
                Some(self@[*key])
            } else {
                None
            }),
    {
        match self.position(key) {
            Some(i) => {
                proof {
                    self.lemma_at(i as int);
                }
                Some(self.values[i])
            },
            None => None,
        }
    }

    /// Puts `value` under `key`, in place of what the table held there.
    pub fn insert(&mut self, key: Address, value: T)
        requires
            old(self).wf(),
        ensures
            final(self).wf(),
            final(self)@ == old(self)@.insert(key, value),
    {
        let ghost before = *self;
        match self.position(&key) {
            Some(i) => {
                self.values.set(i, value);
                proof {
                    let after = *self;
                    assert(after.wf());
                    assert forall|k: Address| after@.contains_key(k) implies #[trigger] after@[k]
                        == before@.insert(key, value)[k] by {
                        let j = after.keys@.index_of(k);
                        after.lemma_at(j);
                        before.lemma_at(j);
                    }
                    assert(after@ =~= before@.insert(key, value));
                }
            },
            None => {
                self.keys.push(key);
                self.values.push(value);
                proof {
                    let after = *self;
                    assert(after.wf());
                    assert forall|k: Address| #[trigger]
                        after@.contains_key(k) == before@.insert(key, value).contains_key(k) by {
                        if before.keys@.contains(k) {
                            let i = before.keys@.index_of(k);
                            assert(after.keys@[i] == k);
                        }
                        if k == key {
                            assert(after.keys@[before.keys@.len() as int] == k);
                        }
                    }
                    assert forall|k: Address| after@.contains_key(k) implies #[trigger] after@[k]
                        == before@.insert(key, value)[k] by {
                        let i = after.keys@.index_of(k);
                        after.lemma_at(i);
                        if i < before.keys@.len() {
                            before.lemma_at(i);
                        }
                    }
                    assert(after@ =~= before@.insert(key, value));
                }
            },
        }
    }

    /// Takes out what the table holds under `key`, if anything.
    pub fn remove(&mut self, key: &Address)
        requires
            old(self).wf(),
        ensures
            final(self).wf(),
            final(self)@ == old(self)@.remove(*key),
    {
        let ghost before = *self;
        match self.position(key) {
            Some(i) => {
                self.keys.remove(i);
                self.values.remove(i);
                proof {
                    let after = *self;
                    assert(after.wf());
                    assert forall|k: Address| #[trigger] after@.contains_key(k) == before@.remove(*key).contains_key(k) by {
                        if after.keys@.contains(k) {
                            let j = after.keys@.index_of(k);
                            if j < i {
                                assert(before.keys@[j] == k);
                            } else {
                                assert(before.keys@[j + 1] == k);
                            }
                        }
                        if before.keys@.contains(k) && k != *key {
                            let j = before.keys@.index_of(k);
                            if j < i {
                                assert(after.keys@[j] == k);
                            } else {
                                assert(after.keys@[j - 1] == k);
                            }
                        }
                    }
                    assert forall|k: Address| after@.contains_key(k) implies #[trigger] after@[k] == before@.remove(*key)[k] by {
                        let j = after.keys@.index_of(k);
                        after.lemma_at(j);
                        if j < i {
                            before.lemma_at(j);
                        } else {
                            before.lemma_at(j + 1);
                        }
                    }
                    assert(after@ =~= before@.remove(*key));
                }
            },
            None => {
                assert(self@ =~= before@.remove(*key));
            },
        }
    }
}

} // verus!
