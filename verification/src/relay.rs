//! The result relay: a store that outlives any one scope, so values computed
//! while a handle is alive can escape after the handle is torn down.
//!
//! Inside a scope the callback's outputs are stored under a freshly minted
//! key; after the scope closes the caller fetches the list by key and the
//! entry is deleted in the same step. A key is a single-use token: it cannot
//! be copied, and fetching consumes it. Store, fetch and delete are balanced
//! one to one to one within a call chain; the store's size returning to its
//! baseline is the observable sign of that balance.

use vstd::pervasive::VecAdditionalExecFns;
use vstd::prelude::*;

use crate::error::BridgeError;
use crate::value::{val_model, ScriptValue, ValModel};

verus! {

/// The models of a list of script values, in order.
pub open spec fn vals_model(s: Seq<ScriptValue>) -> Seq<ValModel> {
    s.map_values(|v: ScriptValue| val_model(v))
}

/// A single-use token referencing one stored value list.
#[derive(Debug)]
pub struct RelayKey {
    pub index: usize,
}

/// The store that outlives scopes.
#[derive(Debug)]
pub struct RelayStore {
    pub slots: Vec<Option<Vec<ScriptValue>>>,
}

/// How many slots are occupied.
pub open spec fn count_some(s: Seq<Option<Vec<ScriptValue>>>) -> int
    decreases s.len(),
{
    if s.len() == 0 {
        0
    } else {
        count_some(s.drop_last()) + if s.last() is Some {
            1int
        } else {
            0int
        }
    }
}

/// Appending a slot changes the occupied count by what the new slot holds.
proof fn lemma_count_some_push(s: Seq<Option<Vec<ScriptValue>>>, x: Option<Vec<ScriptValue>>)
    ensures
        count_some(s.push(x)) == count_some(s) + if x is Some {
            1int
        } else {
            0int
        },
{
    assert(s.push(x).drop_last() =~= s);
}

/// Replacing one slot changes the occupied count by the difference the two
/// values make at that slot.
proof fn lemma_count_some_update(
    s: Seq<Option<Vec<ScriptValue>>>,
    i: int,
    x: Option<Vec<ScriptValue>>,
)
    requires
        0 <= i < s.len(),
    ensures
        count_some(s.update(i, x)) == count_some(s) + (if x is Some {
            1int
        } else {
            0int
        }) - (if s[i] is Some {
            1int
        } else {
            0int
        }),
    decreases s.len(),
{
    if i == s.len() - 1 {
        assert(s.update(i, x).drop_last() =~= s.drop_last());
        assert(s.update(i, x).last() == x);
    } else {
        assert(s.update(i, x).drop_last() =~= s.drop_last().update(i, x));
        assert(s.update(i, x).last() == s.last());
        lemma_count_some_update(s.drop_last(), i, x);
    }
}

impl View for RelayStore {
    type V = Map<int, Seq<ValModel>>;

    /// The store as a map from live key indices to the stored value lists.
    open spec fn view(&self) -> Map<int, Seq<ValModel>> {
        Map::new(
            |k: int| 0 <= k < self.slots@.len() && self.slots@[k] is Some,
            |k: int| vals_model(self.slots@[k]->0@),
        )
    }
}

impl RelayStore {
    /// How many entries are stored, as a mathematical count.
    pub open spec fn size_spec(&self) -> int {
        count_some(self.slots@)
    }

    /// An empty store.
    pub fn new() -> (r: RelayStore)
        ensures
            r@ =~= Map::<int, Seq<ValModel>>::empty(),
            r.size_spec() == 0,
    {
        RelayStore { slots: Vec::new() }
    }

    /// How many entries are stored; test instrumentation for the balance
    /// invariant.
    pub fn size(&self) -> (n: usize)
        ensures
            n == self.size_spec(),
    {
        let len = self.slots.len();
        let mut n: usize = 0;
        let mut i: usize = 0;
        while i < len
            invariant
                len == self.slots@.len(),
                i <= len,
                n == count_some(self.slots@.take(i as int)),
                n <= i,
            decreases len - i,
        {
            proof {
                assert(self.slots@.take(i + 1).drop_last() =~= self.slots@.take(i as int));
                assert(self.slots@.take(i + 1).last() == self.slots@[i as int]);
            }
            if self.slots[i].is_some() {
                n += 1;
            }
            i += 1;
        }
        proof {
            assert(self.slots@.take(len as int) =~= self.slots@);
        }
        n
    }

    /// Stores a value list under a freshly minted key.
    pub fn store(&mut self, vals: Vec<ScriptValue>) -> (k: RelayKey)
        ensures
            !old(self)@.dom().contains(k.index as int),
            final(self)@ =~= old(self)@.insert(k.index as int, vals_model(vals@)),
            final(self).size_spec() == old(self).size_spec() + 1,
    {
        let len = self.slots.len();
        let mut i: usize = 0;
        while i < len
            invariant
                len == self.slots@.len(),
                i <= len,
                self == old(self),
                forall|j: int| 0 <= j < i ==> self.slots@[j] is Some,
            decreases len - i,
        {
            if self.slots[i].is_none() {
                proof {
                    lemma_count_some_update(self.slots@, i as int, Some(vals));
                }
                self.slots.set(i, Some(vals));
                proof {
                    assert(self@ =~= old(self)@.insert(i as int, vals_model(
                        self.slots@[i as int]->0@,
                    )));
                }
                return RelayKey { index: i };
            }
            i += 1;
        }
        proof {
            lemma_count_some_push(self.slots@, Some(vals));
        }
        self.slots.push(Some(vals));
        proof {
            assert(self@ =~= old(self)@.insert(len as int, vals_model(
                self.slots@[len as int]->0@,
            )));
        }
        RelayKey { index: len }
    }

    /// Fetches the list stored under `k` and deletes the entry in the same
    /// step, consuming the key. A key that matches no entry is a relay
    /// bookkeeping fault.
    pub fn fetch_delete(&mut self, k: RelayKey) -> (r: Result<Vec<ScriptValue>, BridgeError>)
        ensures
            match r {
                Ok(vals) => {
                    &&& old(self)@.dom().contains(k.index as int)
                    &&& vals_model(vals@) == old(self)@[k.index as int]
                    &&& final(self)@ =~= old(self)@.remove(k.index as int)
                    &&& final(self).size_spec() == old(self).size_spec() - 1
                },
                Err(e) => {
                    &&& !old(self)@.dom().contains(k.index as int)
                    &&& *final(self) == *old(self)
                    &&& e == BridgeError::RelayLeak
                },
            },
    {
        if k.index >= self.slots.len() {
            return Err(BridgeError::RelayLeak);
        }
        if self.slots[k.index].is_none() {
            return Err(BridgeError::RelayLeak);
        }
        proof {
            lemma_count_some_update(self.slots@, k.index as int, None);
        }
        let mut taken: Option<Vec<ScriptValue>> = None;
        self.slots.set_and_swap(k.index, &mut taken);
        proof {
            assert(self@ =~= old(self)@.remove(k.index as int));
        }
        match taken {
            Some(vals) => Ok(vals),
            None => Err(BridgeError::RelayLeak),
        }
    }
}

} // verus!
