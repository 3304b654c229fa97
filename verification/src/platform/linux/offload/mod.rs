//! Generic receive offload: a table of packets held back per flow so that
//! they can be coalesced.
use crate::error::{Error, Result};
use std::collections::hash_map::Entry;
use std::collections::HashMap;
use std::hash::Hash;
use vstd::prelude::*;
use vstd::std_specs::hash::obeys_key_model;

pub mod coalesce;
pub mod packet;
pub mod tcp;
pub mod udp;
pub mod virtio;

verus! {

broadcast use vstd::std_specs::hash::group_hash_axioms;

/// The number of flows, and of items per flow, a table makes room for.
pub const IDEAL_BATCH_SIZE: usize = 128;

/// The flows after `get_or_insert(key, item)`.
pub open spec fn after_get_or_insert<K, T>(m: Map<K, Seq<T>>, key: K, item: T) -> Map<K, Seq<T>> {
    if m.contains_key(key) {
        m
    } else {
        m.insert(key, seq![item])
    }
}

/// Whether `update_at(key, index, _)` finds an item to replace.
pub open spec fn holds_item<K, T>(m: Map<K, Seq<T>>, key: K, index: int) -> bool {
    m.contains_key(key) && 0 <= index < m[key].len()
}

/// The flows after a successful `update_at(key, index, item)`.
pub open spec fn after_update_at<K, T>(m: Map<K, Seq<T>>, key: K, index: int, item: T) -> Map<
    K,
    Seq<T>,
> {
    m.insert(key, m[key].update(index, item))
}

/// The flows after a successful `delete_at(key, index)`.
pub open spec fn after_delete_at<K, T>(m: Map<K, Seq<T>>, key: K, index: int) -> Map<K, Seq<T>> {
    m.insert(key, m[key].remove(index))
}

/// Items held back per flow.
pub struct GroTable<K, T> {
    items_by_flow: HashMap<K, Vec<T>>,
}

impl<K, T> View for GroTable<K, T> {
    type V = Map<K, Seq<T>>;

    /// The items of each flow, in order.
    closed spec fn view(&self) -> Map<K, Seq<T>> {
        self.items_by_flow@.map_values(|v: Vec<T>| v@)
    }
}

impl<K: Hash + Eq, T> GroTable<K, T> {
    /// The table can find its flows again: its key type hashes and compares
    /// as its values do.
    pub open spec fn wf(&self) -> bool {
        obeys_key_model::<K>()
    }

    /// Creates an empty table.
    pub fn new() -> (t: Self)
        requires
            obeys_key_model::<K>(),
        ensures
            t.wf(),
            t@ == Map::<K, Seq<T>>::empty(),
    {
        let t = Self { items_by_flow: HashMap::with_capacity(IDEAL_BATCH_SIZE) };
        assert(t@ =~= Map::<K, Seq<T>>::empty());
        t
    }

    /// Gets or inserts a new item into the table: hands out the items of the
    /// flow `key` for the caller to change, after inserting the flow with
    /// `item` as its only item where the table does not hold it yet. Where
    /// the flow is held, `item` is dropped.
    pub fn get_or_insert(&mut self, key: K, item: T) -> (items: &mut Vec<T>)
        requires
            old(self).wf(),
        ensures
            final(self).wf(),
            items@ == after_get_or_insert(old(self)@, key, item)[key],
            final(self)@ == after_get_or_insert(old(self)@, key, item).insert(key, final(items)@),
    {
        match self.items_by_flow.entry(key) {
            Entry::Occupied(entry) => entry.into_mut(),
            Entry::Vacant(entry) => {
                let mut items = Vec::with_capacity(IDEAL_BATCH_SIZE);
                items.push(item);
                entry.insert(items)
            },
        }
    }

    /// Replaces the item at `index` of the flow `key` with `item`. Fails
    /// with `OffloadFlowNotFound`, leaving the table as it was, where the
    /// table does not hold the flow or the flow has no item at `index`.
    pub fn update_at(&mut self, key: K, index: usize, item: T) -> (r: Result<()>)
        requires
            old(self).wf(),
        ensures
            final(self).wf(),
            r is Ok <==> holds_item(old(self)@, key, index as int),
            r is Ok ==> final(self)@ == after_update_at(old(self)@, key, index as int, item),
            r is Err ==> r == Err::<(), Error>(Error::OffloadFlowNotFound) && final(self)@ == old(self)@,
    {
        match self.items_by_flow.remove(&key) {
            None => {
                proof {
                    assert(self@ =~= old(self)@);
                }
                Err(Error::OffloadFlowNotFound)
            },
            Some(mut items) => {
                if index < items.len() {
                    items.set(index, item);
                    self.items_by_flow.insert(key, items);
                    proof {
                        assert(self@ =~= old(self)@.insert(key, old(self)@[key].update(index as int, item)));
                    }
                    Ok(())
                } else {
                    self.items_by_flow.insert(key, items);
                    proof {
                        assert(self@ =~= old(self)@);
                    }
                    Err(Error::OffloadFlowNotFound)
                }
            },
        }
    }

    /// Removes the item at `index` of the flow `key`, shifting the later
    /// items down. Fails with `OffloadFlowNotFound`, leaving the table as it
    /// was, where the table does not hold the flow. The flow stays in the
    /// table when its last item goes.
    pub fn delete_at(&mut self, key: K, index: usize) -> (r: Result<()>)
        requires
            old(self).wf(),
            old(self)@.contains_key(key) ==> index < old(self)@[key].len(),
        ensures
            final(self).wf(),
            r is Ok <==> old(self)@.contains_key(key),
            r is Ok ==> final(self)@ == after_delete_at(old(self)@, key, index as int),
            r is Err ==> r == Err::<(), Error>(Error::OffloadFlowNotFound) && final(self)@ == old(self)@,
    {
        match self.items_by_flow.remove(&key) {
            None => {
                proof {
                    assert(self@ =~= old(self)@);
                }
                Err(Error::OffloadFlowNotFound)
            },
            Some(mut items) => {
                items.remove(index);
                self.items_by_flow.insert(key, items);
                proof {
                    assert(self@ =~= old(self)@.insert(key, old(self)@[key].remove(index as int)));
                }
                Ok(())
            },
        }
    }

    /// Clears the table.
    pub fn clear(&mut self)
        requires
            old(self).wf(),
        ensures
            final(self).wf(),
            final(self)@ == Map::<K, Seq<T>>::empty(),
    {
        self.items_by_flow.clear();
        proof {
            assert(self@ =~= Map::<K, Seq<T>>::empty());
        }
    }
}

/// A flow that `get_or_insert` has put in the table is found by the next
/// `get_or_insert` of the same flow, whatever item that call brings: the
/// table keeps the first item and drops the later one.
pub proof fn law_get_or_insert_finds_first<K, T>(m: Map<K, Seq<T>>, key: K, first: T, later: T)
    ensures
        after_get_or_insert(after_get_or_insert(m, key, first), key, later)
            == after_get_or_insert(m, key, first),
        !m.contains_key(key) ==> after_get_or_insert(m, key, first)[key] == seq![first],
{
}

/// What a caller leaves in the items `get_or_insert` handed out is what
/// the next `get_or_insert` of that flow finds.
pub proof fn law_get_or_insert_keeps_changes<K, T>(m: Map<K, Seq<T>>, key: K, first: T, changed: Seq<T>, later: T)
    ensures
        after_get_or_insert(after_get_or_insert(m, key, first).insert(key, changed), key, later)[key]
            == changed,
{
}

/// `get_or_insert` touches no flow but its own: every other flow is held
/// afterwards exactly when it was held before, with the same items; and
/// the flow itself is held afterwards, with its former items where it was
/// held and with just the new item where it was not.
pub proof fn law_get_or_insert_keeps_other_flows<K, T>(m: Map<K, Seq<T>>, key: K, item: T, k: K)
    ensures
        after_get_or_insert(m, key, item).contains_key(key),
        m.contains_key(key) ==> after_get_or_insert(m, key, item)[key] == m[key],
        !m.contains_key(key) ==> after_get_or_insert(m, key, item)[key] == seq![item],
        k != key ==> (after_get_or_insert(m, key, item).contains_key(k) <==> m.contains_key(k)),
        k != key && m.contains_key(k) ==> after_get_or_insert(m, key, item)[k] == m[k],
{
}

/// `delete_at` touches no flow but its own.
pub proof fn law_delete_keeps_other_flows<K, T>(m: Map<K, Seq<T>>, key: K, index: int, k: K)
    requires
        holds_item(m, key, index),
    ensures
        k != key ==> (after_delete_at(m, key, index).contains_key(k) <==> m.contains_key(k)),
        k != key && m.contains_key(k) ==> after_delete_at(m, key, index)[k] == m[k],
{
}

/// Reading a flow after `update_at` gives the new item at that index and
/// leaves every other index and every other flow as it was.
pub proof fn law_update_then_read<K, T>(m: Map<K, Seq<T>>, key: K, index: int, item: T, other: K, j: int)
    requires
        holds_item(m, key, index),
    ensures
        after_update_at(m, key, index, item)[key][index] == item,
        after_update_at(m, key, index, item)[key].len() == m[key].len(),
        0 <= j < m[key].len() && j != index ==> after_update_at(m, key, index, item)[key][j] == m[key][j],
        other != key && m.contains_key(other) ==> after_update_at(m, key, index, item)[other] == m[other],
        after_update_at(m, key, index, item).dom() == m.dom(),
{
}

/// Of two updates of the same item, the last one wins.
pub proof fn law_update_last_wins<K, T>(m: Map<K, Seq<T>>, key: K, index: int, a: T, b: T)
    requires
        holds_item(m, key, index),
    ensures
        holds_item(after_update_at(m, key, index, a), key, index),
        after_update_at(after_update_at(m, key, index, a), key, index, b) == after_update_at(m, key, index, b),
{
    let once = after_update_at(m, key, index, a);
    assert(once[key].update(index, b) =~= m[key].update(index, b));
    assert(after_update_at(once, key, index, b) =~= after_update_at(m, key, index, b));
}

/// `delete_at` takes exactly one item out of the flow, keeps the items
/// before it in place and moves the ones after it down by one; the flow
/// itself stays in the table.
pub proof fn law_delete_shifts<K, T>(m: Map<K, Seq<T>>, key: K, index: int, j: int)
    requires
        holds_item(m, key, index),
    ensures
        after_delete_at(m, key, index).contains_key(key),
        after_delete_at(m, key, index)[key].len() == m[key].len() - 1,
        0 <= j < index ==> after_delete_at(m, key, index)[key][j] == m[key][j],
        index <= j < m[key].len() - 1 ==> after_delete_at(m, key, index)[key][j] == m[key][j + 1],
        after_delete_at(m, key, index).dom() == m.dom(),
{
    assert(after_delete_at(m, key, index).dom() =~= m.dom());
}

/// A flow that `get_or_insert` created with one item and that then had
/// that item deleted is still held, with no items.
pub proof fn law_insert_then_delete_empties<K, T>(m: Map<K, Seq<T>>, key: K, item: T)
    requires
        !m.contains_key(key),
    ensures
        holds_item(after_get_or_insert(m, key, item), key, 0),
        after_delete_at(after_get_or_insert(m, key, item), key, 0)[key] == Seq::<T>::empty(),
{
    assert(after_delete_at(after_get_or_insert(m, key, item), key, 0)[key] =~= Seq::<T>::empty());
}

} // verus!
