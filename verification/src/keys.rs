//! Maps that keep their keys in the order in which they were first
//! inserted, as mathematical values: a map and the sequence of its keys.

use vstd::prelude::*;

verus! {

/// Whether `order` lists the keys of `map`, each once.
pub open spec fn keys_in_order<K, V>(map: Map<K, V>, order: Seq<K>) -> bool {
    &&& order.no_duplicates()
    &&& forall|key: K| map.contains_key(key) <==> order.contains(key)
}

/// The order of the keys once `key` has been inserted: a key that is there
/// keeps its place, a new key goes last.
pub open spec fn order_after<K, V>(map: Map<K, V>, order: Seq<K>, key: K) -> Seq<K> {
    if map.contains_key(key) {
        order
    } else {
        order.push(key)
    }
}

/// An insertion leaves the order a list of the map's keys, each once.
pub proof fn lemma_insert_keeps_order<K, V>(map: Map<K, V>, order: Seq<K>, key: K, value: V)
    requires
        keys_in_order(map, order),
    ensures
        keys_in_order(map.insert(key, value), order_after(map, order, key)),
{
    let after = map.insert(key, value);
    if map.contains_key(key) {
        assert forall|other: K| after.contains_key(other) <==> order.contains(other) by {}
    } else {
        let longer = order.push(key);
        assert forall|other: K| after.contains_key(other) <==> longer.contains(other) by {
            if order.contains(other) {
                let i = choose|i: int| 0 <= i < order.len() && order[i] == other;
                assert(longer[i] == other);
            }
            if other == key {
                assert(longer[order.len() as int] == other);
            }
        }
        assert forall|i: int, j: int|
            0 <= i < longer.len() && 0 <= j < longer.len() && i != j implies longer[i]
            != longer[j] by {
            if i == order.len() {
                assert(order.contains(order[j]));
            } else if j == order.len() {
                assert(order.contains(order[i]));
            }
        }
    }
}

} // verus!
