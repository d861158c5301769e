//! Ordering rows by their number. The order is stable: rows with the same
//! number stay in the order in which they came.

use vstd::prelude::*;

verus! {

/// Something that is ordered by a number it carries.
pub trait Keyed {
    spec fn key_spec(&self) -> u32;

    fn key(&self) -> (r: u32)
        ensures
            r == self.key_spec(),
    ;
}

/// Position of the first item whose key is at least `key`, or the number of
/// items where there is none.
pub open spec fn insert_position<T>(items: Seq<T>, key: spec_fn(T) -> u32, wanted: u32) -> int
    decreases items.len(),
{
    if items.len() == 0 {
        0
    } else if key(items[0]) >= wanted {
        0
    } else {
        1 + insert_position(items.drop_first(), key, wanted)
    }
}

/// The key that a row carries, as a function.
pub open spec fn key_of<T: Keyed>() -> spec_fn(T) -> u32 {
    |item: T| item.key_spec()
}

/// The items in the order of their keys, items of equal keys in the order
/// in which they stand in `items`.
pub open spec fn stable_sort<T>(items: Seq<T>, key: spec_fn(T) -> u32) -> Seq<T>
    decreases items.len(),
{
    if items.len() == 0 {
        Seq::empty()
    } else {
        let rest = stable_sort(items.drop_first(), key);
        rest.insert(insert_position(rest, key, key(items[0])), items[0])
    }
}

/// No item stands before one of smaller key.
pub open spec fn is_sorted<T>(items: Seq<T>, key: spec_fn(T) -> u32) -> bool {
    forall|i: int, j: int|
        0 <= i < j < items.len() ==> key(#[trigger] items[i]) <= key(#[trigger] items[j])
}

/// Every item has a greater key than the one before it.
pub open spec fn is_strictly_sorted<T>(items: Seq<T>, key: spec_fn(T) -> u32) -> bool {
    forall|i: int, j: int|
        0 <= i < j < items.len() ==> key(#[trigger] items[i]) < key(#[trigger] items[j])
}

/// No two items have the same key.
pub open spec fn distinct_keys<T>(items: Seq<T>, key: spec_fn(T) -> u32) -> bool {
    forall|i: int, j: int|
        0 <= i < j < items.len() ==> key(#[trigger] items[i]) != key(#[trigger] items[j])
}

/// Every item before the position has a smaller key, and the item at the
/// position has not.
pub proof fn insert_position_bounds<T>(items: Seq<T>, key: spec_fn(T) -> u32, wanted: u32)
    ensures
        0 <= insert_position(items, key, wanted) <= items.len(),
        forall|k: int|
            0 <= k < insert_position(items, key, wanted) ==> key(#[trigger] items[k]) < wanted,
        insert_position(items, key, wanted) < items.len() ==> key(
            items[insert_position(items, key, wanted)],
        ) >= wanted,
    decreases items.len(),
{
    if items.len() != 0 && key(items[0]) < wanted {
        let rest = items.drop_first();
        insert_position_bounds(rest, key, wanted);
        assert forall|k: int| 0 <= k < insert_position(items, key, wanted) implies key(
            #[trigger] items[k],
        ) < wanted by {
            if k > 0 {
                assert(rest[k - 1] == items[k]);
            }
        }
    }
}

/// Sorting keeps the number of items.
pub proof fn stable_sort_len<T>(items: Seq<T>, key: spec_fn(T) -> u32)
    ensures
        stable_sort(items, key).len() == items.len(),
    decreases items.len(),
{
    if items.len() != 0 {
        let rest = stable_sort(items.drop_first(), key);
        stable_sort_len(items.drop_first(), key);
        insert_position_bounds(rest, key, key(items[0]));
    }
}

/// The result of sorting is in order.
pub proof fn stable_sort_is_sorted<T>(items: Seq<T>, key: spec_fn(T) -> u32)
    ensures
        is_sorted(stable_sort(items, key), key),
    decreases items.len(),
{
    if items.len() != 0 {
        let rest = stable_sort(items.drop_first(), key);
        let first = items[0];
        let at = insert_position(rest, key, key(first));
        stable_sort_is_sorted(items.drop_first(), key);
        insert_position_bounds(rest, key, key(first));
        let merged = rest.insert(at, first);
        assert forall|i: int, j: int| 0 <= i < j < merged.len() implies key(#[trigger] merged[i])
            <= key(#[trigger] merged[j]) by {
            if j < at {
                assert(merged[i] == rest[i] && merged[j] == rest[j]);
            } else if j == at {
                assert(merged[i] == rest[i]);
            } else if i < at {
                assert(merged[i] == rest[i] && merged[j] == rest[j - 1]);
                assert(key(rest[at]) >= key(first));
                if j - 1 > at {
                    assert(key(rest[at]) <= key(rest[j - 1]));
                }
            } else if i == at {
                assert(merged[j] == rest[j - 1]);
                if j - 1 > at {
                    assert(key(rest[at]) <= key(rest[j - 1]));
                }
            } else {
                assert(merged[i] == rest[i - 1] && merged[j] == rest[j - 1]);
            }
        }
    }
}

/// Sorting neither adds nor loses an item.
pub proof fn stable_sort_is_permutation<T>(items: Seq<T>, key: spec_fn(T) -> u32)
    ensures
        stable_sort(items, key).to_multiset() == items.to_multiset(),
    decreases items.len(),
{
    broadcast use vstd::seq_lib::group_to_multiset_ensures;

    if items.len() == 0 {
        assert(stable_sort(items, key) =~= items);
    } else {
        let rest = stable_sort(items.drop_first(), key);
        let first = items[0];
        let at = insert_position(rest, key, key(first));
        stable_sort_is_permutation(items.drop_first(), key);
        insert_position_bounds(rest, key, key(first));
        vstd::seq_lib::to_multiset_insert(rest, at, first);
        assert(items =~= items.drop_first().insert(0, first));
        vstd::seq_lib::to_multiset_insert(items.drop_first(), 0, first);
    }
}

/// Every item of the result is one of the items that were sorted.
pub proof fn stable_sort_keeps_items<T>(items: Seq<T>, key: spec_fn(T) -> u32, k: int)
    requires
        0 <= k < stable_sort(items, key).len(),
    ensures
        exists|i: int| 0 <= i < items.len() && #[trigger] items[i] == stable_sort(items, key)[k],
    decreases items.len(),
{
    if items.len() != 0 {
        let rest = stable_sort(items.drop_first(), key);
        let first = items[0];
        let at = insert_position(rest, key, key(first));
        insert_position_bounds(rest, key, key(first));
        stable_sort_len(items.drop_first(), key);
        if k == at {
            assert(items[0] == stable_sort(items, key)[k]);
        } else {
            let at_rest = if k < at {
                k
            } else {
                k - 1
            };
            stable_sort_keeps_items(items.drop_first(), key, at_rest);
            let i = choose|i: int|
                0 <= i < items.drop_first().len() && #[trigger] items.drop_first()[i]
                    == rest[at_rest];
            assert(items[i + 1] == stable_sort(items, key)[k]);
        }
    }
}

/// Where no two items have the same key, every item of the result has a
/// greater key than the one before it.
pub proof fn stable_sort_is_strict<T>(items: Seq<T>, key: spec_fn(T) -> u32)
    requires
        distinct_keys(items, key),
    ensures
        is_strictly_sorted(stable_sort(items, key), key),
    decreases items.len(),
{
    if items.len() != 0 {
        let tail = items.drop_first();
        let rest = stable_sort(tail, key);
        let first = items[0];
        let at = insert_position(rest, key, key(first));
        assert(distinct_keys(tail, key)) by {
            assert forall|i: int, j: int| 0 <= i < j < tail.len() implies key(#[trigger] tail[i])
                != key(#[trigger] tail[j]) by {
                assert(tail[i] == items[i + 1] && tail[j] == items[j + 1]);
            }
        }
        stable_sort_is_strict(tail, key);
        insert_position_bounds(rest, key, key(first));
        let merged = rest.insert(at, first);
        assert forall|k: int| 0 <= k < rest.len() implies key(#[trigger] rest[k]) != key(
            first,
        ) by {
            stable_sort_keeps_items(tail, key, k);
            let i = choose|i: int| 0 <= i < tail.len() && #[trigger] tail[i] == rest[k];
            assert(tail[i] == items[i + 1]);
            assert(key(items[0]) != key(items[i + 1]));
        }
        assert forall|i: int, j: int| 0 <= i < j < merged.len() implies key(#[trigger] merged[i])
            < key(#[trigger] merged[j]) by {
            if j < at {
                assert(merged[i] == rest[i] && merged[j] == rest[j]);
            } else if j == at {
                assert(merged[i] == rest[i]);
            } else if i < at {
                assert(merged[i] == rest[i] && merged[j] == rest[j - 1]);
                assert(key(rest[at]) >= key(first));
                if j - 1 > at {
                    assert(key(rest[at]) < key(rest[j - 1]));
                }
            } else if i == at {
                assert(merged[j] == rest[j - 1]);
                assert(key(rest[at]) != key(first));
                if j - 1 > at {
                    assert(key(rest[at]) < key(rest[j - 1]));
                }
            } else {
                assert(merged[i] == rest[i - 1] && merged[j] == rest[j - 1]);
            }
        }
    }
}

/// Sorting goes along with any change of the items that keeps their keys:
/// sorting the changed items gives the changed sorted items.
pub proof fn stable_sort_maps<T, U>(
    items: Seq<T>,
    key: spec_fn(T) -> u32,
    change: spec_fn(T) -> U,
    changed_key: spec_fn(U) -> u32,
)
    requires
        forall|item: T| changed_key(#[trigger] change(item)) == key(item),
    ensures
        stable_sort(items.map_values(change), changed_key) == stable_sort(items, key).map_values(
            change,
        ),
    decreases items.len(),
{
    if items.len() == 0 {
        assert(stable_sort(items.map_values(change), changed_key) =~= stable_sort(
            items,
            key,
        ).map_values(change));
    } else {
        let tail = items.drop_first();
        let rest = stable_sort(tail, key);
        stable_sort_maps(tail, key, change, changed_key);
        assert(items.map_values(change).drop_first() =~= tail.map_values(change));
        insert_position_maps(rest, key, change, changed_key, key(items[0]));
        insert_position_bounds(rest, key, key(items[0]));
        assert(rest.map_values(change).insert(
            insert_position(rest, key, key(items[0])),
            change(items[0]),
        ) =~= rest.insert(insert_position(rest, key, key(items[0])), items[0]).map_values(change));
    }
}

proof fn insert_position_maps<T, U>(
    items: Seq<T>,
    key: spec_fn(T) -> u32,
    change: spec_fn(T) -> U,
    changed_key: spec_fn(U) -> u32,
    wanted: u32,
)
    requires
        forall|item: T| changed_key(#[trigger] change(item)) == key(item),
    ensures
        insert_position(items.map_values(change), changed_key, wanted) == insert_position(
            items,
            key,
            wanted,
        ),
    decreases items.len(),
{
    if items.len() != 0 {
        assert(items.map_values(change)[0] == change(items[0]));
        assert(items.map_values(change).drop_first() =~= items.drop_first().map_values(change));
        insert_position_maps(items.drop_first(), key, change, changed_key, wanted);
    }
}

fn find_position<T: Keyed>(items: &Vec<T>, wanted: u32) -> (r: usize)
    ensures
        r == insert_position(items@, key_of::<T>(), wanted),
{
    let ghost key = key_of::<T>();
    proof {
        insert_position_bounds(items@, key, wanted);
    }
    let mut i: usize = 0;
    while i < items.len()
        invariant
            key == key_of::<T>(),
            i <= items.len(),
            i <= insert_position(items@, key, wanted) <= items@.len(),
            insert_position(items@, key, wanted) < items@.len() ==> key(
                items@[insert_position(items@, key, wanted)],
            ) >= wanted,
            forall|k: int|
                0 <= k < insert_position(items@, key, wanted) ==> key(#[trigger] items@[k])
                    < wanted,
        decreases items.len() - i,
    {
        if items[i].key() >= wanted {
            return i;
        }
        i += 1;
    }
    i
}

/// Sorts rows by their keys, keeping rows of equal keys in their order.
pub fn sort_by_key<T: Keyed>(items: Vec<T>) -> (r: Vec<T>)
    ensures
        r@ == stable_sort(items@, key_of::<T>()),
{
    let ghost all = items@;
    let ghost key = key_of::<T>();
    let mut items = items;
    let mut sorted: Vec<T> = Vec::new();
    assert(all.skip(all.len() as int) =~= Seq::empty());
    while items.len() > 0
        invariant
            key == key_of::<T>(),
            items@.len() <= all.len(),
            items@ == all.take(items@.len() as int),
            sorted@ == stable_sort(all.skip(items@.len() as int), key),
        decreases items.len(),
    {
        let ghost n = items@.len() as int;
        let item = items.pop().unwrap();
        proof {
            assert(item == all[n - 1]);
            assert(all.skip(n - 1).drop_first() =~= all.skip(n));
            assert(all.skip(n - 1)[0] == item);
            assert(items@ =~= all.take(n - 1));
            stable_sort_len(all.skip(n), key);
            insert_position_bounds(sorted@, key, key(item));
        }
        let at = find_position(&sorted, item.key());
        sorted.insert(at, item);
    }
    assert(all.skip(0) =~= all);
    sorted
}

} // verus!
