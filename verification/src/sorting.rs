//! Stable ordering of list entries by a text key.
use crate::text::text_not_after;
use vstd::prelude::*;

verus! {

/// The texts that strings hold.
pub open spec fn texts(strings: Seq<String>) -> Seq<Seq<char>> {
    strings.map_values(|s: String| s@)
}

/// Whether entry `i` is listed before entry `j`: its key is smaller, or the keys are equal and
/// `i` came first.
pub open spec fn listed_before(keys: Seq<Seq<char>>, i: int, j: int) -> bool {
    &&& crate::text::text_le(keys[i], keys[j])
    &&& keys[i] == keys[j] ==> i < j
}

/// Whether `order` names entry `k`.
pub open spec fn names_entry(order: Seq<usize>, k: int) -> bool {
    exists|i: int| 0 <= i < order.len() && #[trigger] order[i] == k
}

/// Whether `order` names every entry once, in the order in which the entries are listed.
pub open spec fn is_stable_order(keys: Seq<Seq<char>>, order: Seq<usize>) -> bool {
    &&& order.len() == keys.len()
    &&& forall|i: int| 0 <= i < order.len() ==> #[trigger] order[i] < keys.len()
    &&& forall|k: int| 0 <= k < keys.len() ==> #[trigger] names_entry(order, k)
    &&& forall|i: int, j: int|
        0 <= i < j < order.len() ==> listed_before(
            keys,
            #[trigger] order[i] as int,
            #[trigger] order[j] as int,
        )
}

/// Computes the order in which entries with the given keys are listed.
pub fn sorted_order(keys: &Vec<String>) -> (order: Vec<usize>)
    ensures
        is_stable_order(texts(keys@), order@),
{
    let ghost all = texts(keys@);
    let mut order: Vec<usize> = Vec::new();
    let mut next: usize = 0;
    while next < keys.len()
        invariant
            next <= keys@.len(),
            all == texts(keys@),
            is_stable_order(all.take(next as int), order@),
        decreases keys@.len() - next,
    {
        let mut at: usize = next;
        while at > 0 && !text_not_after(&keys[order[at - 1]], &keys[next])
            invariant
                at <= next < keys@.len(),
                all == texts(keys@),
                is_stable_order(all.take(next as int), order@),
                forall|q: int|
                    at <= q < next ==> !crate::text::text_le(
                        all[#[trigger] order@[q] as int],
                        all[next as int],
                    ),
            decreases at,
        {
            at = at - 1;
        }
        let ghost before = order@;
        order.insert(at, next);
        proof {
            insertion_keeps_order(all, before, at as int, next);
        }
        next = next + 1;
    }
    assert(all.take(next as int) =~= all);
    order
}

/// Puts a further entry where the entries before it are no larger and those after it are larger.
proof fn insertion_keeps_order(all: Seq<Seq<char>>, order: Seq<usize>, at: int, next: usize)
    requires
        next < all.len(),
        0 <= at <= next,
        is_stable_order(all.take(next as int), order),
        at > 0 ==> crate::text::text_le(all[order[at - 1] as int], all[next as int]),
        forall|q: int|
            at <= q < next ==> !crate::text::text_le(
                all[#[trigger] order[q] as int],
                all[next as int],
            ),
    ensures
        is_stable_order(all.take(next + 1), order.insert(at, next)),
{
    let old_keys = all.take(next as int);
    let keys = all.take(next + 1);
    let placed = order.insert(at, next);
    assert forall|k: int| 0 <= k < keys.len() implies #[trigger] names_entry(placed, k) by {
        if k == next {
            assert(placed[at] == k);
        } else {
            assert(names_entry(order, k));
            let i = choose|i: int| 0 <= i < order.len() && order[i] == k;
            if i < at {
                assert(placed[i] == k);
            } else {
                assert(placed[i + 1] == k);
            }
        }
    }
    assert forall|i: int, j: int| 0 <= i < j < placed.len() implies listed_before(
        keys,
        #[trigger] placed[i] as int,
        #[trigger] placed[j] as int,
    ) by {
        let a = if i < at {
            i
        } else {
            i - 1
        };
        let b = if j < at {
            j
        } else {
            j - 1
        };
        if i == at {
            assert(placed[j] == order[b]);
            crate::text::text_le_total(all[order[b] as int], all[next as int]);
        } else if j == at {
            assert(placed[i] == order[a]);
            if a < at - 1 {
                assert(listed_before(old_keys, order[a] as int, order[at - 1] as int));
                crate::text::text_le_transitive(
                    all[order[a] as int],
                    all[order[at - 1] as int],
                    all[next as int],
                );
            }
        } else {
            assert(placed[i] == order[a]);
            assert(placed[j] == order[b]);
            assert(listed_before(old_keys, order[a] as int, order[b] as int));
        }
    }
}

/// There is only one stable order of given keys.
pub proof fn stable_order_is_unique(keys: Seq<Seq<char>>, left: Seq<usize>, right: Seq<usize>)
    requires
        is_stable_order(keys, left),
        is_stable_order(keys, right),
    ensures
        left == right,
{
    assert forall|at: int| 0 <= at <= left.len() implies left.take(at) == right.take(at) by {
        stable_prefixes_agree(keys, left, right, at);
    }
    assert(left.take(left.len() as int) =~= left);
    assert(right.take(right.len() as int) =~= right);
}

proof fn stable_prefixes_agree(
    keys: Seq<Seq<char>>,
    left: Seq<usize>,
    right: Seq<usize>,
    at: int,
)
    requires
        is_stable_order(keys, left),
        is_stable_order(keys, right),
        0 <= at <= left.len(),
    ensures
        left.take(at) == right.take(at),
    decreases at,
{
    if at > 0 {
        let last = at - 1;
        stable_prefixes_agree(keys, left, right, last);
        assert forall|q: int| 0 <= q < last implies left[q] == right[q] by {
            assert(left.take(last)[q] == right.take(last)[q]);
        }
        assert(names_entry(right, left[last] as int));
        assert(names_entry(left, right[last] as int));
        let i = choose|i: int| 0 <= i < right.len() && right[i] == left[last];
        let j = choose|j: int| 0 <= j < left.len() && left[j] == right[last];
        if i < last {
            assert(listed_before(keys, left[i] as int, left[last] as int));
        }
        if j < last {
            assert(listed_before(keys, right[j] as int, right[last] as int));
        }
        if i > last && j > last {
            assert(listed_before(keys, right[last] as int, right[i] as int));
            assert(listed_before(keys, left[last] as int, left[j] as int));
            crate::text::text_le_antisymmetric(
                keys[left[last] as int],
                keys[right[last] as int],
            );
        }
        assert(left[last] == right[last]);
        assert(left.take(at) =~= left.take(last).push(left[last]));
        assert(right.take(at) =~= right.take(last).push(right[last]));
    }
}

/// Rearranges entries as `order` says.
pub fn arranged<T>(items: Vec<T>, order: &Vec<usize>) -> (result: Vec<T>)
    requires
        order@.len() == items@.len(),
        order@.no_duplicates(),
        forall|i: int| 0 <= i < order@.len() ==> #[trigger] order@[i] < items@.len(),
    ensures
        result@.len() == items@.len(),
        forall|i: int|
            0 <= i < result@.len() ==> #[trigger] result@[i] == items@[order@[i] as int],
{
    let ghost source = items@;
    let mut slots: Vec<Option<T>> = Vec::new();
    for item in taken: items
        invariant
            taken.seq() == source,
            slots@.len() == taken.index(),
            forall|i: int| 0 <= i < slots@.len() ==> #[trigger] slots@[i] == Some(source[i]),
    {
        slots.push(Some(item));
    }
    let mut result: Vec<T> = Vec::new();
    let mut at: usize = 0;
    while at < order.len()
        invariant
            at <= order@.len(),
            result@.len() == at,
            slots@.len() == source.len(),
            order@.len() == source.len(),
            order@.no_duplicates(),
            forall|i: int| 0 <= i < order@.len() ==> #[trigger] order@[i] < source.len(),
            forall|i: int| 0 <= i < at ==> #[trigger] result@[i] == source[order@[i] as int],
            forall|i: int|
                at <= i < order@.len() ==> slots@[#[trigger] order@[i] as int] == Some(
                    source[order@[i] as int],
                ),
        decreases order@.len() - at,
    {
        let from: usize = order[at];
        let slot = slots[from].take();
        match slot {
            Some(item) => {
                result.push(item);
            },
            None => {
                assert(false);
            },
        }
        at = at + 1;
    }
    result
}

/// A stable order is a rearrangement of the entries in which keys never fall and equal keys keep
/// the order that their entries had.
pub proof fn stable_order_sorts(keys: Seq<Seq<char>>, order: Seq<usize>, i: int, j: int)
    requires
        is_stable_order(keys, order),
        0 <= i < j < order.len(),
    ensures
        order.len() == keys.len(),
        order[i] < keys.len() && order[j] < keys.len(),
        order[i] != order[j],
        crate::text::text_le(keys[order[i] as int], keys[order[j] as int]),
        keys[order[i] as int] == keys[order[j] as int] ==> order[i] < order[j],
{
    assert(listed_before(keys, order[i] as int, order[j] as int));
}

} // verus!
