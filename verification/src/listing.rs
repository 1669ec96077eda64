//! The order in which the streams of an inventory are listed.
use crate::sorting::{arranged, sorted_order};
use crate::streams::{AppRecordStream, AppStream, StreamView};
use std::collections::HashMap;
use vstd::prelude::*;

verus! {

/// A stream that can be listed by the name of its application.
pub trait ListedStream: View<V = StreamView> + Sized {
    /// The name that the stream is listed under.
    fn listed_name(&self) -> (name: &String)
        ensures
            name@ == self@.app_name,
    ;

    /// The stream once more.
    fn copied(&self) -> (copy: Self)
        ensures
            copy@ == self@,
    ;
}

impl ListedStream for AppStream {
    fn listed_name(&self) -> (name: &String) {
        &self.app_name
    }

    fn copied(&self) -> (copy: Self) {
        self.clone()
    }
}

impl ListedStream for AppRecordStream {
    fn listed_name(&self) -> (name: &String) {
        &self.app_name
    }

    fn copied(&self) -> (copy: Self) {
        self.clone()
    }
}

/// What a map of streams says.
pub open spec fn stream_views<S: View<V = StreamView>>(streams: Map<u32, S>) -> Map<
    u32,
    StreamView,
> {
    streams.map_values(|stream: S| stream@)
}

/// What a list of streams says.
pub open spec fn list_views<S: View<V = StreamView>>(list: Seq<S>) -> Seq<StreamView> {
    list.map_values(|stream: S| stream@)
}

/// Whether each stream is kept under its own index.
pub open spec fn keyed_by_index(streams: Map<u32, StreamView>) -> bool {
    forall|index: u32| #[trigger] streams.contains_key(index) ==> streams[index].index == index
}

/// Whether a list holds each stream of a map exactly once.
pub open spec fn lists(streams: Map<u32, StreamView>, list: Seq<StreamView>) -> bool {
    &&& list.len() == streams.dom().len()
    &&& forall|i: int|
        0 <= i < list.len() ==> streams.contains_key((#[trigger] list[i]).index)
            && streams[list[i].index] == list[i]
    &&& forall|i: int, j: int|
        0 <= i < j < list.len() ==> (#[trigger] list[i]).index != (#[trigger] list[j]).index
    &&& forall|index: u32| #[trigger]
        streams.contains_key(index) ==> list.contains(streams[index])
}

/// The key that a stream is sorted by: its name in lower case.
pub open spec fn sort_key(stream: StreamView) -> Seq<char> {
    crate::text::lowercase(stream.app_name)
}

/// The keys that a list is sorted by.
pub open spec fn sort_keys(list: Seq<StreamView>) -> Seq<Seq<char>> {
    list.map_values(|stream: StreamView| sort_key(stream))
}

/// Whether a list is in alphabetical order, upper and lower case alike.
pub open spec fn is_alphabetical(list: Seq<StreamView>) -> bool {
    forall|i: int, j: int|
        0 <= i < j < list.len() ==> crate::text::text_le(
            sort_key(#[trigger] list[i]),
            sort_key(#[trigger] list[j]),
        )
}

/// Whether `sorted` is `list` put in stable order of the given keys.
pub open spec fn is_stably_sorted(
    list: Seq<StreamView>,
    keys: Seq<Seq<char>>,
    sorted: Seq<StreamView>,
) -> bool {
    exists|order: Seq<usize>|
        {
            &&& #[trigger] crate::sorting::is_stable_order(keys, order)
            &&& sorted == order.map_values(|at: usize| list[at as int])
        }
}

/// Puts a list in stable order of the given keys.
pub fn sorted_by_keys<S: ListedStream>(list: Vec<S>, keys: &Vec<String>) -> (sorted: Vec<S>)
    requires
        keys@.len() == list@.len(),
    ensures
        is_stably_sorted(list_views(list@), crate::sorting::texts(keys@), list_views(sorted@)),
{
    let order = sorted_order(keys);
    let ghost before = list@;
    let ghost texts = crate::sorting::texts(keys@);
    assert forall|i: int, j: int|
        0 <= i < order@.len() && 0 <= j < order@.len() && i != j implies order@[i] != order@[j] by {
        if i < j {
            assert(crate::sorting::listed_before(texts, order@[i] as int, order@[j] as int));
        } else {
            assert(crate::sorting::listed_before(texts, order@[j] as int, order@[i] as int));
        }
    }
    let sorted = arranged(list, &order);
    proof {
        let views = list_views(before);
        assert(list_views(sorted@) =~= order@.map_values(|at: usize| views[at as int]));
    }
    sorted
}

/// Puts a list in alphabetical order, upper and lower case alike. Streams whose names are the
/// same but for their case stay in the order that they came in.
pub fn alphabetical<S: ListedStream>(list: Vec<S>) -> (sorted: Vec<S>)
    ensures
        is_stably_sorted(
            list_views(list@),
            sort_keys(list_views(list@)),
            list_views(sorted@),
        ),
{
    let mut keys: Vec<String> = Vec::new();
    let mut next: usize = 0;
    while next < list.len()
        invariant
            next <= list@.len(),
            keys@.len() == next,
            forall|i: int|
                0 <= i < next ==> (#[trigger] keys@[i])@ == sort_key(list@[i]@),
        decreases list@.len() - next,
    {
        keys.push(list[next].listed_name().as_str().to_lowercase());
        next = next + 1;
    }
    assert(crate::sorting::texts(keys@) =~= sort_keys(list_views(list@)));
    sorted_by_keys(list, &keys)
}

/// Collects the streams of a map in whatever order the map yields them.
pub fn walked<S: ListedStream>(streams: &HashMap<u32, S>) -> (list: Vec<S>)
    requires
        keyed_by_index(stream_views(streams@)),
    ensures
        lists(stream_views(streams@), list_views(list@)),
{
    broadcast use vstd::std_specs::hash::group_hash_axioms;

    let mut list: Vec<S> = Vec::new();
    let ghost views = stream_views(streams@);
    let entries = streams.iter();
    let ghost pairs = vstd::std_specs::iter::IteratorSpec::remaining(&entries);
    for entry in walk: entries
        invariant
            walk.seq() == pairs,
            list@.len() == walk.index(),
            forall|i: int| 0 <= i < list@.len() ==> (#[trigger] list@[i])@ == pairs[i].1@,
    {
        list.push(entry.1.copied());
    }
    proof {
        let shown = list_views(list@);
        assert forall|i: int| 0 <= i < shown.len() implies views.contains_key(
            (#[trigger] shown[i]).index,
        ) && views[shown[i].index] == shown[i] && shown[i].index == *pairs[i].0 by {
            assert(streams@.contains_key(*pairs[i].0));
            assert(views.contains_key(*pairs[i].0));
        }
        assert forall|i: int, j: int| 0 <= i < j < shown.len() implies (#[trigger] shown[i]).index
            != (#[trigger] shown[j]).index by {
            assert(streams@.contains_key(*pairs[i].0));
            assert(streams@.contains_key(*pairs[j].0));
            assert(pairs[i] != pairs[j]);
        }
        assert forall|index: u32| #[trigger] views.contains_key(index) implies shown.contains(
            views[index],
        ) by {
            assert(streams@.contains_key(index));
            let at = choose|at: int|
                0 <= at < pairs.len() && pairs[at] == (&index, &streams@[index]);
            assert(shown[at] == views[index]);
        }
        assert(views.dom() =~= streams@.dom());
    }
    list
}

/// Lists the streams of a map, each once, in alphabetical order.
pub fn listed<S: ListedStream>(streams: &HashMap<u32, S>) -> (list: Vec<S>)
    requires
        keyed_by_index(stream_views(streams@)),
    ensures
        lists(stream_views(streams@), list_views(list@)),
        is_alphabetical(list_views(list@)),
{
    let unsorted = walked(streams);
    let ghost before = list_views(unsorted@);
    let list = alphabetical(unsorted);
    proof {
        sorting_keeps_streams(stream_views(streams@), before, list_views(list@));
    }
    list
}

/// Sorting a list of streams by name neither loses nor repeats one, and puts them in alphabetical
/// order.
pub proof fn sorting_keeps_streams(
    streams: Map<u32, StreamView>,
    list: Seq<StreamView>,
    sorted: Seq<StreamView>,
)
    requires
        lists(streams, list),
        is_stably_sorted(list, sort_keys(list), sorted),
    ensures
        lists(streams, sorted),
        is_alphabetical(sorted),
{
    let keys = sort_keys(list);
    let order = choose|order: Seq<usize>|
        {
            &&& #[trigger] crate::sorting::is_stable_order(keys, order)
            &&& sorted == order.map_values(|at: usize| list[at as int])
        };
    assert(forall|i: int| 0 <= i < sorted.len() ==> #[trigger] sorted[i] == list[order[i] as int]);
    assert forall|i: int, j: int| 0 <= i < j < sorted.len() implies (#[trigger] sorted[i]).index
        != (#[trigger] sorted[j]).index && crate::text::text_le(
        sort_key(sorted[i]),
        sort_key(sorted[j]),
    ) by {
        assert(crate::sorting::listed_before(keys, order[i] as int, order[j] as int));
        assert(list[order[i] as int].index != list[order[j] as int].index);
    }
    assert forall|index: u32| #[trigger] streams.contains_key(index) implies sorted.contains(
        streams[index],
    ) by {
        let at = choose|at: int| 0 <= at < list.len() && list[at] == streams[index];
        assert(crate::sorting::names_entry(order, at));
        let place = choose|place: int| 0 <= place < order.len() && order[place] == at;
        assert(sorted[place] == streams[index]);
    }
}

/// Whether no two streams have the same name but for their case.
pub open spec fn names_differ(streams: Map<u32, StreamView>) -> bool {
    forall|left: u32, right: u32| #[trigger]
        streams.contains_key(left) && #[trigger] streams.contains_key(right) && sort_key(
            streams[left],
        ) == sort_key(streams[right]) ==> left == right
}

/// Where no two streams have the same name but for their case, there is only one way to list them.
pub proof fn listing_is_unique(
    streams: Map<u32, StreamView>,
    left: Seq<StreamView>,
    right: Seq<StreamView>,
)
    requires
        names_differ(streams),
        lists(streams, left),
        lists(streams, right),
        is_alphabetical(left),
        is_alphabetical(right),
    ensures
        left == right,
{
    assert forall|stream: StreamView| left.contains(stream) <==> right.contains(stream) by {
        if left.contains(stream) {
            let at = choose|at: int| 0 <= at < left.len() && left[at] == stream;
            assert(streams.contains_key(left[at].index));
        }
        if right.contains(stream) {
            let at = choose|at: int| 0 <= at < right.len() && right[at] == stream;
            assert(streams.contains_key(right[at].index));
        }
    }
    assert forall|a: StreamView, b: StreamView| #[trigger]
        left.contains(a) && #[trigger] left.contains(b) && sort_key(a) == sort_key(
            b,
        ) implies a == b by {
        let i = choose|i: int| 0 <= i < left.len() && left[i] == a;
        let j = choose|j: int| 0 <= j < left.len() && left[j] == b;
        assert(streams.contains_key(left[i].index) && streams.contains_key(left[j].index));
    }
    sorted_lists_agree(left, right);
}

proof fn sorted_lists_agree(left: Seq<StreamView>, right: Seq<StreamView>)
    requires
        is_alphabetical(left),
        is_alphabetical(right),
        left.no_duplicates(),
        right.no_duplicates(),
        left.len() == right.len(),
        forall|stream: StreamView| left.contains(stream) <==> right.contains(stream),
        forall|a: StreamView, b: StreamView| #[trigger]
            left.contains(a) && #[trigger] left.contains(b) && sort_key(a) == sort_key(b) ==> a
                == b,
    ensures
        left == right,
    decreases left.len(),
{
    if left.len() > 0 {
        assert(left.contains(left[0]) && right.contains(right[0]));
        assert(right.contains(left[0]) && left.contains(right[0]));
        let i = choose|i: int| 0 <= i < right.len() && right[i] == left[0];
        let j = choose|j: int| 0 <= j < left.len() && left[j] == right[0];
        assert(left[0] == right[0]) by {
            if i > 0 && j > 0 {
                assert(crate::text::text_le(sort_key(right[0]), sort_key(right[i])));
                assert(crate::text::text_le(sort_key(left[0]), sort_key(left[j])));
                crate::text::text_le_antisymmetric(sort_key(left[0]), sort_key(right[0]));
            }
        }
        let l = left.drop_first();
        let r = right.drop_first();
        assert forall|stream: StreamView| l.contains(stream) <==> r.contains(stream) by {
            if l.contains(stream) {
                let at = choose|at: int| 0 <= at < l.len() && l[at] == stream;
                assert(left[at + 1] == stream);
                assert(right.contains(stream));
                let place = choose|place: int| 0 <= place < right.len() && right[place] == stream;
                assert(r[place - 1] == stream);
            }
            if r.contains(stream) {
                let at = choose|at: int| 0 <= at < r.len() && r[at] == stream;
                assert(right[at + 1] == stream);
                assert(left.contains(stream));
                let place = choose|place: int| 0 <= place < left.len() && left[place] == stream;
                assert(l[place - 1] == stream);
            }
        }
        assert forall|a: StreamView, b: StreamView| #[trigger]
            l.contains(a) && #[trigger] l.contains(b) && sort_key(a) == sort_key(
                b,
            ) implies a == b by {
            let p = choose|p: int| 0 <= p < l.len() && l[p] == a;
            let q = choose|q: int| 0 <= q < l.len() && l[q] == b;
            assert(left[p + 1] == a && left[q + 1] == b);
            assert(left.contains(a) && left.contains(b));
        }
        sorted_lists_agree(l, r);
        assert(left =~= seq![left[0]] + l);
        assert(right =~= seq![right[0]] + r);
    } else {
        assert(left =~= right);
    }
}

} // verus!
