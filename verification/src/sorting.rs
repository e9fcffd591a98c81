use vstd::prelude::*;
use crate::models::Timestamp;
use crate::models::UnifiedItem;

verus! {

/// `sorted` with `item` put in behind every element that is at least as new,
/// and before the older ones.
pub open spec fn insert_by_age(sorted: Seq<UnifiedItem>, item: UnifiedItem) -> Seq<UnifiedItem>
    decreases sorted.len(),
{
    if sorted.len() > 0 && sorted.last().created_utc < item.created_utc {
        insert_by_age(sorted.drop_last(), item).push(sorted.last())
    } else {
        sorted.push(item)
    }
}

/// The items ordered by creation time, newest first; items created at the
/// same time keep the order they came in.
pub open spec fn newest_first(items: Seq<UnifiedItem>) -> Seq<UnifiedItem>
    decreases items.len(),
{
    if items.len() == 0 {
        Seq::empty()
    } else {
        insert_by_age(newest_first(items.drop_last()), items.last())
    }
}

/// Whether no item stands before a newer one.
pub open spec fn is_newest_first(items: Seq<UnifiedItem>) -> bool {
    forall|i: int, j: int|
        0 <= i < j < items.len() ==> (#[trigger] items[i]).created_utc >= (
        #[trigger] items[j]).created_utc
}

/// Inserting by age is inserting at the index behind which every element is
/// older and before which the neighbour is at least as new.
pub proof fn lemma_insert_position(sorted: Seq<UnifiedItem>, item: UnifiedItem, at: int)
    requires
        0 <= at <= sorted.len(),
        forall|k: int| at <= k < sorted.len() ==> (#[trigger] sorted[k]).created_utc
            < item.created_utc,
        at > 0 ==> sorted[at - 1].created_utc >= item.created_utc,
    ensures
        insert_by_age(sorted, item) == sorted.insert(at, item),
    decreases sorted.len() - at,
{
    if at == sorted.len() {
        assert(sorted.insert(at, item) == sorted.push(item));
    } else {
        let shorter = sorted.drop_last();
        assert(sorted.last() == sorted[sorted.len() - 1]);
        assert forall|k: int| at <= k < shorter.len() implies (#[trigger] shorter[k]).created_utc
            < item.created_utc by {
            assert(shorter[k] == sorted[k]);
        }
        lemma_insert_position(shorter, item, at);
        assert(shorter.insert(at, item).push(sorted.last()) == sorted.insert(at, item));
    }
}

/// Inserting by age keeps an ordered sequence ordered, and adds exactly the
/// one item.
pub proof fn lemma_insert_by_age(sorted: Seq<UnifiedItem>, item: UnifiedItem)
    requires
        is_newest_first(sorted),
    ensures
        is_newest_first(insert_by_age(sorted, item)),
        insert_by_age(sorted, item).to_multiset() == sorted.to_multiset().insert(item),
        insert_by_age(sorted, item).len() == sorted.len() + 1,
    decreases sorted.len(),
{
    broadcast use vstd::seq_lib::group_to_multiset_ensures;

    if sorted.len() > 0 && sorted.last().created_utc < item.created_utc {
        let shorter = sorted.drop_last();
        let last = sorted.last();
        assert forall|i: int, j: int| 0 <= i < j < shorter.len() implies (
        #[trigger] shorter[i]).created_utc >= (#[trigger] shorter[j]).created_utc by {
            assert(shorter[i] == sorted[i]);
            assert(shorter[j] == sorted[j]);
        }
        lemma_insert_by_age(shorter, item);
        let inner = insert_by_age(shorter, item);
        let out = inner.push(last);
        assert(sorted == shorter.push(last));
        assert forall|k: int| 0 <= k < inner.len() implies (#[trigger] inner[k]).created_utc
            >= last.created_utc by {
            assert(inner.to_multiset().count(inner[k]) > 0);
            if inner[k] != item {
                assert(shorter.to_multiset().count(inner[k]) > 0);
                assert(shorter.contains(inner[k]));
                let m = choose|m: int| 0 <= m < shorter.len() && shorter[m] == inner[k];
                assert(sorted[m] == inner[k]);
                assert(sorted[m].created_utc >= sorted[sorted.len() - 1].created_utc);
            }
        }
        assert forall|i: int, j: int| 0 <= i < j < out.len() implies (#[trigger] out[i]).created_utc
            >= (#[trigger] out[j]).created_utc by {
            if j < inner.len() {
                assert(out[i] == inner[i]);
                assert(out[j] == inner[j]);
            } else {
                assert(out[i] == inner[i]);
            }
        }
        assert(out.to_multiset() == sorted.to_multiset().insert(item));
    } else {
        let out = sorted.push(item);
        assert forall|i: int, j: int| 0 <= i < j < out.len() implies (#[trigger] out[i]).created_utc
            >= (#[trigger] out[j]).created_utc by {
            if j < sorted.len() {
                assert(out[i] == sorted[i]);
                assert(out[j] == sorted[j]);
            } else {
                assert(out[i] == sorted[i]);
                if sorted.len() > 0 {
                    assert(sorted[i].created_utc >= sorted[sorted.len() - 1].created_utc);
                }
            }
        }
    }
}

/// Ordering newest first gives an ordered sequence that holds exactly the
/// items it was given, each as often as before.
pub proof fn lemma_newest_first_sorts(items: Seq<UnifiedItem>)
    ensures
        is_newest_first(newest_first(items)),
        newest_first(items).to_multiset() == items.to_multiset(),
        newest_first(items).len() == items.len(),
    decreases items.len(),
{
    broadcast use vstd::seq_lib::group_to_multiset_ensures;

    if items.len() > 0 {
        lemma_newest_first_sorts(items.drop_last());
        lemma_insert_by_age(newest_first(items.drop_last()), items.last());
        assert(items == items.drop_last().push(items.last()));
    }
}

/// The predicate "was created at `time`".
pub open spec fn created_at(time: Timestamp) -> spec_fn(UnifiedItem) -> bool {
    |item: UnifiedItem| item.created_utc == time
}

/// Inserting by age puts an item behind the items created at the same time.
pub proof fn lemma_insert_behind_ties(sorted: Seq<UnifiedItem>, item: UnifiedItem, time: Timestamp)
    ensures
        insert_by_age(sorted, item).filter(created_at(time)) == if item.created_utc == time {
            sorted.filter(created_at(time)).push(item)
        } else {
            sorted.filter(created_at(time))
        },
    decreases sorted.len(),
{
    let same = created_at(time);
    if sorted.len() > 0 && sorted.last().created_utc < item.created_utc {
        let shorter = sorted.drop_last();
        let last = sorted.last();
        lemma_insert_behind_ties(shorter, item, time);
        insert_by_age(shorter, item).lemma_filter_push(last, same);
        shorter.lemma_filter_push(last, same);
        assert(sorted == shorter.push(last));
    } else {
        sorted.lemma_filter_push(item, same);
    }
}

/// Ordering newest first is stable: the items created at any one time stand
/// in the order they came in.
pub proof fn lemma_newest_first_stable(items: Seq<UnifiedItem>, time: Timestamp)
    ensures
        newest_first(items).filter(created_at(time)) == items.filter(created_at(time)),
    decreases items.len(),
{
    if items.len() == 0 {
    } else {
        let earlier = items.drop_last();
        lemma_newest_first_stable(earlier, time);
        lemma_insert_behind_ties(newest_first(earlier), items.last(), time);
        earlier.lemma_filter_push(items.last(), created_at(time));
        assert(items == earlier.push(items.last()));
    }
}

/// Orders the items by creation time, newest first. Items created at the
/// same time keep their order.
pub fn sort_newest_first(items: Vec<UnifiedItem>) -> (out: Vec<UnifiedItem>)
    ensures
        out@ == newest_first(items@),
        is_newest_first(out@),
        out@.to_multiset() == items@.to_multiset(),
{
    let ghost all = items@;
    let mut out: Vec<UnifiedItem> = Vec::new();
    assert(all.take(0) == Seq::<UnifiedItem>::empty());
    for item in iter: items
        invariant
            iter.seq() == all,
            out@ == newest_first(all.take(iter.index() as int)),
    {
        let ghost i = iter.index() as int;
        assert(all.take(i + 1).drop_last() == all.take(i));
        assert(all.take(i + 1).last() == item);
        let mut at: usize = out.len();
        while at > 0 && out[at - 1].created_utc < item.created_utc
            invariant
                at <= out.len(),
                forall|k: int| at <= k < out.len() ==> (#[trigger] out@[k]).created_utc
                    < item.created_utc,
            decreases at,
        {
            at -= 1;
        }
        proof {
            lemma_insert_position(out@, item, at as int);
        }
        out.insert(at, item);
    }
    proof {
        assert(all.take(all.len() as int) == all);
        lemma_newest_first_sorts(all);
    }
    out
}

} // verus!
