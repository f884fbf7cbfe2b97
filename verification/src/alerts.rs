//! Sets of alert thresholds, and the rule by which a tick fires them.

use vstd::prelude::*;
use crate::price::Price;

verus! {

/// Whether a tick that moves the price from `last` to `now` fires an alert at
/// `threshold`: the price was strictly on one side of the threshold and is
/// now on the other side or exactly at it. A price that already sat at the
/// threshold fires nothing, wherever it goes.
pub open spec fn crosses(last: Price, now: Price, threshold: Price) -> bool {
    (last.spec_lt(threshold) && now.spec_ge(threshold)) || (last.spec_gt(threshold)
        && now.spec_le(threshold))
}

/// Whether some threshold of `alerts` equals `price` in value.
pub open spec fn holds(alerts: Seq<Price>, price: Price) -> bool {
    exists|i: int| 0 <= i < alerts.len() && (#[trigger] alerts[i]).spec_same(price)
}

/// No two thresholds of `alerts` are equal in value.
pub open spec fn distinct(alerts: Seq<Price>) -> bool {
    forall|i: int, j: int|
        0 <= i < j < alerts.len() ==> !(#[trigger] alerts[i]).spec_same(#[trigger] alerts[j])
}

/// The thresholds that differ in value from `price`.
pub open spec fn other_than(price: Price) -> spec_fn(Price) -> bool {
    |threshold: Price| !threshold.spec_same(price)
}

/// The thresholds that a tick from `last` to `now` fires.
pub open spec fn fired_by(last: Price, now: Price) -> spec_fn(Price) -> bool {
    |threshold: Price| crosses(last, now, threshold)
}

/// The thresholds that a tick from `last` to `now` leaves alone.
pub open spec fn spared_by(last: Price, now: Price) -> spec_fn(Price) -> bool {
    |threshold: Price| !crosses(last, now, threshold)
}

/// `list` without every threshold that equals an earlier one in value.
pub open spec fn first_occurrences(list: Seq<Price>) -> Seq<Price>
    decreases list.len(),
{
    if list.len() == 0 {
        list
    } else {
        let earlier = first_occurrences(list.drop_last());
        if holds(earlier, list.last()) {
            earlier
        } else {
            earlier.push(list.last())
        }
    }
}

/// A filter over the first `i + 1` elements is the filter over the first `i`,
/// with element `i` behind it if the predicate takes it.
pub proof fn lemma_filter_next(list: Seq<Price>, i: int, pred: spec_fn(Price) -> bool)
    requires
        0 <= i < list.len(),
    ensures
        list.subrange(0, i + 1).filter(pred) == if pred(list[i]) {
            list.subrange(0, i).filter(pred).push(list[i])
        } else {
            list.subrange(0, i).filter(pred)
        },
{
    reveal(Seq::filter);
    assert(list.subrange(0, i + 1).drop_last() =~= list.subrange(0, i));
}

/// Every element of a filter is an element of the filtered sequence that the
/// predicate takes, and every such element is in the filter.
pub proof fn lemma_filter_origin(list: Seq<Price>, pred: spec_fn(Price) -> bool)
    ensures
        forall|k: int|
            0 <= k < list.filter(pred).len() ==> pred(#[trigger] list.filter(pred)[k]),
        forall|k: int|
            0 <= k < list.filter(pred).len() ==> list.contains(#[trigger] list.filter(pred)[k]),
        forall|i: int|
            0 <= i < list.len() && pred(list[i]) ==> list.filter(pred).contains(#[trigger] list[i]),
        list.filter(pred).len() <= list.len(),
    decreases list.len(),
{
    reveal(Seq::filter);
    if list.len() > 0 {
        lemma_filter_origin(list.drop_last(), pred);
    }
}

/// The thresholds before the last of distinct thresholds are distinct.
pub proof fn lemma_distinct_front(list: Seq<Price>)
    requires
        distinct(list),
        list.len() > 0,
    ensures
        distinct(list.drop_last()),
{
    let front = list.drop_last();
    assert forall|i: int, j: int| 0 <= i < j < front.len() implies !(#[trigger] front[i]).spec_same(
        #[trigger] front[j],
    ) by {
        assert(front[i] == list[i] && front[j] == list[j]);
    }
}

/// A filter of distinct thresholds is distinct.
pub proof fn lemma_filter_distinct(list: Seq<Price>, pred: spec_fn(Price) -> bool)
    requires
        distinct(list),
    ensures
        distinct(list.filter(pred)),
    decreases list.len(),
{
    reveal(Seq::filter);
    if list.len() > 0 {
        let front = list.drop_last();
        lemma_distinct_front(list);
        lemma_filter_distinct(front, pred);
        lemma_filter_origin(front, pred);
    }
}

/// A filter holds a value exactly when the filtered sequence holds it and the
/// predicate takes that value, for a predicate that does not tell equal
/// values apart.
pub proof fn lemma_filter_holds(list: Seq<Price>, pred: spec_fn(Price) -> bool, price: Price)
    requires
        forall|a: Price, b: Price| a.spec_same(b) ==> pred(a) == pred(b),
    ensures
        holds(list.filter(pred), price) <==> holds(list, price) && exists|a: Price|
            a.spec_same(price) && pred(a),
{
    lemma_filter_origin(list, pred);
}

/// The first occurrences of a list are distinct, and they hold the values
/// that the list holds.
pub proof fn lemma_first_occurrences(list: Seq<Price>)
    ensures
        distinct(first_occurrences(list)),
        forall|price: Price| holds(first_occurrences(list), price) <==> holds(list, price),
        first_occurrences(list).len() <= list.len(),
    decreases list.len(),
{
    if list.len() > 0 {
        let front = list.drop_last();
        let earlier = first_occurrences(front);
        let out = first_occurrences(list);
        lemma_first_occurrences(front);
        assert forall|price: Price| holds(out, price) <==> holds(list, price) by {
            if holds(out, price) {
                let k = choose|k: int| 0 <= k < out.len() && (#[trigger] out[k]).spec_same(price);
                if k < earlier.len() {
                    assert(holds(front, price));
                }
            }
            if holds(list, price) {
                let i = choose|i: int| 0 <= i < list.len() && (#[trigger] list[i]).spec_same(price);
                if i < front.len() {
                    assert(front[i].spec_same(price));
                    assert(holds(front, price));
                    let k = choose|k: int|
                        0 <= k < earlier.len() && (#[trigger] earlier[k]).spec_same(price);
                    assert(out[k].spec_same(price));
                } else if !holds(earlier, list.last()) {
                    assert(out[out.len() - 1].spec_same(price));
                }
            }
        }
    }
}

/// Distinct thresholds are their own first occurrences.
pub proof fn lemma_first_occurrences_of_distinct(list: Seq<Price>)
    requires
        distinct(list),
    ensures
        first_occurrences(list) == list,
    decreases list.len(),
{
    if list.len() > 0 {
        lemma_distinct_front(list);
        lemma_first_occurrences_of_distinct(list.drop_last());
    }
}

} // verus!
