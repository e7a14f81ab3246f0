use vstd::prelude::*;

verus! {

/// The position of the first item of `items` that `wanted` holds of.
pub open spec fn first_where<A>(items: Seq<A>, wanted: spec_fn(A) -> bool) -> Option<int>
    decreases items.len(),
{
    if items.len() == 0 {
        None
    } else if first_where(items.drop_last(), wanted) is Some {
        first_where(items.drop_last(), wanted)
    } else if wanted(items.last()) {
        Some(items.len() - 1)
    } else {
        None
    }
}

/// `first_where` finds an item exactly when `wanted` holds of one, and then
/// the earliest such item.
pub proof fn lemma_first_where<A>(items: Seq<A>, wanted: spec_fn(A) -> bool)
    ensures
        match first_where(items, wanted) {
            Some(i) => {
                &&& 0 <= i < items.len()
                &&& wanted(items[i])
                &&& forall|j: int| 0 <= j < i ==> !wanted(#[trigger] items[j])
            },
            None => forall|j: int| 0 <= j < items.len() ==> !wanted(#[trigger] items[j]),
        },
    decreases items.len(),
{
    if items.len() > 0 {
        let front = items.drop_last();
        lemma_first_where(front, wanted);
        assert(forall|j: int| 0 <= j < front.len() ==> front[j] == items[j]);
    }
}

/// An item of which `wanted` holds, and before which it holds of none, is the
/// one that `first_where` finds.
pub proof fn lemma_first_where_at<A>(items: Seq<A>, wanted: spec_fn(A) -> bool, i: int)
    requires
        0 <= i < items.len(),
        wanted(items[i]),
        forall|j: int| 0 <= j < i ==> !wanted(#[trigger] items[j]),
    ensures
        first_where(items, wanted) == Some(i),
{
    lemma_first_where(items, wanted);
}

/// Where `wanted` holds of no item, `first_where` finds none.
pub proof fn lemma_first_where_none<A>(items: Seq<A>, wanted: spec_fn(A) -> bool)
    requires
        forall|j: int| 0 <= j < items.len() ==> !wanted(#[trigger] items[j]),
    ensures
        first_where(items, wanted) is None,
{
    lemma_first_where(items, wanted);
}

} // verus!
