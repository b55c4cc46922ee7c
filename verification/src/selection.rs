use vstd::prelude::*;

verus! {

/// The items of `items` whose flag is set, in their order. A flag past the
/// end of `items`, or an item past the end of `flags`, selects nothing.
pub open spec fn kept<T>(items: Seq<T>, flags: Seq<bool>) -> Seq<T>
    decreases items.len(),
{
    if items.len() == 0 || flags.len() != items.len() {
        Seq::empty()
    } else if flags.last() {
        kept(items.drop_last(), flags.drop_last()).push(items.last())
    } else {
        kept(items.drop_last(), flags.drop_last())
    }
}

/// The positions at which `flags` is set, in increasing order.
pub open spec fn kept_positions(flags: Seq<bool>) -> Seq<int>
    decreases flags.len(),
{
    if flags.len() == 0 {
        Seq::empty()
    } else if flags.last() {
        kept_positions(flags.drop_last()).push(flags.len() - 1)
    } else {
        kept_positions(flags.drop_last())
    }
}

/// `part` is made of items of `whole`, taken at the positions `at`, which
/// strictly increase: `part` is a subsequence of `whole`, in the same order.
pub open spec fn is_subsequence_at<T>(part: Seq<T>, whole: Seq<T>, at: Seq<int>) -> bool {
    &&& at.len() == part.len()
    &&& forall|k: int| 0 <= k < at.len() ==> 0 <= #[trigger] at[k] < whole.len()
    &&& forall|k: int| 0 <= k < at.len() ==> part[k] == whole[#[trigger] at[k]]
    &&& forall|j: int, k: int| 0 <= j < k < at.len() ==> #[trigger] at[j] < #[trigger] at[k]
}

/// Adding one item with its flag at the end adds that item to the selection
/// when the flag is set, and nothing otherwise.
pub proof fn lemma_kept_push<T>(items: Seq<T>, flags: Seq<bool>, item: T, flag: bool)
    requires
        items.len() == flags.len(),
    ensures
        kept(items.push(item), flags.push(flag)) == if flag {
            kept(items, flags).push(item)
        } else {
            kept(items, flags)
        },
{
    assert(items.push(item).drop_last() =~= items);
    assert(flags.push(flag).drop_last() =~= flags);
}

/// The set positions are in range, strictly increasing, and each is set.
pub proof fn lemma_kept_positions(flags: Seq<bool>)
    ensures
        kept_positions(flags).len() <= flags.len(),
        forall|k: int|
            0 <= k < kept_positions(flags).len() ==> {
                &&& 0 <= #[trigger] kept_positions(flags)[k] < flags.len()
                &&& flags[kept_positions(flags)[k]]
            },
        forall|j: int, k: int|
            0 <= j < k < kept_positions(flags).len() ==> #[trigger] kept_positions(flags)[j]
                < #[trigger] kept_positions(flags)[k],
    decreases flags.len(),
{
    if flags.len() > 0 {
        lemma_kept_positions(flags.drop_last());
    }
}

/// Every set position is among the kept positions: nothing that was
/// selected is lost.
pub proof fn lemma_kept_positions_complete(flags: Seq<bool>, p: int)
    requires
        0 <= p < flags.len(),
        flags[p],
    ensures
        exists|k: int| 0 <= k < kept_positions(flags).len() && kept_positions(flags)[k] == p,
    decreases flags.len(),
{
    if p == flags.len() - 1 {
        let k = kept_positions(flags).len() - 1;
        assert(kept_positions(flags)[k] == p);
    } else {
        lemma_kept_positions_complete(flags.drop_last(), p);
        let k = choose|k: int|
            0 <= k < kept_positions(flags.drop_last()).len() && kept_positions(
                flags.drop_last(),
            )[k] == p;
        assert(kept_positions(flags)[k] == p);
    }
}

/// The selection is the subsequence of `items` at the set positions.
pub proof fn lemma_kept_is_subsequence<T>(items: Seq<T>, flags: Seq<bool>)
    requires
        items.len() == flags.len(),
    ensures
        is_subsequence_at(kept(items, flags), items, kept_positions(flags)),
    decreases items.len(),
{
    lemma_kept_positions(flags);
    if items.len() > 0 {
        lemma_kept_is_subsequence(items.drop_last(), flags.drop_last());
        lemma_kept_positions(flags.drop_last());
    }
}

/// Where every flag is set, everything is selected.
pub proof fn lemma_kept_all<T>(items: Seq<T>, flags: Seq<bool>)
    requires
        items.len() == flags.len(),
        forall|k: int| 0 <= k < flags.len() ==> flags[k],
    ensures
        kept(items, flags) == items,
    decreases items.len(),
{
    if items.len() > 0 {
        lemma_kept_all(items.drop_last(), flags.drop_last());
        assert(items.drop_last().push(items.last()) =~= items);
    } else {
        assert(items =~= Seq::empty());
    }
}

/// A selection is no longer than what it selects from.
pub proof fn lemma_kept_len<T>(items: Seq<T>, flags: Seq<bool>)
    ensures
        kept(items, flags).len() <= items.len(),
    decreases items.len(),
{
    if items.len() > 0 && flags.len() == items.len() {
        lemma_kept_len(items.drop_last(), flags.drop_last());
    }
}

} // verus!
