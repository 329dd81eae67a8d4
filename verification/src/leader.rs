//! Picking the most profitable entry of a list of net returns.

use vstd::prelude::*;

verus! {

/// Whether entry `i` leads the list: its net return is positive, no entry
/// has a greater one, and every entry before it has a smaller one.
pub open spec fn leads(nets: Seq<int>, i: int) -> bool {
    &&& 0 <= i < nets.len()
    &&& nets[i] > 0
    &&& forall|j: int| 0 <= j < nets.len() ==> nets[j] <= nets[i]
    &&& forall|j: int| 0 <= j < i ==> nets[j] < nets[i]
}

/// The entry that leads the list, if one does.
pub open spec fn leader(nets: Seq<int>) -> Option<int> {
    if exists|i: int| leads(nets, i) {
        Some(choose|i: int| leads(nets, i))
    } else {
        None
    }
}

/// At most one entry leads a list.
pub proof fn lemma_leads_unique(nets: Seq<int>, i: int, j: int)
    requires
        leads(nets, i),
        leads(nets, j),
    ensures
        i == j,
{
    if i < j {
        assert(nets[i] < nets[j]);
        assert(nets[j] <= nets[i]);
    } else if j < i {
        assert(nets[j] < nets[i]);
        assert(nets[i] <= nets[j]);
    }
}

/// An entry that leads the list is its leader.
pub proof fn lemma_leader_is(nets: Seq<int>, i: int)
    requires
        leads(nets, i),
    ensures
        leader(nets) == Some(i),
{
    let k = choose|k: int| leads(nets, k);
    lemma_leads_unique(nets, i, k);
}

/// A list has no leader exactly when none of its entries is positive.
pub proof fn lemma_no_leader(nets: Seq<int>)
    ensures
        leader(nets) is None <==> forall|j: int| 0 <= j < nets.len() ==> nets[j] <= 0,
{
    if forall|j: int| 0 <= j < nets.len() ==> nets[j] <= 0 {
        assert forall|i: int| !leads(nets, i) by {}
    } else {
        let i = first_peak(nets, nets.len() as int);
        lemma_first_peak(nets, nets.len() as int);
        assert(leads(nets, i));
    }
}

/// The first position among the first `n` entries that holds their greatest
/// value.
pub open spec fn first_peak(nets: Seq<int>, n: int) -> int
    decreases n,
{
    if n <= 1 {
        0
    } else {
        let p = first_peak(nets, n - 1);
        if nets[n - 1] > nets[p] {
            n - 1
        } else {
            p
        }
    }
}

/// The first peak of a prefix is no less than any of its entries and greater
/// than those before it.
pub proof fn lemma_first_peak(nets: Seq<int>, n: int)
    requires
        1 <= n <= nets.len(),
    ensures
        0 <= first_peak(nets, n) < n,
        forall|j: int| 0 <= j < n ==> #[trigger] nets[j] <= nets[first_peak(nets, n)],
        forall|j: int|
            0 <= j < first_peak(nets, n) ==> #[trigger] nets[j] < nets[first_peak(nets, n)],
    decreases n,
{
    if n > 1 {
        lemma_first_peak(nets, n - 1);
    }
}

} // verus!
