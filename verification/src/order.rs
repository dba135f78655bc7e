//! The display order of rows: highest CPU usage first, and rows of equal
//! usage in the order they had before.

use crate::keys::key_leq;
use crate::record::ProcessRecord;
use vstd::prelude::*;
use vstd::relations::{sorted_by, total_ordering};
use vstd::seq_lib::{lemma_sorted_unique, to_multiset_len};

verus! {

/// Whether the row at position `a` of `rows` is shown at or before the row
/// at position `b`: the higher CPU usage first, and of two equal usages
/// the row that stood earlier.
pub open spec fn precedes(rows: Seq<ProcessRecord>, a: int, b: int) -> bool {
    ||| rows[a].cpu_percent > rows[b].cpu_percent
    ||| rows[a].cpu_percent == rows[b].cpu_percent && a <= b
}

/// `precedes` over the positions of `rows`, as a relation.
pub open spec fn row_order(rows: Seq<ProcessRecord>) -> spec_fn(int, int) -> bool {
    |a: int, b: int| precedes(rows, a, b)
}

/// The positions `0, 1, ..` of a sequence of `n` rows.
pub open spec fn positions(n: nat) -> Seq<int> {
    Seq::new(n, |i: int| i)
}

/// The positions of `rows` in display order: entry `i` is the position
/// that the row shown `i`-th has in `rows`.
pub open spec fn display_order(rows: Seq<ProcessRecord>) -> Seq<int> {
    positions(rows.len()).sort_by(row_order(rows))
}

/// `rows` in display order.
pub open spec fn sorted_rows(rows: Seq<ProcessRecord>) -> Seq<ProcessRecord> {
    display_order(rows).map_values(|p: int| rows[p])
}

/// The sort key of every row of `rows`: its CPU usage and its position.
pub open spec fn keys_of(rows: Seq<ProcessRecord>) -> Seq<(u32, usize)> {
    Seq::new(rows.len(), |i: int| (rows[i].cpu_percent, i as usize))
}

/// Display order is a total order on positions: of any two positions one
/// is shown at or before the other, and only a position itself is shown
/// both at or before it and at or after it.
pub proof fn lemma_row_order_is_total(rows: Seq<ProcessRecord>)
    ensures
        total_ordering(row_order(rows)),
{
}

/// Two sequences without repeated elements that hold the same elements
/// hold each of them equally often.
proof fn lemma_same_elements_same_multiset<A>(a: Seq<A>, b: Seq<A>)
    requires
        a.no_duplicates(),
        b.no_duplicates(),
        forall|x: A| a.contains(x) <==> b.contains(x),
    ensures
        a.to_multiset() == b.to_multiset(),
{
    broadcast use vstd::seq_lib::group_to_multiset_ensures;

    a.lemma_multiset_has_no_duplicates();
    b.lemma_multiset_has_no_duplicates();
    assert forall|x: A| a.to_multiset().count(x) == b.to_multiset().count(x) by {
        // Either both hold `x`, once each, or neither does.
        assert(a.contains(x) <==> b.contains(x));
    }
}

/// The display order is a rearrangement of the positions of `rows`: it is
/// as long as `rows`, every entry is a position of `rows`, no position
/// occurs twice and none is left out.
pub proof fn lemma_display_order_permutes(rows: Seq<ProcessRecord>)
    ensures
        display_order(rows).len() == rows.len(),
        display_order(rows).no_duplicates(),
        forall|i: int|
            0 <= i < rows.len() ==> 0 <= #[trigger] display_order(rows)[i] < rows.len(),
        forall|p: int| 0 <= p < rows.len() ==> display_order(rows).contains(p),
{
    broadcast use vstd::seq_lib::group_to_multiset_ensures;

    let n = rows.len();
    let start = positions(n);
    let order = display_order(rows);
    start.lemma_sort_by_ensures(row_order(rows));
    assert(order.len() == n) by {
        assert(order.to_multiset().len() == start.to_multiset().len());
    }
    start.lemma_multiset_has_no_duplicates();
    order.lemma_multiset_has_no_duplicates_conv();
    assert forall|i: int| 0 <= i < n implies 0 <= #[trigger] order[i] < n by {
        assert(order.to_multiset().count(order[i]) > 0);
    }
    assert forall|p: int| 0 <= p < n implies order.contains(p) by {
        assert(start[p] == p);
        assert(start.to_multiset().count(p) > 0);
    }
}

/// Rows in display order never show a lower CPU usage before a higher one,
/// and two rows of equal usage keep the order they had in `rows`.
pub proof fn lemma_display_order_is_stable_descending(rows: Seq<ProcessRecord>)
    ensures
        forall|i: int, j: int|
            0 <= i < j < rows.len() ==> (#[trigger] sorted_rows(rows)[i]).cpu_percent
                >= (#[trigger] sorted_rows(rows)[j]).cpu_percent,
        forall|i: int, j: int|
            0 <= i < j < rows.len()
                && sorted_rows(rows)[i].cpu_percent == sorted_rows(rows)[j].cpu_percent
                ==> #[trigger] display_order(rows)[i] < #[trigger] display_order(rows)[j],
{
    let order = display_order(rows);
    lemma_display_order_permutes(rows);
    positions(rows.len()).lemma_sort_by_ensures(row_order(rows));
    assert forall|i: int, j: int| 0 <= i < j < rows.len() implies precedes(
        rows,
        #[trigger] order[i],
        #[trigger] order[j],
    ) && order[i] != order[j] by {
        assert(row_order(rows)(order[i], order[j]));
    }
}

/// Sequences that hold the same elements equally often still do so after
/// the same function is applied to every element.
proof fn lemma_map_keeps_multiset<A, B>(a: Seq<A>, b: Seq<A>, f: spec_fn(A) -> B)
    requires
        a.to_multiset() == b.to_multiset(),
    ensures
        a.map_values(f).to_multiset() == b.map_values(f).to_multiset(),
    decreases a.len(),
{
    broadcast use vstd::seq_lib::group_to_multiset_ensures;

    to_multiset_len(b);
    if a.len() > 0 {
        let x = a.last();
        let shorter = a.drop_last();
        assert(a =~= shorter.push(x));
        assert(a.to_multiset().count(x) > 0);
        let k = choose|k: int| 0 <= k < b.len() && b[k] == x;
        let rest = b.remove(k);
        assert(shorter.to_multiset() =~= a.to_multiset().remove(x));
        lemma_map_keeps_multiset(shorter, rest, f);
        assert(a.map_values(f) =~= shorter.map_values(f).push(f(x)));
        assert(b.map_values(f).remove(k) =~= rest.map_values(f));
    }
}

/// Sorting neither adds nor drops a row: the rows in display order are the
/// rows given, each as often as before.
pub proof fn lemma_sorted_rows_same_records(rows: Seq<ProcessRecord>)
    ensures
        sorted_rows(rows).len() == rows.len(),
        sorted_rows(rows).to_multiset() == rows.to_multiset(),
{
    let all = positions(rows.len());
    lemma_display_order_permutes(rows);
    all.lemma_sort_by_ensures(row_order(rows));
    lemma_map_keeps_multiset(display_order(rows), all, |p: int| rows[p]);
    assert(all.map_values(|p: int| rows[p]) =~= rows);
}

/// Keys that hold the keys of `rows`, each once, in key order list the
/// positions of `rows` in display order.
pub proof fn lemma_sorted_keys_give_display_order(
    rows: Seq<ProcessRecord>,
    keys: Seq<(u32, usize)>,
)
    requires
        rows.len() <= usize::MAX,
        keys.to_multiset() == keys_of(rows).to_multiset(),
        forall|i: int, j: int|
            0 <= i < j < keys.len() ==> key_leq(#[trigger] keys[i], #[trigger] keys[j]),
    ensures
        keys.len() == rows.len(),
        forall|i: int| 0 <= i < keys.len() ==> (#[trigger] keys[i]).1 < rows.len(),
        keys.map_values(|k: (u32, usize)| k.1 as int) == display_order(rows),
{
    broadcast use vstd::seq_lib::group_to_multiset_ensures;

    let n = rows.len();
    let start = keys_of(rows);
    let found = keys.map_values(|k: (u32, usize)| k.1 as int);
    assert(keys.len() == n) by {
        assert(keys.to_multiset().len() == start.to_multiset().len());
    }
    // Every key is the key of the row whose position it names.
    assert forall|i: int| 0 <= i < n implies
        0 <= #[trigger] found[i] < n && keys[i] == start[found[i]] by {
        assert(keys.to_multiset().count(keys[i]) > 0);
        assert(start.contains(keys[i]));
    }
    start.lemma_multiset_has_no_duplicates();
    keys.lemma_multiset_has_no_duplicates_conv();
    assert(found.no_duplicates());
    let all = positions(n);
    assert forall|p: int| found.contains(p) <==> all.contains(p) by {
        if found.contains(p) {
            assert(all[p] == p);
        }
        if all.contains(p) {
            assert(start.to_multiset().count(start[p]) > 0);
            let i = choose|i: int| 0 <= i < keys.len() && keys[i] == start[p];
            assert(found[i] == p);
        }
    }
    lemma_same_elements_same_multiset(found, all);
    all.lemma_sort_by_ensures(row_order(rows));
    assert(sorted_by(found, row_order(rows)));
    lemma_sorted_unique(found, display_order(rows), row_order(rows));
    assert forall|i: int| 0 <= i < keys.len() implies (#[trigger] keys[i]).1 < rows.len() by {
        assert(0 <= found[i] < n);
    }
}

} // verus!
