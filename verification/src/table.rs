//! The process table: the rows on display and an index from process
//! identity to row position, kept in step with each other.

use crate::keys::sort_keys;
use crate::order::{
    display_order, keys_of, lemma_display_order_is_stable_descending,
    lemma_display_order_permutes, lemma_sorted_keys_give_display_order, positions, row_order,
    sorted_rows,
};
use crate::record::{distinct_identities, ProcessRecord};
use std::collections::HashMap;
use vstd::prelude::*;
use vstd::relations::sorted_by;
use vstd::seq_lib::lemma_sorted_unique;

verus! {

/// The index of `rows`: every identity that occurs in `rows`, mapped to
/// the position of the row that carries it. Should an identity occur more
/// than once, the last of its rows counts.
pub open spec fn position_index(rows: Seq<ProcessRecord>) -> Map<u32, usize>
    decreases rows.len(),
{
    if rows.len() == 0 {
        Map::empty()
    } else {
        position_index(rows.drop_last()).insert(rows.last().identity, (rows.len() - 1) as usize)
    }
}

/// What a table holds: its rows in display order and its index.
pub struct TableView {
    pub rows: Seq<ProcessRecord>,
    pub index: Map<u32, usize>,
}

impl TableView {
    /// The index is the index of the rows.
    pub open spec fn consistent(self) -> bool {
        self.index == position_index(self.rows)
    }

    /// The table after `records` arrived: the rows are replaced by the
    /// records as they came, and the index is built anew from them.
    /// Nothing of the table before remains.
    pub open spec fn after_snapshot(self, records: Seq<ProcessRecord>) -> TableView {
        TableView { rows: records, index: position_index(records) }
    }

    /// The table after a sort: the same rows in display order, and the
    /// index built anew from them.
    pub open spec fn after_resort(self) -> TableView {
        TableView { rows: sorted_rows(self.rows), index: position_index(sorted_rows(self.rows)) }
    }
}

/// Every entry of the index points at a row that carries the entry's
/// identity, and every identity of a row has an entry.
pub proof fn lemma_index_points_at_rows(rows: Seq<ProcessRecord>)
    requires
        rows.len() <= usize::MAX,
    ensures
        forall|k: u32| #[trigger]
            position_index(rows).contains_key(k) ==> position_index(rows)[k] < rows.len()
                && rows[position_index(rows)[k] as int].identity == k,
        forall|i: int|
            0 <= i < rows.len() ==> position_index(rows).contains_key(
                (#[trigger] rows[i]).identity,
            ),
    decreases rows.len(),
{
    if rows.len() > 0 {
        let earlier = rows.drop_last();
        lemma_index_points_at_rows(earlier);
        assert forall|i: int| 0 <= i < rows.len() implies position_index(rows).contains_key(
            (#[trigger] rows[i]).identity,
        ) by {
            if i < rows.len() - 1 {
                assert(earlier[i] == rows[i]);
            }
        }
        assert forall|k: u32| #[trigger] position_index(rows).contains_key(k) implies
            position_index(rows)[k] < rows.len()
                && rows[position_index(rows)[k] as int].identity == k by {
            if k != rows.last().identity {
                let p = position_index(earlier)[k] as int;
                assert(earlier[p] == rows[p]);
            }
        }
    }
}

/// Where no two rows share an identity, the index is exactly the inverse
/// of the rows' positions: the identity of the row at position `i` is
/// mapped to `i`, and the index has as many entries as there are rows.
pub proof fn lemma_index_is_inverse(rows: Seq<ProcessRecord>)
    requires
        rows.len() <= usize::MAX,
        distinct_identities(rows),
    ensures
        forall|i: int|
            0 <= i < rows.len() ==> position_index(rows).contains_key(
                (#[trigger] rows[i]).identity,
            ) && position_index(rows)[rows[i].identity] == i,
        position_index(rows).dom().finite(),
        position_index(rows).dom().len() == rows.len(),
    decreases rows.len(),
{
    if rows.len() > 0 {
        let earlier = rows.drop_last();
        assert(distinct_identities(earlier));
        lemma_index_is_inverse(earlier);
        lemma_index_points_at_rows(earlier);
        assert(!position_index(earlier).contains_key(rows.last().identity));
        assert forall|i: int| 0 <= i < rows.len() implies position_index(rows).contains_key(
            (#[trigger] rows[i]).identity,
        ) && position_index(rows)[rows[i].identity] == i by {
            if i < rows.len() - 1 {
                assert(earlier[i] == rows[i]);
            }
        }
    }
}

/// The index never has more entries than there are rows, and it has as
/// many exactly when no two rows share an identity.
pub proof fn lemma_index_size(rows: Seq<ProcessRecord>)
    requires
        rows.len() <= usize::MAX,
    ensures
        position_index(rows).dom().finite(),
        position_index(rows).dom().len() <= rows.len(),
        position_index(rows).dom().len() == rows.len() <==> distinct_identities(rows),
    decreases rows.len(),
{
    if rows.len() > 0 {
        let earlier = rows.drop_last();
        let last = rows.last().identity;
        lemma_index_size(earlier);
        lemma_index_points_at_rows(earlier);
        if position_index(earlier).contains_key(last) {
            // An earlier row carries the last row's identity.
            assert(!distinct_identities(rows));
        } else if distinct_identities(earlier) {
            assert forall|i: int, j: int| 0 <= i < j < rows.len() implies
                (#[trigger] rows[i]).identity != (#[trigger] rows[j]).identity by {
                assert(earlier[i] == rows[i]);
                if j < rows.len() - 1 {
                    assert(earlier[j] == rows[j]);
                }
            }
        } else {
            assert(!distinct_identities(rows));
        }
    }
}

/// Applying the same snapshot a second time leaves rows and index as the
/// first application left them.
pub proof fn lemma_apply_snapshot_is_idempotent(table: TableView, records: Seq<ProcessRecord>)
    ensures
        table.after_snapshot(records).after_snapshot(records) == table.after_snapshot(records),
        table.after_snapshot(records).consistent(),
{
}

/// Rows in display order are shown in that same order: sorting a second
/// time changes nothing.
pub proof fn lemma_resort_is_idempotent(table: TableView)
    ensures
        table.after_resort().after_resort() == table.after_resort(),
        table.after_resort().consistent(),
{
    let rows = sorted_rows(table.rows);
    let n = rows.len();
    lemma_display_order_permutes(table.rows);
    lemma_display_order_is_stable_descending(table.rows);
    let all = positions(n);
    all.lemma_sort_by_ensures(row_order(rows));
    assert(sorted_by(all, row_order(rows)));
    lemma_sorted_unique(all, display_order(rows), row_order(rows));
    assert(sorted_rows(rows) =~= rows);
}

/// Sorting keeps identities apart: rows that share no identity share none
/// in display order either.
pub proof fn lemma_sorted_rows_keep_identities_distinct(rows: Seq<ProcessRecord>)
    requires
        distinct_identities(rows),
    ensures
        distinct_identities(sorted_rows(rows)),
{
    lemma_display_order_permutes(rows);
    let order = display_order(rows);
    assert forall|i: int, j: int| 0 <= i < j < sorted_rows(rows).len() implies
        (#[trigger] sorted_rows(rows)[i]).identity
            != (#[trigger] sorted_rows(rows)[j]).identity by {
        // Two different positions of `rows`, in one order or the other.
        assert(order[i] < order[j] || order[j] < order[i]);
    }
}

/// The rows on display together with the index that finds a row by the
/// identity of its process.
pub struct ProcessTable {
    rows: Vec<ProcessRecord>,
    index_of: HashMap<u32, usize>,
}

impl View for ProcessTable {
    type V = TableView;

    closed spec fn view(&self) -> TableView {
        TableView { rows: self.rows@, index: self.index_of@ }
    }
}

/// Builds the index of `rows` from nothing, row by row.
fn build_index(rows: &Vec<ProcessRecord>) -> (index: HashMap<u32, usize>)
    ensures
        index@ == position_index(rows@),
{
    broadcast use vstd::std_specs::hash::group_hash_axioms;

    let mut index: HashMap<u32, usize> = HashMap::new();
    let mut i: usize = 0;
    while i < rows.len()
        invariant
            i <= rows@.len(),
            index@ == position_index(rows@.take(i as int)),
        decreases rows@.len() - i,
    {
        index.insert(rows[i].identity, i);
        assert(rows@.take(i + 1).drop_last() =~= rows@.take(i as int));
        i += 1;
    }
    assert(rows@.take(i as int) =~= rows@);
    index
}

impl ProcessTable {
    /// The index is the index of the rows.
    pub open spec fn wf(&self) -> bool {
        self@.consistent()
    }

    /// A table without rows.
    pub fn new() -> (table: Self)
        ensures
            table.wf(),
            table@.rows == Seq::<ProcessRecord>::empty(),
            table@.index == Map::<u32, usize>::empty(),
    {
        ProcessTable { rows: Vec::new(), index_of: HashMap::new() }
    }

    /// Replaces the rows by `records`, in the order given, and builds the
    /// index anew from them.
    pub fn apply_snapshot(&mut self, records: Vec<ProcessRecord>)
        ensures
            final(self).wf(),
            final(self)@ == old(self)@.after_snapshot(records@),
            distinct_identities(records@) ==> final(self)@.index.dom().len() == records@.len()
                && forall|i: int|
                0 <= i < records@.len() ==> final(self)@.index.contains_key(
                    (#[trigger] records@[i]).identity,
                ) && final(self)@.index[records@[i].identity] == i,
    {
        proof {
            assert(records@.len() == records.len());
            if distinct_identities(records@) {
                lemma_index_is_inverse(records@);
            }
        }
        let index = build_index(&records);
        self.rows = records;
        self.index_of = index;
    }

    /// Puts the rows in display order, highest CPU usage first and rows of
    /// equal usage in the order they had, and builds the index anew.
    pub fn resort(&mut self)
        ensures
            final(self).wf(),
            final(self)@ == old(self)@.after_resort(),
            final(self)@.rows.len() == old(self)@.rows.len(),
            forall|i: int|
                0 <= i < final(self)@.rows.len() ==> #[trigger] final(self)@.rows[i]
                    == old(self)@.rows[display_order(old(self)@.rows)[i]],
            forall|i: int, j: int|
                0 <= i < j < final(self)@.rows.len()
                    ==> (#[trigger] final(self)@.rows[i]).cpu_percent
                    >= (#[trigger] final(self)@.rows[j]).cpu_percent,
            forall|i: int, j: int|
                0 <= i < j < final(self)@.rows.len()
                    && final(self)@.rows[i].cpu_percent == final(self)@.rows[j].cpu_percent
                    ==> #[trigger] display_order(old(self)@.rows)[i]
                    < #[trigger] display_order(old(self)@.rows)[j],
    {
        proof {
            lemma_display_order_is_stable_descending(self.rows@);
        }
        let n = self.rows.len();
        let mut keys: Vec<(u32, usize)> = Vec::new();
        let mut i: usize = 0;
        while i < n
            invariant
                n == self.rows@.len(),
                i <= n,
                self.rows@ == old(self).rows@,
                keys@ == keys_of(self.rows@).take(i as int),
            decreases n - i,
        {
            keys.push((self.rows[i].cpu_percent, i));
            assert(keys_of(self.rows@).take(i + 1) =~= keys_of(self.rows@).take(i as int).push(
                (self.rows@[i as int].cpu_percent, i),
            ));
            i += 1;
        }
        assert(keys@ =~= keys_of(self.rows@));
        sort_keys(&mut keys);
        proof {
            lemma_sorted_keys_give_display_order(self.rows@, keys@);
        }
        let ghost order = display_order(self.rows@);
        let mut sorted: Vec<ProcessRecord> = Vec::new();
        let mut i: usize = 0;
        while i < n
            invariant
                n == self.rows@.len(),
                n == keys@.len(),
                i <= n,
                self.rows@ == old(self).rows@,
                order == display_order(self.rows@),
                order == keys@.map_values(|k: (u32, usize)| k.1 as int),
                forall|j: int| 0 <= j < n ==> (#[trigger] keys@[j]).1 < n,
                sorted@ == sorted_rows(self.rows@).take(i as int),
            decreases n - i,
        {
            let position = keys[i].1;
            sorted.push(self.rows[position].clone());
            assert(sorted_rows(self.rows@).take(i + 1) =~= sorted_rows(self.rows@).take(
                i as int,
            ).push(self.rows@[position as int]));
            i += 1;
        }
        assert(sorted@ =~= sorted_rows(self.rows@));
        let index = build_index(&sorted);
        self.rows = sorted;
        self.index_of = index;
    }

    /// The rows, in the order they are shown.
    pub fn rows(&self) -> (rows: &Vec<ProcessRecord>)
        ensures
            rows@ == self@.rows,
    {
        &self.rows
    }

    /// The number of rows.
    pub fn len(&self) -> (len: usize)
        ensures
            len == self@.rows.len(),
    {
        self.rows.len()
    }

    /// Whether no two rows share an identity, so that the index is exactly
    /// the inverse of the rows' positions.
    pub fn has_distinct_identities(&self) -> (distinct: bool)
        requires
            self.wf(),
        ensures
            distinct == distinct_identities(self@.rows),
    {
        broadcast use vstd::std_specs::hash::group_hash_axioms;

        proof {
            assert(self.rows@.len() == self.rows.len());
            lemma_index_size(self.rows@);
        }
        self.index_of.len() == self.rows.len()
    }

    /// The position of the row that carries `identity`, if there is one.
    pub fn position(&self, identity: u32) -> (found: Option<usize>)
        requires
            self.wf(),
        ensures
            found == if self@.index.contains_key(identity) {
                Some(self@.index[identity])
            } else {
                None
            },
            found matches Some(i) ==> i < self@.rows.len() && self@.rows[i as int].identity
                == identity,
            found is None ==> forall|i: int|
                0 <= i < self@.rows.len() ==> (#[trigger] self@.rows[i]).identity != identity,
    {
        broadcast use vstd::std_specs::hash::group_hash_axioms;

        proof {
            assert(self.rows@.len() == self.rows.len());
            lemma_index_points_at_rows(self.rows@);
        }
        match self.index_of.get(&identity) {
            Some(position) => Some(*position),
            None => None,
        }
    }
}

} // verus!
