//! The dashboard's state: the process table, the two history series, the
//! latest totals, and when data and order were last renewed.

use crate::history::{pushed, HistoryBuffer};
use crate::record::{ProcessRecord, Snapshot};
use crate::table::{ProcessTable, TableView};
use vstd::prelude::*;

verus! {

/// The number of samples each history series keeps.
pub const HISTORY_CAPACITY: usize = 100;

/// What the dashboard holds.
pub struct AppView {
    /// Rows and index of the process table.
    pub table: TableView,
    /// Overall CPU usage at the latest snapshots, oldest first.
    pub cpu_history: Seq<u32>,
    /// Memory in use at the latest snapshots, oldest first.
    pub mem_history: Seq<u64>,
    /// Overall CPU usage at the latest snapshot.
    pub cpu_percent: u32,
    /// Memory in use at the latest snapshot, in bytes.
    pub used_memory: u64,
    /// When the latest snapshot was applied, if any was.
    pub last_refresh: Option<u64>,
    /// When the rows were last sorted, if they ever were.
    pub last_sort: Option<u64>,
}

impl AppView {
    /// The dashboard before the first snapshot.
    pub open spec fn initial() -> AppView {
        AppView {
            table: TableView { rows: Seq::empty(), index: Map::empty() },
            cpu_history: Seq::empty(),
            mem_history: Seq::empty(),
            cpu_percent: 0,
            used_memory: 0,
            last_refresh: None,
            last_sort: None,
        }
    }

    /// The dashboard after `snapshot` was applied at time `now`: the table
    /// holds the snapshot's records, each series has the snapshot's total
    /// as its newest sample, and the order of the rows is as old as it
    /// was.
    pub open spec fn after_snapshot(self, snapshot: Snapshot, now: u64) -> AppView {
        AppView {
            table: self.table.after_snapshot(snapshot.records@),
            cpu_history: pushed(
                self.cpu_history,
                HISTORY_CAPACITY as nat,
                snapshot.overall_cpu_percent,
            ),
            mem_history: pushed(
                self.mem_history,
                HISTORY_CAPACITY as nat,
                snapshot.used_memory_bytes,
            ),
            cpu_percent: snapshot.overall_cpu_percent,
            used_memory: snapshot.used_memory_bytes,
            last_refresh: Some(now),
            last_sort: self.last_sort,
        }
    }

    /// The dashboard after its rows were sorted at time `now`.
    pub open spec fn after_resort(self, now: u64) -> AppView {
        AppView { table: self.table.after_resort(), last_sort: Some(now), ..self }
    }

    /// The table's index fits its rows and neither series is longer than
    /// the history capacity.
    pub open spec fn valid(self) -> bool {
        &&& self.table.consistent()
        &&& self.cpu_history.len() <= HISTORY_CAPACITY
        &&& self.mem_history.len() <= HISTORY_CAPACITY
    }
}

/// The state of the dashboard. One owner updates it; whoever draws it only
/// reads.
pub struct App {
    table: ProcessTable,
    cpu_history: HistoryBuffer<u32>,
    mem_history: HistoryBuffer<u64>,
    cpu_percent: u32,
    used_memory: u64,
    last_refresh: Option<u64>,
    last_sort: Option<u64>,
}

impl View for App {
    type V = AppView;

    closed spec fn view(&self) -> AppView {
        AppView {
            table: self.table@,
            cpu_history: self.cpu_history@,
            mem_history: self.mem_history@,
            cpu_percent: self.cpu_percent,
            used_memory: self.used_memory,
            last_refresh: self.last_refresh,
            last_sort: self.last_sort,
        }
    }
}

impl App {
    /// The parts of the dashboard are well formed and both series have the
    /// history capacity.
    pub closed spec fn wf(&self) -> bool {
        &&& self.table.wf()
        &&& self.cpu_history.wf()
        &&& self.mem_history.wf()
        &&& self.cpu_history.capacity() == HISTORY_CAPACITY
        &&& self.mem_history.capacity() == HISTORY_CAPACITY
    }

    /// A well-formed dashboard holds a valid state.
    pub proof fn lemma_wf_is_valid(&self)
        requires
            self.wf(),
        ensures
            self@.valid(),
    {
        self.cpu_history.lemma_wf_bounds();
        self.mem_history.lemma_wf_bounds();
    }

    /// The dashboard before the first snapshot: no rows, no samples.
    pub fn new() -> (app: Self)
        ensures
            app.wf(),
            app@ == AppView::initial(),
    {
        App {
            table: ProcessTable::new(),
            cpu_history: HistoryBuffer::new(HISTORY_CAPACITY),
            mem_history: HistoryBuffer::new(HISTORY_CAPACITY),
            cpu_percent: 0,
            used_memory: 0,
            last_refresh: None,
            last_sort: None,
        }
    }

    /// Takes in a snapshot at time `now`: its records replace the rows,
    /// its totals become the latest totals and the newest samples of the
    /// two series.
    pub fn apply_snapshot(&mut self, snapshot: Snapshot, now: u64)
        requires
            old(self).wf(),
        ensures
            final(self).wf(),
            final(self)@ == old(self)@.after_snapshot(snapshot, now),
    {
        let Snapshot { records, overall_cpu_percent, used_memory_bytes } = snapshot;
        self.table.apply_snapshot(records);
        self.cpu_history.push(overall_cpu_percent);
        self.mem_history.push(used_memory_bytes);
        self.cpu_percent = overall_cpu_percent;
        self.used_memory = used_memory_bytes;
        self.last_refresh = Some(now);
    }

    /// Puts the rows in display order at time `now`.
    pub fn resort(&mut self, now: u64)
        requires
            old(self).wf(),
        ensures
            final(self).wf(),
            final(self)@ == old(self)@.after_resort(now),
    {
        self.table.resort();
        self.last_sort = Some(now);
    }

    /// The process table.
    pub fn table(&self) -> (table: &ProcessTable)
        ensures
            table@ == self@.table,
            self.wf() ==> table.wf(),
    {
        &self.table
    }

    /// The rows, in the order they are shown.
    pub fn rows(&self) -> (rows: &Vec<ProcessRecord>)
        ensures
            rows@ == self@.table.rows,
    {
        self.table.rows()
    }

    /// Overall CPU usage at the latest snapshots, oldest first.
    pub fn cpu_history(&self) -> (samples: Vec<u32>)
        ensures
            samples@ == self@.cpu_history,
    {
        self.cpu_history.values()
    }

    /// Memory in use at the latest snapshots, oldest first.
    pub fn mem_history(&self) -> (samples: Vec<u64>)
        ensures
            samples@ == self@.mem_history,
    {
        self.mem_history.values()
    }

    /// Overall CPU usage at the latest snapshot.
    pub fn cpu_percent(&self) -> (cpu: u32)
        ensures
            cpu == self@.cpu_percent,
    {
        self.cpu_percent
    }

    /// Memory in use at the latest snapshot, in bytes.
    pub fn used_memory(&self) -> (bytes: u64)
        ensures
            bytes == self@.used_memory,
    {
        self.used_memory
    }

    /// When the latest snapshot was applied, if any was.
    pub fn last_refresh(&self) -> (time: Option<u64>)
        ensures
            time == self@.last_refresh,
    {
        self.last_refresh
    }

    /// When the rows were last sorted, if they ever were.
    pub fn last_sort(&self) -> (time: Option<u64>)
        ensures
            time == self@.last_sort,
    {
        self.last_sort
    }
}

} // verus!
