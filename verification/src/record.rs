//! Process records and snapshots, as a collector hands them over.

use crate::status::{CollectorState, ProcessStatus};
use vstd::prelude::*;

verus! {

/// The unit of CPU usage: a record's `cpu_percent` counts hundredths of a
/// percent, so this many units make one percent.
pub const CPU_UNITS_PER_PERCENT: u32 = 100;

/// The number of bytes in one megabyte of displayed memory.
pub const BYTES_PER_MEGABYTE: u64 = 1_048_576;

/// One process at the time of a snapshot.
#[derive(Debug, PartialEq, Eq)]
pub struct ProcessRecord {
    /// The identifier the operating system gave the process. Unique among
    /// the processes of one snapshot; the system may hand it out again
    /// once the process is gone.
    pub identity: u32,
    /// The name to display.
    pub name: String,
    /// CPU usage in hundredths of a percent. The table orders rows by it
    /// and never rescales it; on machines with several cores it may
    /// exceed one hundred percent.
    pub cpu_percent: u32,
    /// Resident memory in bytes.
    pub memory_bytes: u64,
    /// The run state to display.
    pub status: ProcessStatus,
}

impl Clone for ProcessRecord {
    fn clone(&self) -> (copy: Self)
        ensures
            copy == *self,
    {
        ProcessRecord {
            identity: self.identity,
            name: self.name.clone(),
            cpu_percent: self.cpu_percent,
            memory_bytes: self.memory_bytes,
            status: self.status,
        }
    }
}

impl ProcessRecord {
    /// The record of a process from what a collector reports of it. A
    /// state that the dashboard does not tell apart is shown as running.
    pub fn new(
        identity: u32,
        name: String,
        cpu_percent: u32,
        memory_bytes: u64,
        state: CollectorState,
    ) -> (record: Self)
        ensures
            record == (ProcessRecord {
                identity,
                name,
                cpu_percent,
                memory_bytes,
                status: ProcessStatus::of(state),
            }),
    {
        ProcessRecord {
            identity,
            name,
            cpu_percent,
            memory_bytes,
            status: ProcessStatus::from_collector(state),
        }
    }

    /// Resident memory in whole megabytes, rounded down.
    pub fn memory_megabytes(&self) -> (megabytes: u64)
        ensures
            megabytes == self.memory_bytes / BYTES_PER_MEGABYTE,
    {
        self.memory_bytes / BYTES_PER_MEGABYTE
    }
}

/// The whole percents in a CPU usage given in hundredths of a percent,
/// rounded down.
pub fn whole_percent(cpu_percent: u32) -> (percent: u32)
    ensures
        percent == cpu_percent / CPU_UNITS_PER_PERCENT,
{
    cpu_percent / CPU_UNITS_PER_PERCENT
}

/// One capture of all processes together with the machine-wide totals,
/// taken at about the same instant.
#[derive(Debug, PartialEq, Eq)]
pub struct Snapshot {
    /// The processes, in the order the collector listed them.
    pub records: Vec<ProcessRecord>,
    /// Overall CPU usage, in hundredths of a percent.
    pub overall_cpu_percent: u32,
    /// Memory in use, in bytes.
    pub used_memory_bytes: u64,
}

/// No two records of `rows` share an identity.
pub open spec fn distinct_identities(rows: Seq<ProcessRecord>) -> bool {
    forall|i: int, j: int|
        0 <= i < j < rows.len() ==> (#[trigger] rows[i]).identity != (#[trigger] rows[j]).identity
}

} // verus!
