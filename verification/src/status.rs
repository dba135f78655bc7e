//! Process run states: what the collector reports and what the table shows.

use vstd::prelude::*;

verus! {

/// The run state of a process, as the dashboard shows it.
#[derive(Clone, Copy, Debug, PartialEq, Eq, Structural)]
pub enum ProcessStatus {
    Running,
    Sleeping,
    Stopped,
    Zombie,
}

/// The run state of a process, as a collector reports it. Collectors know
/// more states than the dashboard tells apart.
#[derive(Clone, Copy, Debug, PartialEq, Eq, Structural)]
pub enum CollectorState {
    Idle,
    Run,
    Sleep,
    Stop,
    Zombie,
    Tracing,
    Dead,
    Wakekill,
    Waking,
    Parked,
    LockBlocked,
    UninterruptibleDiskSleep,
    Suspended,
    /// A state the collector could not name, with its raw code.
    Unknown(u32),
}

impl ProcessStatus {
    /// The status shown for a collector state. The four states that the
    /// dashboard tells apart map to themselves; every other state is shown
    /// as `Running`.
    pub open spec fn of(state: CollectorState) -> ProcessStatus {
        match state {
            CollectorState::Run => ProcessStatus::Running,
            CollectorState::Sleep => ProcessStatus::Sleeping,
            CollectorState::Stop => ProcessStatus::Stopped,
            CollectorState::Zombie => ProcessStatus::Zombie,
            _ => ProcessStatus::Running,
        }
    }

    /// Maps a collector state to the status shown for it.
    pub fn from_collector(state: CollectorState) -> (status: ProcessStatus)
        ensures
            status == Self::of(state),
    {
        match state {
            CollectorState::Run => ProcessStatus::Running,
            CollectorState::Sleep => ProcessStatus::Sleeping,
            CollectorState::Stop => ProcessStatus::Stopped,
            CollectorState::Zombie => ProcessStatus::Zombie,
            _ => ProcessStatus::Running,
        }
    }
}

} // verus!
