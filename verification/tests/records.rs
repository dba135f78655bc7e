use procdash::record::{
    whole_percent, ProcessRecord, Snapshot, BYTES_PER_MEGABYTE, CPU_UNITS_PER_PERCENT,
};
use procdash::status::{CollectorState, ProcessStatus};

#[test]
fn the_four_shown_states_map_to_themselves() {
    assert_eq!(ProcessStatus::from_collector(CollectorState::Run), ProcessStatus::Running);
    assert_eq!(ProcessStatus::from_collector(CollectorState::Sleep), ProcessStatus::Sleeping);
    assert_eq!(ProcessStatus::from_collector(CollectorState::Stop), ProcessStatus::Stopped);
    assert_eq!(ProcessStatus::from_collector(CollectorState::Zombie), ProcessStatus::Zombie);
}

#[test]
fn every_other_state_is_shown_as_running() {
    let others = [
        CollectorState::Idle,
        CollectorState::Tracing,
        CollectorState::Dead,
        CollectorState::Wakekill,
        CollectorState::Waking,
        CollectorState::Parked,
        CollectorState::LockBlocked,
        CollectorState::UninterruptibleDiskSleep,
        CollectorState::Suspended,
        CollectorState::Unknown(0),
        CollectorState::Unknown(u32::MAX),
    ];
    for state in others {
        assert_eq!(ProcessStatus::from_collector(state), ProcessStatus::Running);
    }
}

#[test]
fn status_names_are_the_displayed_labels() {
    assert_eq!(format!("{:?}", ProcessStatus::Running), "Running");
    assert_eq!(format!("{:?}", ProcessStatus::Sleeping), "Sleeping");
    assert_eq!(format!("{:?}", ProcessStatus::Stopped), "Stopped");
    assert_eq!(format!("{:?}", ProcessStatus::Zombie), "Zombie");
}

#[test]
fn new_record_keeps_what_the_collector_reported() {
    let record =
        ProcessRecord::new(42, String::from("init"), 1250, 3_000_000, CollectorState::Sleep);
    assert_eq!(record.identity, 42);
    assert_eq!(record.name, "init");
    assert_eq!(record.cpu_percent, 1250);
    assert_eq!(record.memory_bytes, 3_000_000);
    assert_eq!(record.status, ProcessStatus::Sleeping);
}

#[test]
fn new_record_with_unrecognised_state_is_running() {
    let record = ProcessRecord::new(1, String::new(), 0, 0, CollectorState::Unknown(77));
    assert_eq!(record.status, ProcessStatus::Running);
}

#[test]
fn cpu_above_one_hundred_percent_is_kept() {
    let record = ProcessRecord::new(1, String::from("busy"), 35_000, 0, CollectorState::Run);
    assert_eq!(record.cpu_percent, 35_000);
    assert_eq!(record.cpu_percent / CPU_UNITS_PER_PERCENT, 350);
}

#[test]
fn memory_megabytes_rounds_down() {
    let mut record = ProcessRecord::new(1, String::new(), 0, 0, CollectorState::Run);
    assert_eq!(record.memory_megabytes(), 0);
    record.memory_bytes = 1_048_575;
    assert_eq!(record.memory_megabytes(), 0);
    record.memory_bytes = 1_048_576;
    assert_eq!(record.memory_megabytes(), 1);
    record.memory_bytes = 5 * 1_048_576 + 17;
    assert_eq!(record.memory_megabytes(), 5);
    record.memory_bytes = u64::MAX;
    assert_eq!(record.memory_megabytes(), 17_592_186_044_415);
    assert_eq!(BYTES_PER_MEGABYTE, 1024 * 1024);
}

#[test]
fn clone_copies_every_field() {
    let record = ProcessRecord::new(9, String::from("editor"), 77, 123_456, CollectorState::Stop);
    let copy = record.clone();
    assert_eq!(copy, record);
    assert_eq!(copy.name, "editor");
    assert_eq!(copy.status, ProcessStatus::Stopped);
}

#[test]
fn snapshot_holds_records_and_totals() {
    let snapshot = Snapshot {
        records: vec![ProcessRecord::new(1, String::from("a"), 10, 20, CollectorState::Run)],
        overall_cpu_percent: 2500,
        used_memory_bytes: 4096,
    };
    assert_eq!(snapshot.records.len(), 1);
    assert_eq!(snapshot.overall_cpu_percent, 2500);
    assert_eq!(snapshot.used_memory_bytes, 4096);
}

#[test]
fn whole_percent_rounds_down() {
    assert_eq!(CPU_UNITS_PER_PERCENT, 100);
    assert_eq!(whole_percent(0), 0);
    assert_eq!(whole_percent(99), 0);
    assert_eq!(whole_percent(100), 1);
    assert_eq!(whole_percent(4_250), 42);
    assert_eq!(whole_percent(35_099), 350);
    assert_eq!(whole_percent(u32::MAX), 42_949_672);
}
