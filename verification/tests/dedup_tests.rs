use config_signal::dedup::{Deduplicator, FileMetadata};

const T1: i128 = 1_700_000_000_000_000_000;
const T2: i128 = 1_700_000_001_500_000_000;

#[test]
fn same_stat_twice_then_another() {
    let mut dedup = Deduplicator::new(None);
    let a = FileMetadata { size: 10, modified: T1 };
    let b = FileMetadata { size: 20, modified: T2 };
    assert!(dedup.should_process(Some(a)));
    assert!(!dedup.should_process(Some(a)));
    assert!(dedup.should_process(Some(b)));
    assert_eq!(dedup.last, Some(b));
}

#[test]
fn process_all_answers_each_stat_in_turn() {
    let mut dedup = Deduplicator::new(None);
    let a = FileMetadata { size: 10, modified: T1 };
    let b = FileMetadata { size: 20, modified: T2 };
    let answers = dedup.process_all(&vec![Some(a), Some(a), Some(b)]);
    assert_eq!(answers, vec![true, false, true]);
    assert_eq!(dedup.last, Some(b));
    let none: Vec<bool> = Vec::new();
    assert_eq!(dedup.process_all(&Vec::new()), none);
    assert_eq!(dedup.last, Some(b));
}

#[test]
fn a_failed_stat_is_no_change_and_is_not_remembered() {
    let a = FileMetadata { size: 10, modified: T1 };
    let mut dedup = Deduplicator::new(Some(a));
    assert!(!dedup.should_process(None));
    assert_eq!(dedup.last, Some(a));
    let mut empty = Deduplicator::new(None);
    assert!(!empty.should_process(None));
    assert_eq!(empty.last, None);
    assert!(empty.should_process(Some(a)));
}

#[test]
fn the_baseline_is_no_change() {
    let a = FileMetadata { size: 0, modified: T1 };
    let mut dedup = Deduplicator::new(Some(a));
    assert!(!dedup.should_process(Some(a)));
}

#[test]
fn either_field_alone_makes_a_change() {
    let a = FileMetadata { size: 10, modified: T1 };
    let mut dedup = Deduplicator::new(Some(a));
    assert!(dedup.should_process(Some(FileMetadata { size: 11, modified: T1 })));
    assert!(dedup.should_process(Some(FileMetadata { size: 11, modified: T1 + 1 })));
    assert!(!dedup.should_process(Some(FileMetadata { size: 11, modified: T1 + 1 })));
    assert!(dedup.should_process(Some(FileMetadata { size: 11, modified: -5 })));
}

#[test]
fn going_back_to_an_earlier_stat_is_a_change() {
    let a = FileMetadata { size: 10, modified: T1 };
    let b = FileMetadata { size: 0, modified: T2 };
    let mut dedup = Deduplicator::new(None);
    assert_eq!(
        dedup.process_all(&vec![Some(a), Some(b), None, Some(a), Some(a)]),
        vec![true, true, false, true, false]
    );
}
