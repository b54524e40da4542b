//! Change-tracked storage and event-window classification.

use game_physics::ecs::{ComponentEvent, TrackedStorage};
use game_physics::systems::{inserted_components, modified_components, removed_components};

#[test]
fn storage_insert_get_contains() {
    let mut s: TrackedStorage<u32> = TrackedStorage::new();
    assert!(!s.contains(3));
    s.insert(3, 77);
    assert!(s.contains(3));
    assert_eq!(s.get(3), Some(&77));
    assert_eq!(s.get(4), None);
    assert_eq!(s.events, vec![ComponentEvent::Inserted(3)]);
}

#[test]
fn storage_modify_logs_only_when_present() {
    let mut s: TrackedStorage<u32> = TrackedStorage::new();
    assert!(!s.modify(5, 1));
    assert!(s.events.is_empty());
    s.insert(5, 1);
    assert!(s.modify(5, 2));
    assert_eq!(s.get(5), Some(&2));
    assert_eq!(
        s.events,
        vec![ComponentEvent::Inserted(5), ComponentEvent::Modified(5)]
    );
}

#[test]
fn storage_remove_logs_only_when_present() {
    let mut s: TrackedStorage<u32> = TrackedStorage::new();
    assert!(!s.remove(9));
    s.insert(9, 4);
    assert!(s.remove(9));
    assert!(!s.contains(9));
    assert_eq!(
        s.events,
        vec![ComponentEvent::Inserted(9), ComponentEvent::Removed(9)]
    );
}

#[test]
fn reader_sees_inserted_ids_once() {
    let mut s: TrackedStorage<u32> = TrackedStorage::new();
    let mut reader = s.register_reader();
    s.insert(2, 0);
    s.insert(7, 0);
    let ins = inserted_components(&s, &mut reader);
    assert_eq!(ins.len(), 2);
    assert!(ins.contains(2));
    assert!(ins.contains(7));
    // The cursor advanced: a second read sees nothing.
    let again = inserted_components(&s, &mut reader);
    assert_eq!(again.len(), 0);
}

#[test]
fn insert_and_remove_same_window_surfaces_as_removed() {
    let mut s: TrackedStorage<u32> = TrackedStorage::new();
    let mut ins_reader = s.register_reader();
    let mut rem_reader = s.register_reader();
    s.insert(4, 0);
    s.remove(4);
    let ins = inserted_components(&s, &mut ins_reader);
    assert_eq!(ins.len(), 0);
    let rem = removed_components(&s, &mut rem_reader);
    assert_eq!(rem.len(), 1);
    assert!(rem.contains(4));
}

#[test]
fn remove_and_reinsert_same_window_surfaces_as_inserted() {
    let mut s: TrackedStorage<u32> = TrackedStorage::new();
    s.insert(4, 0);
    let mut ins_reader = s.register_reader();
    let mut rem_reader = s.register_reader();
    s.remove(4);
    s.insert(4, 1);
    let ins = inserted_components(&s, &mut ins_reader);
    assert!(ins.contains(4));
    let rem = removed_components(&s, &mut rem_reader);
    assert_eq!(rem.len(), 0);
}

#[test]
fn modified_excludes_ids_with_lifecycle_changes() {
    let mut s: TrackedStorage<u32> = TrackedStorage::new();
    s.insert(1, 0);
    s.insert(2, 0);
    let mut reader = s.register_reader();
    s.modify(1, 9);
    s.modify(2, 9);
    s.remove(2);
    s.insert(3, 0);
    s.modify(3, 9);
    let modified = modified_components(&s, &mut reader);
    // 1 was only modified; 2 was removed; 3 was inserted in this window.
    assert_eq!(modified.len(), 1);
    assert!(modified.contains(1));
    assert!(!modified.contains(2));
    assert!(!modified.contains(3));
}

#[test]
fn independent_readers_each_see_full_history() {
    let mut s: TrackedStorage<u32> = TrackedStorage::new();
    let mut r1 = s.register_reader();
    s.insert(6, 0);
    let ins1 = inserted_components(&s, &mut r1);
    assert!(ins1.contains(6));
    // A reader registered later starts at the current end of the log.
    let mut r2 = s.register_reader();
    let ins2 = inserted_components(&s, &mut r2);
    assert_eq!(ins2.len(), 0);
    s.insert(8, 0);
    let ins1b = inserted_components(&s, &mut r1);
    let ins2b = inserted_components(&s, &mut r2);
    assert!(ins1b.contains(8));
    assert!(ins2b.contains(8));
}

#[test]
fn inserted_ids_come_out_sorted() {
    let mut s: TrackedStorage<u32> = TrackedStorage::new();
    let mut reader = s.register_reader();
    s.insert(9, 0);
    s.insert(1, 0);
    s.insert(5, 0);
    let ins = inserted_components(&s, &mut reader);
    assert_eq!(ins.len(), 3);
    assert_eq!(ins.idx(0), 1);
    assert_eq!(ins.idx(1), 5);
    assert_eq!(ins.idx(2), 9);
}
