use pokeemerald_rs::game_save::{
    counter_is_ahead, BootRead, DiskState, SaveFileStatus, SaveLineage, SaveSlot, SaveSlotError,
    SaveStatus, StoreDecision, StoreOutcome, SERIAL_COUNTER_HALF_RANGE,
};

/// A stand-in file handle: the slot only ever holds it.
#[derive(Debug, Clone, Copy, PartialEq, Eq)]
struct File(u8);

/// A stand-in for the retained base bytes of a store.
#[derive(Debug, Clone, PartialEq, Eq)]
struct Base(Vec<u8>);

fn loaded_slot(status: SaveStatus, counter: u32) -> SaveSlot<File, Base> {
    let mut slot = SaveSlot::at(File(1));
    slot.load(BootRead::Loaded {
        status,
        counter,
        base: Base(vec![0x5A]),
    });
    slot
}

fn disk(status: SaveStatus, counter: u32) -> DiskState {
    DiskState { status, counter }
}

#[test]
fn only_ok_and_error_offer_continue() {
    assert!(SaveFileStatus::Intact.menu_shows_continue());
    assert!(SaveFileStatus::Error.menu_shows_continue());
    assert!(!SaveFileStatus::Corrupt.menu_shows_continue());
    assert!(!SaveFileStatus::Empty.menu_shows_continue());
    assert!(!SaveFileStatus::NoFlash.menu_shows_continue());
}

#[test]
fn store_statuses_map_to_their_boot_statuses() {
    assert_eq!(SaveFileStatus::from_store(SaveStatus::Empty), SaveFileStatus::Empty);
    assert_eq!(SaveFileStatus::from_store(SaveStatus::Intact), SaveFileStatus::Intact);
    assert_eq!(SaveFileStatus::from_store(SaveStatus::Corrupt), SaveFileStatus::Corrupt);
    assert_eq!(SaveFileStatus::from_store(SaveStatus::Error), SaveFileStatus::Error);
}

#[test]
fn a_slot_with_no_file_loads_as_empty_not_as_an_error() {
    let mut slot: SaveSlot<File, Base> = SaveSlot::at(File(1));
    let status = slot.load(BootRead::Loaded {
        status: SaveStatus::Empty,
        counter: 0,
        base: Base(Vec::new()),
    });
    assert_eq!(status, SaveFileStatus::Empty);
    assert!(!status.menu_shows_continue());
    assert_eq!(slot.file(), Some(&File(1)));
}

#[test]
fn a_slot_with_no_resolvable_path_loads_as_no_flash() {
    let mut slot: SaveSlot<File, Base> = SaveSlot::disabled();
    let status = slot.load(BootRead::NoFile);
    assert_eq!(status, SaveFileStatus::NoFlash);
    assert!(!status.menu_shows_continue());
    assert_eq!(slot.boot_status(), SaveFileStatus::NoFlash);
}

#[test]
fn the_boot_status_is_empty_before_the_first_load() {
    let slot: SaveSlot<File, Base> = SaveSlot::at(File(1));
    assert_eq!(slot.boot_status(), SaveFileStatus::Empty);
    assert_eq!(slot.session_base(), None);
}

#[test]
fn a_failed_boot_read_disables_saving_even_after_the_medium_recovers() {
    let mut slot: SaveSlot<File, Base> = SaveSlot::at(File(1));
    assert_eq!(slot.load(BootRead::ReadFailed), SaveFileStatus::NoFlash);
    assert_eq!(slot.file(), None, "a failed boot read disables saving");
    assert_eq!(slot.boot_status(), SaveFileStatus::NoFlash);
    assert_eq!(slot.load(BootRead::NoFile), SaveFileStatus::NoFlash);
    assert_eq!(slot.file(), None);
    assert_eq!(slot.store_file(), Err(SaveSlotError::NoDataDirectory));
}

#[test]
fn a_disabled_slot_refuses_every_write_and_an_enabled_one_names_its_file() {
    let slot: SaveSlot<File, Base> = SaveSlot::disabled();
    assert_eq!(slot.store_file(), Err(SaveSlotError::NoDataDirectory));
    let slot: SaveSlot<File, Base> = SaveSlot::at(File(3));
    assert_eq!(slot.store_file(), Ok(&File(3)));
}

#[test]
fn a_loaded_slot_carries_its_counter_and_base_into_the_session() {
    let slot = loaded_slot(SaveStatus::Intact, 7);
    assert_eq!(slot.boot_status(), SaveFileStatus::Intact);
    assert_eq!(slot.session_base(), Some(&Base(vec![0x5A])));
}

#[test]
fn counter_is_ahead_orders_across_the_wrap_at_any_distance() {
    assert!(counter_is_ahead(3, 7));
    assert!(!counter_is_ahead(7, 3));
    assert!(!counter_is_ahead(5, 5));
    assert!(counter_is_ahead(u32::MAX, 0));
    assert!(counter_is_ahead(u32::MAX, 1));
    assert!(counter_is_ahead(u32::MAX - 1, 2));
    assert!(!counter_is_ahead(0, u32::MAX));
    assert!(!counter_is_ahead(1, u32::MAX));
    assert!(counter_is_ahead(0, SERIAL_COUNTER_HALF_RANGE - 1));
    assert!(!counter_is_ahead(0, SERIAL_COUNTER_HALF_RANGE));
}

#[test]
fn antipodal_counters_are_ordered_in_neither_direction() {
    assert!(!counter_is_ahead(10, 10 + SERIAL_COUNTER_HALF_RANGE));
    assert!(!counter_is_ahead(10 + SERIAL_COUNTER_HALF_RANGE, 10));
}

#[test]
fn a_stale_session_is_refused_even_across_the_counter_wrap() {
    let stale = loaded_slot(SaveStatus::Intact, u32::MAX);
    assert_eq!(
        stale.store_decision(disk(SaveStatus::Intact, 1), false, SaveLineage::Continued),
        StoreDecision::Refuse(StoreOutcome::RefusedStaleSession)
    );
}

#[test]
fn a_session_never_overwrites_progress_saved_after_its_own_load() {
    let session = loaded_slot(SaveStatus::Intact, 1);
    for lineage in [SaveLineage::Continued, SaveLineage::NewGame] {
        for refuse_foreign in [false, true] {
            assert_eq!(
                session.store_decision(disk(SaveStatus::Intact, 2), refuse_foreign, lineage),
                StoreDecision::Refuse(StoreOutcome::RefusedStaleSession)
            );
        }
    }
}

#[test]
fn a_damaged_newest_slot_does_not_refuse_the_sessions_exit_write() {
    let session = loaded_slot(SaveStatus::Intact, 1);
    assert_eq!(
        session.store_decision(disk(SaveStatus::Corrupt, 2), false, SaveLineage::Continued),
        StoreDecision::Write {
            restore_session_base: false,
            clear_base: false
        }
    );
}

#[test]
fn a_new_game_store_refuses_to_overwrite_a_continuable_save() {
    let session = loaded_slot(SaveStatus::Empty, 0);
    for status in [SaveStatus::Intact, SaveStatus::Error] {
        assert_eq!(
            session.store_decision(disk(status, 0), true, SaveLineage::NewGame),
            StoreDecision::Refuse(StoreOutcome::RefusedExistingSave)
        );
    }
}

#[test]
fn a_new_game_store_writes_over_nothing_and_over_a_corrupt_save() {
    let session = loaded_slot(SaveStatus::Empty, 0);
    for status in [SaveStatus::Empty, SaveStatus::Corrupt] {
        assert_eq!(
            session.store_decision(disk(status, 0), true, SaveLineage::NewGame),
            StoreDecision::Write {
                restore_session_base: false,
                clear_base: true
            }
        );
    }
}

#[test]
fn a_new_game_session_clears_the_base_on_an_ordinary_store_too() {
    let session = loaded_slot(SaveStatus::Intact, 4);
    assert_eq!(
        session.store_decision(disk(SaveStatus::Intact, 3), false, SaveLineage::NewGame),
        StoreDecision::Write {
            restore_session_base: false,
            clear_base: true
        }
    );
}

#[test]
fn healing_a_damaged_newest_slot_keeps_the_sessions_deferred_lineage() {
    // The disk's newest readable slot is older than this session's.
    let session = loaded_slot(SaveStatus::Intact, 5);
    assert_eq!(
        session.store_decision(disk(SaveStatus::Error, 4), false, SaveLineage::Continued),
        StoreDecision::Write {
            restore_session_base: true,
            clear_base: false
        }
    );
}

#[test]
fn a_slot_that_never_loaded_writes_without_restoring() {
    let slot: SaveSlot<File, Base> = SaveSlot::at(File(1));
    assert_eq!(
        slot.store_decision(disk(SaveStatus::Intact, 9), false, SaveLineage::Continued),
        StoreDecision::Write {
            restore_session_base: false,
            clear_base: false
        }
    );
}

#[test]
fn a_completed_write_becomes_the_sessions_lineage() {
    let mut slot = loaded_slot(SaveStatus::Intact, 1);
    slot.record_written(2, Base(vec![0x11]));
    assert_eq!(slot.session_base(), Some(&Base(vec![0x11])));
    // The disk at counter 2 is this session's own write, not newer progress.
    assert_eq!(
        slot.store_decision(disk(SaveStatus::Intact, 2), false, SaveLineage::Continued),
        StoreDecision::Write {
            restore_session_base: false,
            clear_base: false
        }
    );
}

#[test]
fn the_lineages_say_whether_the_base_is_cleared() {
    assert!(SaveLineage::NewGame.clears_base());
    assert!(!SaveLineage::Continued.clears_base());
}
