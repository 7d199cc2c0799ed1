use darc_renderer::runtime::tick::{ChangeRecord, TickLedger};

#[test]
fn a_tick_without_mutation_publishes_nothing() {
    let mut ledger = TickLedger::new(4);
    assert_eq!(ledger.primitive_types(), 4);
    assert!(ledger.end_tick().is_empty());
    assert!(ledger.end_tick().is_empty());
}

#[test]
fn each_changed_type_is_published_once_however_often_it_changed() {
    let mut ledger = TickLedger::new(5);
    for primitive_type in [3usize, 1, 3, 3, 1, 4, 1] {
        assert!(ledger.mark_changed(primitive_type));
    }
    assert_eq!(ledger.end_tick(), vec![1, 3, 4]);
}

#[test]
fn the_next_tick_starts_with_nothing_marked() {
    let mut ledger = TickLedger::new(3);
    ledger.mark_changed(0);
    ledger.mark_changed(2);
    assert_eq!(ledger.end_tick(), vec![0, 2]);
    assert!(ledger.end_tick().is_empty());
    ledger.mark_changed(1);
    assert_eq!(ledger.end_tick(), vec![1]);
    assert_eq!(ledger.primitive_types(), 3);
}

#[test]
fn an_unregistered_type_is_not_published() {
    let mut ledger = TickLedger::new(2);
    assert!(!ledger.mark_changed(2));
    assert!(!ledger.mark_changed(usize::MAX));
    assert!(ledger.mark_changed(1));
    assert_eq!(ledger.end_tick(), vec![1]);

    let mut empty = TickLedger::new(0);
    assert_eq!(empty.primitive_types(), 0);
    assert!(!empty.mark_changed(0));
    assert!(empty.end_tick().is_empty());
}

#[test]
fn every_type_can_change_in_one_tick() {
    let mut ledger = TickLedger::new(6);
    for primitive_type in (0..6).rev() {
        ledger.mark_changed(primitive_type);
    }
    assert_eq!(ledger.end_tick(), vec![0, 1, 2, 3, 4, 5]);
}

#[test]
fn ticks_are_counted_from_zero() {
    let mut ledger = TickLedger::new(1);
    assert_eq!(ledger.current_tick(), 0);
    ledger.mark_changed(0);
    assert_eq!(ledger.current_tick(), 0);
    ledger.end_tick();
    assert_eq!(ledger.current_tick(), 1);
    ledger.end_tick();
    ledger.end_tick();
    assert_eq!(ledger.current_tick(), 3);
}

#[test]
fn the_ledger_takes_over_what_the_items_recorded() {
    let mut ledger = TickLedger::new(3);
    let mut moved = ChangeRecord { position: true, rotation: false, scale: false };
    let mut scaled = ChangeRecord { position: false, rotation: false, scale: true };
    let mut still = ChangeRecord::default();
    let mut turned = ChangeRecord { position: false, rotation: true, scale: false };
    ledger.take_changes(2, &mut moved);
    ledger.take_changes(2, &mut scaled);
    ledger.take_changes(1, &mut still);
    ledger.take_changes(7, &mut turned);
    for record in [moved, scaled, still, turned] {
        assert_eq!(record, ChangeRecord::default());
    }
    assert_eq!(ledger.end_tick(), vec![2]);
    ledger.take_changes(2, &mut moved);
    assert!(ledger.end_tick().is_empty());
}
