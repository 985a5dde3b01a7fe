use crank::slot::{advance_slot, advance_slots, SlotStatus, SlotUpdateEvent};

fn update(slot: u64) -> SlotUpdateEvent {
    SlotUpdateEvent { slot, status: SlotStatus::Processed }
}

#[test]
fn slot_moves_forward_on_a_later_update() {
    assert_eq!(advance_slot(5, &update(9)), 9);
}

#[test]
fn slot_ignores_an_earlier_update() {
    assert_eq!(advance_slot(5, &update(3)), 5);
}

#[test]
fn slot_ignores_an_equal_update() {
    assert_eq!(advance_slot(5, &update(5)), 5);
}

#[test]
fn slot_after_five_three_seven_is_seven() {
    let updates = vec![update(5), update(3), update(7)];
    assert_eq!(advance_slots(0, &updates), 7);
}

#[test]
fn slot_regression_has_no_observable_effect() {
    let with_regression = vec![update(5), update(3), update(7)];
    let without = vec![update(5), update(7)];
    assert_eq!(advance_slots(0, &with_regression), advance_slots(0, &without));
    let mut current = 0;
    let mut seen = Vec::new();
    for u in &with_regression {
        current = advance_slot(current, u);
        seen.push(current);
    }
    assert_eq!(seen, vec![5, 5, 7]);
}

#[test]
fn slot_stays_without_updates() {
    assert_eq!(advance_slots(42, &Vec::new()), 42);
}

#[test]
fn slot_keeps_a_start_that_is_ahead_of_every_update() {
    let updates = vec![update(1), update(2), update(3)];
    assert_eq!(advance_slots(10, &updates), 10);
}

#[test]
fn slot_reaches_the_largest_value() {
    assert_eq!(advance_slot(0, &update(u64::MAX)), u64::MAX);
    assert_eq!(advance_slot(u64::MAX, &update(0)), u64::MAX);
}

#[test]
fn slot_status_does_not_matter() {
    let rooted = SlotUpdateEvent { slot: 8, status: SlotStatus::Rooted };
    let confirmed = SlotUpdateEvent { slot: 8, status: SlotStatus::Confirmed };
    assert_eq!(advance_slot(1, &rooted), advance_slot(1, &confirmed));
}
