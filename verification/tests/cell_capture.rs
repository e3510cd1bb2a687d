use magnetar::cell::Cell;

#[test]
fn cell_activates_on_the_tick_after_both_tweens_finish() {
    // height and scale each consume exactly 0.25 time units at dt = 0.25
    let mut c = Cell::new(0);
    assert!(!c.active);
    c.logic_step(250);
    assert!(!c.active);
    c.logic_step(250);
    assert!(!c.active);
    c.logic_step(250);
    assert!(c.active);
    c.logic_step(250);
    assert!(c.active);
}

#[test]
fn object_leaving_before_activation_is_never_captured() {
    let mut c = Cell::new(0);
    c.logic_step(250);
    c.logic_step(250);
    // O enters the inactive cell: queued, not captured
    let captured_now = c.enter(1);
    assert!(!captured_now);
    assert_eq!(c.queued_zoneables, vec![1]);
    // O leaves before the cell activates
    c.leave(1);
    assert!(c.queued_zoneables.is_empty());
    // P enters; the cell activates on the next tick and captures P alone
    let captured_now = c.enter(2);
    assert!(!captured_now);
    let out = c.logic_step(250);
    assert!(c.active);
    assert_eq!(out.captures, vec![2]);
    assert!(c.queued_zoneables.is_empty());
    // nothing left to capture on later ticks
    let out = c.logic_step(250);
    assert!(out.captures.is_empty());
}

#[test]
fn entering_an_active_cell_captures_immediately_without_queueing() {
    let mut c = Cell::new(0);
    c.logic_step(250);
    c.logic_step(250);
    c.logic_step(250);
    assert!(c.active);
    let captured_now = c.enter(9);
    assert!(captured_now);
    assert!(c.queued_zoneables.is_empty());
}

#[test]
fn queue_insertion_is_idempotent() {
    let mut c = Cell::new(0);
    assert!(!c.enter(5));
    assert!(!c.enter(5));
    assert_eq!(c.queued_zoneables, vec![5]);
    let _ = c.logic_step(250);
    let _ = c.logic_step(250);
    let out = c.logic_step(250);
    // queued once, captured once
    assert_eq!(out.captures, vec![5]);
}

#[test]
fn leave_is_idempotent_and_safe_after_capture() {
    let mut c = Cell::new(0);
    assert!(!c.enter(5));
    c.leave(5);
    c.leave(5);
    assert!(c.queued_zoneables.is_empty());
    assert!(!c.enter(6));
    let _ = c.logic_step(250);
    let _ = c.logic_step(250);
    let out = c.logic_step(250);
    assert_eq!(out.captures, vec![6]);
    // the object was already captured and drained; leaving changes nothing
    c.leave(6);
    assert!(c.queued_zoneables.is_empty());
}

#[test]
fn queue_keeps_arrival_order() {
    let mut c = Cell::new(0);
    assert!(!c.enter(3));
    assert!(!c.enter(1));
    assert!(!c.enter(2));
    let _ = c.logic_step(250);
    let _ = c.logic_step(250);
    let out = c.logic_step(250);
    assert_eq!(out.captures, vec![3, 1, 2]);
}

#[test]
fn forced_flag_is_overridden_by_the_tick() {
    let mut c = Cell::new(0);
    // forcing the flag true while materializing does not stick
    c.active = true;
    assert!(c.enter(4)); // the forced flag admits an immediate capture
    c.active = true;
    c.logic_step(250);
    assert!(!c.active);
    // and forcing it shut once idle does not stick either
    c.logic_step(250);
    c.logic_step(250);
    assert!(c.active);
    c.active = false;
    c.logic_step(250);
    assert!(c.active);
}
