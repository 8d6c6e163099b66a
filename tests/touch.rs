use rm_mouse::event::{
    key_event, rel_event, syn_report, RawEvent, ABS_MT_POSITION_X, ABS_MT_POSITION_Y, ABS_MT_SLOT,
    ABS_MT_TRACKING_ID, BTN_TOUCH, EV_ABS, EV_KEY, EV_REL, REL_HWHEEL, REL_WHEEL, REL_X, REL_Y,
};
use rm_mouse::touch::TouchEngine;

fn abs(code: u16, value: i32) -> RawEvent {
    RawEvent { type_: EV_ABS, code, value }
}

/// Feeds the events and returns what the final one emitted; every earlier
/// event must emit nothing.
fn report(e: &mut TouchEngine, evs: &[RawEvent]) -> Vec<RawEvent> {
    for ev in evs {
        assert!(e.handle(*ev).is_empty());
    }
    e.handle(syn_report())
}

fn finger(slot: i32, id: i32, x: i32, y: i32) -> Vec<RawEvent> {
    vec![
        abs(ABS_MT_SLOT, slot),
        abs(ABS_MT_TRACKING_ID, id),
        abs(ABS_MT_POSITION_X, x),
        abs(ABS_MT_POSITION_Y, y),
    ]
}

fn moved(slot: i32, x: i32, y: i32) -> Vec<RawEvent> {
    vec![abs(ABS_MT_SLOT, slot), abs(ABS_MT_POSITION_X, x), abs(ABS_MT_POSITION_Y, y)]
}

fn lift(slot: i32) -> Vec<RawEvent> {
    vec![abs(ABS_MT_SLOT, slot), abs(ABS_MT_TRACKING_ID, -1)]
}

fn is_scroll(ev: &RawEvent) -> bool {
    ev.type_ == EV_REL && (ev.code == REL_WHEEL || ev.code == REL_HWHEEL)
}

fn is_edge(ev: &RawEvent) -> bool {
    ev.type_ == EV_KEY && ev.code == BTN_TOUCH
}

#[test]
fn single_touch_moves_pointer() {
    let mut e = TouchEngine::new();
    let down = report(&mut e, &finger(0, 7, 100, 200));
    assert_eq!(down, vec![key_event(BTN_TOUCH, 1), syn_report()]);
    let mv = report(&mut e, &moved(0, 110, 205));
    assert_eq!(mv, vec![rel_event(REL_X, 10), rel_event(REL_Y, 5), syn_report()]);
    let up = report(&mut e, &lift(0));
    assert_eq!(up, vec![key_event(BTN_TOUCH, 0), syn_report()]);
    for ev in down.iter().chain(mv.iter()).chain(up.iter()) {
        assert!(!is_scroll(ev));
    }
}

#[test]
fn two_finger_vertical_scroll() {
    let mut e = TouchEngine::new();
    let mut evs = finger(0, 1, 400, 500);
    evs.extend(finger(1, 2, 600, 500));
    let down = report(&mut e, &evs);
    assert_eq!(down, vec![key_event(BTN_TOUCH, 1), syn_report()]);
    let mut evs = moved(0, 400, 530);
    evs.extend(moved(1, 600, 530));
    let out = report(&mut e, &evs);
    assert_eq!(out, vec![rel_event(REL_WHEEL, -1), syn_report()]);
    for ev in down.iter().chain(out.iter()) {
        assert!(!(ev.type_ == EV_REL && (ev.code == REL_X || ev.code == REL_Y)));
    }
}

#[test]
fn fingers_moving_up_and_right_scroll_positive() {
    let mut e = TouchEngine::new();
    let mut evs = finger(0, 1, 400, 500);
    evs.extend(finger(1, 2, 600, 500));
    report(&mut e, &evs);
    let mut evs = moved(0, 490, 410);
    evs.extend(moved(1, 690, 410));
    let out = report(&mut e, &evs);
    assert_eq!(out, vec![rel_event(REL_WHEEL, 3), rel_event(REL_HWHEEL, 3), syn_report()]);
}

#[test]
fn scroll_jump_is_clamped() {
    let mut e = TouchEngine::new();
    let mut evs = finger(0, 1, 400, 500);
    evs.extend(finger(1, 2, 600, 500));
    report(&mut e, &evs);
    let mut evs = moved(0, 10400, 10500);
    evs.extend(moved(1, 10600, 10500));
    let out = report(&mut e, &evs);
    assert_eq!(out, vec![rel_event(REL_WHEEL, -6), rel_event(REL_HWHEEL, 6), syn_report()]);
    let mut evs = moved(0, i32::MIN, i32::MAX);
    evs.extend(moved(1, i32::MIN, i32::MAX));
    let out = report(&mut e, &evs);
    for ev in out.iter().filter(|ev| is_scroll(ev)) {
        assert!(-15 <= ev.value && ev.value <= 15);
    }
    assert_eq!(out, vec![rel_event(REL_WHEEL, -6), rel_event(REL_HWHEEL, -6), syn_report()]);
}

#[test]
fn contact_edges_not_repeated() {
    let mut e = TouchEngine::new();
    let first = report(&mut e, &finger(0, 1, 100, 100));
    assert_eq!(first.iter().filter(|ev| is_edge(ev)).count(), 1);
    assert!(e.is_touch_down());
    let second = report(&mut e, &moved(0, 120, 100));
    assert!(second.iter().all(|ev| !is_edge(ev)));
    let third = report(&mut e, &[]);
    assert!(third.is_empty());
}

#[test]
fn primary_stays_while_other_slot_reclaims() {
    let mut e = TouchEngine::new();
    report(&mut e, &finger(0, 1, 100, 100));
    assert_eq!(e.primary_slot(), Some(0));
    report(&mut e, &finger(1, 2, 900, 900));
    assert_eq!(e.primary_slot(), Some(0));
    assert_eq!(e.contact_count(), 2);
    let mut evs = lift(1);
    evs.extend(finger(1, 3, 950, 950));
    for ev in &evs {
        e.handle(*ev);
        assert_eq!(e.primary_slot(), Some(0));
    }
    e.handle(syn_report());
    assert_eq!(e.primary_slot(), Some(0));
    report(&mut e, &lift(1));
    assert_eq!(e.primary_slot(), Some(0));
    report(&mut e, &finger(1, 4, 960, 960));
    assert_eq!(e.primary_slot(), Some(0));
    // Slot 1 goes away; slot 0 is still the primary, with its old
    // baseline, so the next move of slot 0 is a plain delta.
    report(&mut e, &lift(1));
    assert_eq!(e.contact_count(), 1);
    let out = report(&mut e, &moved(0, 104, 97));
    assert_eq!(out, vec![rel_event(REL_X, 4), rel_event(REL_Y, -3), syn_report()]);
}

#[test]
fn primary_moves_to_lowest_active_slot_with_fresh_baseline() {
    let mut e = TouchEngine::new();
    report(&mut e, &finger(2, 1, 100, 100));
    let mut evs = finger(5, 2, 500, 500);
    evs.extend(lift(2));
    let out = report(&mut e, &evs);
    assert!(out.iter().all(|ev| ev.type_ != EV_REL));
    let out = report(&mut e, &moved(5, 510, 490));
    assert_eq!(out, vec![rel_event(REL_X, 10), rel_event(REL_Y, -10), syn_report()]);
}

#[test]
fn release_and_claim_in_one_frame() {
    let mut e = TouchEngine::new();
    report(&mut e, &finger(0, 1, 100, 100));
    let evs = vec![
        abs(ABS_MT_SLOT, 0),
        abs(ABS_MT_TRACKING_ID, -1),
        abs(ABS_MT_TRACKING_ID, 2),
        abs(ABS_MT_POSITION_X, 300),
    ];
    let out = report(&mut e, &evs);
    assert!(out.is_empty());
    // The claim kept slot 0 primary, so the baseline is the old position.
    let out = report(&mut e, &[abs(ABS_MT_POSITION_Y, 300)]);
    assert_eq!(out, vec![rel_event(REL_X, 200), rel_event(REL_Y, 200), syn_report()]);
    let out = report(&mut e, &moved(0, 301, 302));
    assert_eq!(out, vec![rel_event(REL_X, 1), rel_event(REL_Y, 2), syn_report()]);
}

#[test]
fn out_of_range_slot_is_clamped() {
    let mut e = TouchEngine::new();
    let down = report(&mut e, &finger(40, 1, 10, 10));
    assert_eq!(down, vec![key_event(BTN_TOUCH, 1), syn_report()]);
    let mv = report(&mut e, &moved(15, 20, 10));
    assert_eq!(mv, vec![rel_event(REL_X, 10), rel_event(REL_Y, 0), syn_report()]);
    let up = report(&mut e, &lift(-3));
    assert!(up.is_empty());
    let up = report(&mut e, &lift(99));
    assert_eq!(up, vec![key_event(BTN_TOUCH, 0), syn_report()]);
    assert!(!e.is_touch_down());
    assert_eq!(e.primary_slot(), None);
}

#[test]
fn key_and_other_events_are_ignored() {
    let mut e = TouchEngine::new();
    assert!(e.handle(key_event(BTN_TOUCH, 1)).is_empty());
    assert!(e.handle(RawEvent { type_: 0, code: 2, value: 0 }).is_empty());
    assert!(e.handle(syn_report()).is_empty());
    assert!(e.handle(abs(ABS_MT_POSITION_X, 5)).is_empty());
    assert!(e.handle(syn_report()).is_empty());
}

#[test]
fn scroll_stops_and_restarts_with_fresh_centroid() {
    let mut e = TouchEngine::new();
    let mut evs = finger(0, 1, 400, 500);
    evs.extend(finger(1, 2, 600, 500));
    report(&mut e, &evs);
    report(&mut e, &lift(1));
    let again = report(&mut e, &finger(1, 3, 600, 900));
    assert!(again.iter().all(|ev| !is_scroll(ev)));
    let mut evs = moved(0, 400, 470);
    evs.extend(moved(1, 600, 870));
    let out = report(&mut e, &evs);
    assert_eq!(out, vec![rel_event(REL_WHEEL, 1), syn_report()]);
}
