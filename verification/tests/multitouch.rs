//! The multitouch state machine: slot selection, tracking identity,
//! axis updates, buttons, sync boundaries and reset.

use tapview::multitouch::{
    code_lookup, InputEvent, MTStateMachine, ABS_MT_POSITION_X, ABS_MT_POSITION_Y,
    ABS_MT_PRESSURE, ABS_MT_SLOT, ABS_MT_TOOL_TYPE, ABS_MT_TRACKING_ID, BTN_LEFT, BTN_MIDDLE,
    BTN_RIGHT, BTN_TOOL_DOUBLETAP, BTN_TOUCH, EV_ABS, EV_KEY, EV_SYN, MAX_TOUCH_POINTS,
};

fn ev(kind: u16, code: u16, value: i32) -> InputEvent {
    InputEvent { kind, code, value }
}

#[test]
fn round_trip_touch_and_lift() {
    // Slot 0 select, tracking-id 5, position (100, 200), sync: the slot
    // is occupied with identity 5 at (100, 200). A second select with
    // tracking-id -1 and sync lifts it.
    let mut m = MTStateMachine::new();
    m.process(&ev(EV_ABS, ABS_MT_SLOT, 0));
    m.process(&ev(EV_ABS, ABS_MT_TRACKING_ID, 5));
    m.process(&ev(EV_ABS, ABS_MT_POSITION_X, 100));
    m.process(&ev(EV_ABS, ABS_MT_POSITION_Y, 200));
    m.process(&ev(EV_SYN, 0, 0));
    assert!(m.is_read_ready());
    assert!(m.touches[0].used);
    assert_eq!(m.touches[0].tracking_id, 5);
    assert_eq!(m.touches[0].position_x, 100);
    assert_eq!(m.touches[0].position_y, 200);

    m.process(&ev(EV_ABS, ABS_MT_SLOT, 0));
    m.process(&ev(EV_ABS, ABS_MT_TRACKING_ID, -1));
    m.process(&ev(EV_SYN, 0, 0));
    assert!(!m.touches[0].used);
}

#[test]
fn axis_data_alone_marks_slot_used() {
    // Any axis event is itself sufficient evidence of occupancy, with
    // or without a tracking id.
    let mut m = MTStateMachine::new();
    m.process(&ev(EV_ABS, ABS_MT_PRESSURE, 42));
    assert!(m.touches[0].used);
    assert_eq!(m.touches[0].pressure, 42);
}

#[test]
fn events_route_to_selected_slot() {
    let mut m = MTStateMachine::new();
    m.process(&ev(EV_ABS, ABS_MT_SLOT, 3));
    m.process(&ev(EV_ABS, ABS_MT_POSITION_X, 77));
    assert!(m.touches[3].used);
    assert_eq!(m.touches[3].position_x, 77);
    assert_eq!(m.touches[0].position_x, 0);
}

#[test]
fn later_axis_events_overwrite_earlier_ones() {
    let mut m = MTStateMachine::new();
    m.process(&ev(EV_ABS, ABS_MT_POSITION_X, 10));
    m.process(&ev(EV_ABS, ABS_MT_POSITION_X, 20));
    assert_eq!(m.touches[0].position_x, 20);
}

#[test]
fn out_of_range_slot_select_is_ignored() {
    let mut m = MTStateMachine::new();
    m.process(&ev(EV_ABS, ABS_MT_SLOT, MAX_TOUCH_POINTS as i32));
    m.process(&ev(EV_ABS, ABS_MT_SLOT, -2));
    m.process(&ev(EV_ABS, ABS_MT_POSITION_X, 5));
    // Events still land in slot 0: no selection took place.
    assert!(m.touches[0].used);
    assert_eq!(m.touches[0].position_x, 5);
}

#[test]
fn negative_tracking_id_clears_only_used() {
    let mut m = MTStateMachine::new();
    m.process(&ev(EV_ABS, ABS_MT_SLOT, 1));
    m.process(&ev(EV_ABS, ABS_MT_TRACKING_ID, 9));
    m.process(&ev(EV_ABS, ABS_MT_POSITION_X, 50));
    m.process(&ev(EV_ABS, ABS_MT_TRACKING_ID, -1));
    assert!(!m.touches[1].used);
    // Stale fields remain but are meaningless while used is false.
    assert_eq!(m.touches[1].position_x, 50);
}

#[test]
fn key_events_apply_immediately() {
    let mut m = MTStateMachine::new();
    m.process(&ev(EV_KEY, BTN_TOUCH, 1));
    m.process(&ev(EV_KEY, BTN_TOOL_DOUBLETAP, 1));
    m.process(&ev(EV_KEY, BTN_LEFT, 1));
    m.process(&ev(EV_KEY, BTN_RIGHT, 1));
    m.process(&ev(EV_KEY, BTN_MIDDLE, 1));
    assert!(m.touches[0].pressed);
    assert!(m.touches[0].pressed_double);
    assert!(m.buttons.left);
    assert!(m.buttons.right);
    assert!(m.buttons.middle);
    m.process(&ev(EV_KEY, BTN_LEFT, 0));
    assert!(!m.buttons.left);
}

#[test]
fn sync_marks_read_ready() {
    let mut m = MTStateMachine::new();
    assert!(!m.is_read_ready());
    m.process(&ev(EV_SYN, 0, 0));
    assert!(m.is_read_ready());
}

#[test]
fn unknown_kinds_and_codes_change_nothing() {
    let mut m = MTStateMachine::new();
    m.process(&ev(0x04, 0x05, 123)); // miscellaneous event
    m.process(&ev(EV_KEY, 0x1234, 1)); // unknown key
    assert!(!m.is_read_ready());
    assert!(!m.touches[0].used);
    assert!(!m.buttons.left);
}

#[test]
fn tool_type_is_a_per_contact_axis() {
    let mut m = MTStateMachine::new();
    m.process(&ev(EV_ABS, ABS_MT_TOOL_TYPE, 2));
    assert!(m.touches[0].used);
    assert_eq!(m.touches[0].tool_type, 2);
}

#[test]
fn reset_clears_used_flags_and_state() {
    let mut m = MTStateMachine::new();
    m.process(&ev(EV_ABS, ABS_MT_SLOT, 2));
    m.process(&ev(EV_ABS, ABS_MT_POSITION_X, 11));
    m.process(&ev(EV_SYN, 0, 0));
    m.reset();
    assert!(!m.is_read_ready());
    for t in &m.touches {
        assert!(!t.used);
    }
    // Other fields survive a reset.
    assert_eq!(m.touches[2].position_x, 11);
    // After a reset, no slot is selected: axis data lands in slot 0.
    m.process(&ev(EV_ABS, ABS_MT_POSITION_Y, 7));
    assert_eq!(m.touches[0].position_y, 7);
}

#[test]
fn snapshot_copies_table_and_buttons() {
    let mut m = MTStateMachine::new();
    m.process(&ev(EV_ABS, ABS_MT_POSITION_X, 33));
    m.process(&ev(EV_KEY, BTN_LEFT, 1));
    let s = m.snapshot();
    assert_eq!(s.touches.len(), MAX_TOUCH_POINTS);
    assert_eq!(s.touches[0].position_x, 33);
    assert!(s.buttons.left);
}

#[test]
fn code_lookup_names_known_codes() {
    assert_eq!(code_lookup(0x2f), Some("SLOT"));
    assert_eq!(code_lookup(0x35), Some("POSITION_X"));
    assert_eq!(code_lookup(0x39), Some("TRACKING_ID"));
    assert_eq!(code_lookup(0x110), Some("BTN_LEFT"));
    assert_eq!(code_lookup(0x14d), Some("BTN_TOOL_DOUBLETAP"));
    assert_eq!(code_lookup(0x00), Some("X"));
}

#[test]
fn code_lookup_unknown_code_has_no_name() {
    assert_eq!(code_lookup(0x2e), None);
    assert_eq!(code_lookup(0xFFFF), None);
}
