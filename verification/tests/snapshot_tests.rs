//! Scenario tests for the event model and the device table.

use ctl1::event::{Ctl1Event, ControlEvent};
use ctl1::snapshot::CtlState;
use ctl1::table::AppState;

#[test]
fn action_a_snapshot_sequence() {
    // Device 0x01, name "Pad1": ActionA(true), ActionA(true), ActionA(false)
    // yields (None, Some(true)) -> (Some(true), Some(true))
    // -> (Some(true), Some(false)) for the action_a field.
    let mut t = AppState::new();
    let id: u64 = 0x01;

    t.process_event(Ctl1Event::new(
        ControlEvent::ActionA(true),
        "Pad1".to_string(),
        id,
    ));
    assert_eq!(t.previous.get(&id).unwrap().action_a, None);
    assert_eq!(t.current.get(&id).unwrap().action_a, Some(true));

    t.process_event(Ctl1Event::new(
        ControlEvent::ActionA(true),
        "Pad1".to_string(),
        id,
    ));
    assert_eq!(t.previous.get(&id).unwrap().action_a, Some(true));
    assert_eq!(t.current.get(&id).unwrap().action_a, Some(true));

    t.process_event(Ctl1Event::new(
        ControlEvent::ActionA(false),
        "Pad1".to_string(),
        id,
    ));
    assert_eq!(t.previous.get(&id).unwrap().action_a, Some(true));
    assert_eq!(t.current.get(&id).unwrap().action_a, Some(false));
}

#[test]
fn first_axis_event_sets_joy_x_and_name() {
    // Device 0x02 sends JoyX(0.42) first: previous.joy_x stays unset,
    // current.joy_x holds the value, and the display name is fixed from
    // this first observation.
    let mut t = AppState::new();
    let id: u64 = 0x02;
    let bits = 0.42f64.to_bits();

    t.process_event(Ctl1Event::new(ControlEvent::JoyX(bits), "Stick2".to_string(), id));
    assert_eq!(t.previous.get(&id).unwrap().joy_x, None);
    assert_eq!(t.current.get(&id).unwrap().joy_x, Some(bits));
    assert_eq!(f64::from_bits(t.current.get(&id).unwrap().joy_x.unwrap()), 0.42);
    assert_eq!(t.name_mapping.get(&id).unwrap(), "Stick2");

    // A later event for the same id does not change the name: first wins.
    t.process_event(Ctl1Event::new(ControlEvent::JoyX(bits), "Other".to_string(), id));
    assert_eq!(t.name_mapping.get(&id).unwrap(), "Stick2");
}

#[test]
fn disconnect_flips_flag_and_freezes_values() {
    // After ActionA(false), a Disconnect flips disconnected false -> true
    // and action_a stays Some(false).
    let mut t = AppState::new();
    let id: u64 = 0x01;

    t.process_event(Ctl1Event::new(ControlEvent::ActionA(false), "Pad1".to_string(), id));
    assert!(!t.current.get(&id).unwrap().disconnected);

    t.process_event(Ctl1Event::new(ControlEvent::Disconnect, "Pad1".to_string(), id));
    assert!(!t.previous.get(&id).unwrap().disconnected);
    assert!(t.current.get(&id).unwrap().disconnected);
    assert_eq!(t.current.get(&id).unwrap().action_a, Some(false));
}

#[test]
fn unknown_event_goes_to_diagnostic_slot() {
    // An event of an unmodeled variant lands in the diagnostic slot and no
    // field mapped by the named variants changes.
    let s = CtlState::new();
    let s1 = s.updated(ControlEvent::ActionB(true));
    let s2 = s1.updated(ControlEvent::Unknown("PinkyTrigger(true)".to_string()));
    assert_eq!(s2.unknown_event.as_deref(), Some("PinkyTrigger(true)"));
    assert_eq!(s2.action_b, Some(true));
    assert_eq!(s2.action_a, None);
    assert_eq!(s2.joy_x, None);
    assert!(!s2.disconnected);
    assert!(s2.number.is_empty());
}

#[test]
fn bool_true_event_twice_is_idempotent() {
    // Applying the same boolean-true event twice in a row: previous and
    // current both read Some(true) after the second application.
    let s0 = CtlState::new();
    let s1 = s0.updated(ControlEvent::Trigger(true));
    let s2 = s1.updated(ControlEvent::Trigger(true));
    assert_eq!(s1.trigger, Some(true));
    assert_eq!(s2.trigger, Some(true));
}

#[test]
fn updated_sets_exactly_the_addressed_field() {
    let s = CtlState::new();
    let s1 = s.updated(ControlEvent::MenuL(true));
    assert_eq!(s1.menu_l, Some(true));
    assert_eq!(s1.menu_r, None);
    assert_eq!(s1.exit, None);
    let s2 = s1.updated(ControlEvent::Throttle(7));
    assert_eq!(s2.throttle, Some(7));
    assert_eq!(s2.menu_l, Some(true));
}

#[test]
fn bumper_event_lands_in_right_bumper_slot() {
    // The field mapping routes the generic bumper event into the
    // right-bumper field and never writes the bumper field.
    let s = CtlState::new();
    let s1 = s.updated(ControlEvent::Bumper(true));
    assert_eq!(s1.bumper_r, Some(true));
    assert_eq!(s1.bumper, None);
    assert_eq!(s1.bumper_l, None);
}

#[test]
fn autopilot_alt_event_lands_in_autopilot_path_slot() {
    // Likewise both autopilot events land in the autopilot_path field.
    let s = CtlState::new();
    let s1 = s.updated(ControlEvent::AutopilotAlt(true));
    assert_eq!(s1.autopilot_path, Some(true));
    assert_eq!(s1.autopilot_alt, None);
    let s2 = s1.updated(ControlEvent::AutopilotPath(false));
    assert_eq!(s2.autopilot_path, Some(false));
}

#[test]
fn numbered_buttons_keep_per_index_state() {
    let s = CtlState::new();
    let s1 = s.updated(ControlEvent::Number(3, true));
    let s2 = s1.updated(ControlEvent::Number(5, false));
    assert_eq!(s2.number.get(&3), Some(&true));
    assert_eq!(s2.number.get(&5), Some(&false));
    assert_eq!(s2.number.get(&4), None);
    let s3 = s2.updated(ControlEvent::Number(3, false));
    assert_eq!(s3.number.get(&3), Some(&false));
    assert_eq!(s3.number.get(&5), Some(&false));
}

#[test]
fn records_are_isolated_per_device() {
    // Updating the record for id A never changes the record for id B.
    let mut t = AppState::new();
    t.process_event(Ctl1Event::new(ControlEvent::ActionA(true), "A".to_string(), 1));
    t.process_event(Ctl1Event::new(ControlEvent::ActionB(true), "B".to_string(), 2));
    t.process_event(Ctl1Event::new(ControlEvent::Disconnect, "A".to_string(), 1));
    let b = t.current.get(&2).unwrap();
    assert_eq!(b.action_b, Some(true));
    assert_eq!(b.action_a, None);
    assert!(!b.disconnected);
    assert!(t.current.get(&1).unwrap().disconnected);
    assert_eq!(t.name_mapping.get(&2).unwrap(), "B");
    // The read API sees the same records.
    assert!(t.current_of(1).unwrap().disconnected);
    assert_eq!(t.previous_of(2).unwrap().action_b, None);
    assert_eq!(t.name_of(2).unwrap(), "B");
    assert!(t.current_of(3).is_none());
    assert!(t.previous_of(3).is_none());
    assert!(t.name_of(3).is_none());
}

#[test]
fn fresh_table_and_snapshot_are_empty() {
    let t = AppState::default();
    assert!(t.previous.is_empty());
    assert!(t.current.is_empty());
    assert!(t.name_mapping.is_empty());
    let s = CtlState::default();
    assert_eq!(s.exit, None);
    assert_eq!(s.action_wheel_y, None);
    assert!(!s.disconnected);
    assert_eq!(s.unknown_event, None);
    assert!(s.number.is_empty());
}

#[test]
fn snapshot_copy_preserves_every_field() {
    let s = CtlState::new()
        .updated(ControlEvent::ActionA(true))
        .updated(ControlEvent::JoyX(99))
        .updated(ControlEvent::Number(1, true))
        .updated(ControlEvent::Unknown("odd".to_string()));
    let c = s.snapshot_copy();
    assert_eq!(c.action_a, Some(true));
    assert_eq!(c.joy_x, Some(99));
    assert_eq!(c.number.get(&1), Some(&true));
    assert_eq!(c.unknown_event.as_deref(), Some("odd"));
    assert_eq!(c.disconnected, s.disconnected);
}

#[test]
fn ensure_ctl_creates_record_once() {
    let mut t = AppState::new();
    t.ensure_ctl(9, "Pad9".to_string());
    assert!(t.previous.contains_key(&9));
    assert!(t.current.contains_key(&9));
    assert_eq!(t.name_mapping.get(&9).unwrap(), "Pad9");
    t.ensure_ctl(9, "Again".to_string());
    assert_eq!(t.name_mapping.get(&9).unwrap(), "Pad9");
    assert_eq!(t.current.len(), 1);
}
