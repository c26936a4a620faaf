//! Tests for key handling, action dispatch, and the renderer decisions.

use ctl1::action::{do_action, AppReturn, UiAction, UiActions};
use ctl1::key::UiKey;
use ctl1::render::{bool_cells, size_ok};

#[test]
fn function_keys_by_number() {
    assert_eq!(UiKey::from_f(0), UiKey::F0);
    assert_eq!(UiKey::from_f(1), UiKey::F1);
    assert_eq!(UiKey::from_f(2), UiKey::F2);
    assert_eq!(UiKey::from_f(3), UiKey::F3);
    assert_eq!(UiKey::from_f(4), UiKey::F4);
    assert_eq!(UiKey::from_f(5), UiKey::F5);
    assert_eq!(UiKey::from_f(6), UiKey::F6);
    assert_eq!(UiKey::from_f(7), UiKey::F7);
    assert_eq!(UiKey::from_f(8), UiKey::F8);
    assert_eq!(UiKey::from_f(9), UiKey::F9);
    assert_eq!(UiKey::from_f(10), UiKey::F10);
    assert_eq!(UiKey::from_f(11), UiKey::F11);
    assert_eq!(UiKey::from_f(12), UiKey::F12);
}

#[test]
fn quit_is_bound_to_ctrl_c_and_q() {
    let keys = UiAction::Quit.keys();
    assert_eq!(keys, vec![UiKey::Ctrl('c'), UiKey::Char('q')]);
    assert_eq!(UiAction::iterator(), vec![UiAction::Quit]);
    assert_eq!(UiAction::Quit.label(), "Action[Quit]");
}

#[test]
fn find_maps_bound_keys_only() {
    let all = UiAction::iterator();
    assert!(!UiActions::has_conflict(&all));
    let acts = UiActions::new(all);
    assert_eq!(acts.find(UiKey::Ctrl('c')), Some(UiAction::Quit));
    assert_eq!(acts.find(UiKey::Char('q')), Some(UiAction::Quit));
    assert_eq!(acts.find(UiKey::Char('c')), None);
    assert_eq!(acts.find(UiKey::Esc), None);
    assert_eq!(acts.actions(), &vec![UiAction::Quit]);
}

#[test]
fn find_ignores_disabled_actions() {
    let acts = UiActions::new(Vec::new());
    assert_eq!(acts.find(UiKey::Ctrl('c')), None);
}

#[test]
fn duplicate_entries_conflict_on_shared_keys() {
    let doubled = vec![UiAction::Quit, UiAction::Quit];
    assert!(UiActions::has_conflict(&doubled));
    assert!(!UiActions::has_conflict(&Vec::new()));
}

#[test]
fn do_action_exits_only_on_quit_keys() {
    let acts = UiActions::new(UiAction::iterator());
    assert_eq!(do_action(&acts, UiKey::Ctrl('c')), AppReturn::Exit);
    assert_eq!(do_action(&acts, UiKey::Char('q')), AppReturn::Exit);
    assert_eq!(do_action(&acts, UiKey::Char('x')), AppReturn::Continue);
    assert_eq!(do_action(&acts, UiKey::Tab), AppReturn::Continue);
}

#[test]
fn bool_row_markers() {
    assert_eq!(bool_cells(Some(true), Some(true)), ("=".to_string(), "ON".to_string()));
    assert_eq!(bool_cells(Some(false), Some(true)), ("+".to_string(), "ON".to_string()));
    assert_eq!(bool_cells(Some(true), Some(false)), ("-".to_string(), "OFF".to_string()));
    assert_eq!(bool_cells(Some(false), Some(false)), ("=".to_string(), "OFF".to_string()));
    assert_eq!(bool_cells(None, Some(true)), ("#".to_string(), "ON".to_string()));
    assert_eq!(bool_cells(None, Some(false)), ("#".to_string(), "OFF".to_string()));
    assert_eq!(bool_cells(None, None), ("?".to_string(), "?".to_string()));
    assert_eq!(bool_cells(Some(true), None), ("?".to_string(), "?".to_string()));
}

#[test]
fn terminal_size_floor() {
    assert!(size_ok(52, 28));
    assert!(size_ok(100, 40));
    assert!(!size_ok(51, 28));
    assert!(!size_ok(52, 27));
}
