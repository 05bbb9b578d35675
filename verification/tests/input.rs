use bit_vec::BitVec;
use project_peril::input::{
    action_for_scancode, mouse_button_message, Action, ActionType, InputHandler, InputState, KeyEventState,
    MouseButton, ACTION_COUNT,
};

fn set_of(actions: &[Action]) -> BitVec {
    let mut b = BitVec::from_elem(ACTION_COUNT, false);
    for a in actions {
        b.set(a.index(), true);
    }
    b
}

#[test]
fn scancodes_map_to_actions() {
    assert_eq!(action_for_scancode(17), Some(Action::FORWARD));
    assert_eq!(action_for_scancode(30), Some(Action::LEFT));
    assert_eq!(action_for_scancode(31), Some(Action::BACK));
    assert_eq!(action_for_scancode(32), Some(Action::RIGHT));
    assert_eq!(action_for_scancode(57), Some(Action::UP));
    assert_eq!(action_for_scancode(29), Some(Action::DOWN));
    assert_eq!(action_for_scancode(42), Some(Action::SPRINT));
    assert_eq!(action_for_scancode(103), Some(Action::CAM_UP));
    assert_eq!(action_for_scancode(105), Some(Action::CAM_LEFT));
    assert_eq!(action_for_scancode(108), Some(Action::CAM_DOWN));
    assert_eq!(action_for_scancode(106), Some(Action::CAM_RIGHT));
    assert_eq!(action_for_scancode(1), Some(Action::TERMINATE));
    assert_eq!(action_for_scancode(33), Some(Action::CURSOR_CAPTURE_TOGGLE));
    assert_eq!(action_for_scancode(0), None);
    assert_eq!(action_for_scancode(2), None);
}

#[test]
fn action_indices() {
    assert_eq!(Action::FORWARD.index(), 0);
    assert_eq!(Action::TERMINATE.index(), 12);
    assert_eq!(Action::LENGTH_OF_ENUM.index(), ACTION_COUNT);
}

#[test]
fn key_press_and_release() {
    let mut s = InputState::new();
    assert!(!s.has_actions());
    assert_eq!(s.update_key(17, KeyEventState::PRESSED), None);
    assert!(s.action_requested(Action::FORWARD));
    assert!(!s.action_requested(Action::BACK));
    assert!(s.has_actions());
    assert_eq!(s.update_key(17, KeyEventState::RELEASED), None);
    assert!(!s.action_requested(Action::FORWARD));
    assert!(!s.has_actions());
}

#[test]
fn key_event_changes_only_its_action() {
    let mut s = InputState::new();
    s.update_key(1, KeyEventState::PRESSED);
    s.update_key(42, KeyEventState::PRESSED);
    s.update_key(1, KeyEventState::RELEASED);
    assert!(!s.action_requested(Action::TERMINATE));
    assert!(s.action_requested(Action::SPRINT));
}

#[test]
fn unmapped_key_reports_message_and_changes_nothing() {
    let mut s = InputState::new();
    assert_eq!(s.update_key(999, KeyEventState::PRESSED), Some("Unmapped key 999 pressed".to_string()));
    assert_eq!(s.update_key(0, KeyEventState::RELEASED), Some("Unmapped key 0 released".to_string()));
    assert!(!s.has_actions());
}

#[test]
fn mouse_button_messages() {
    assert_eq!(mouse_button_message(MouseButton::Left, KeyEventState::PRESSED), Some("Left mouse pressed!".to_string()));
    assert_eq!(
        mouse_button_message(MouseButton::Right, KeyEventState::RELEASED),
        Some("Right mouse released!".to_string())
    );
    assert_eq!(
        mouse_button_message(MouseButton::Middle, KeyEventState::PRESSED),
        Some("Middle mouse pressed!".to_string())
    );
    assert_eq!(mouse_button_message(MouseButton::Other(4), KeyEventState::PRESSED), None);
}

#[test]
fn mouse_motion_accumulates_and_clears() {
    let mut s = InputState::new();
    s.update_mouse_movement((3, -4));
    s.update_mouse_movement((-1, 10));
    assert_eq!(s.get_and_clear_mouse_delta(), (2, 6));
    assert_eq!(s.get_and_clear_mouse_delta(), (0, 0));
}

fn handler() -> InputHandler<u32, &'static str> {
    let mut h: InputHandler<u32, &'static str> = InputHandler::new();
    let engine = set_of(&[Action::TERMINATE, Action::CURSOR_CAPTURE_TOGGLE]);
    assert!(h.is_registrable(&engine));
    h.register_actions(engine, ActionType::IMMEDIATE, 2);
    let car = set_of(&[Action::FORWARD, Action::BACK, Action::LEFT, Action::RIGHT]);
    assert!(h.is_registrable(&car));
    h.register_actions(car, ActionType::TICK, 1);
    h
}

#[test]
fn registration_refuses_overlap_and_wrong_length() {
    let h = handler();
    assert!(!h.is_registrable(&set_of(&[Action::FORWARD])));
    assert!(!h.is_registrable(&set_of(&[Action::UP, Action::TERMINATE])));
    assert!(h.is_registrable(&set_of(&[Action::UP, Action::DOWN])));
    assert!(!h.is_registrable(&BitVec::from_elem(ACTION_COUNT - 1, false)));
    assert!(h.is_registrable(&BitVec::from_elem(ACTION_COUNT, false)));
}

#[test]
fn nothing_requested_nothing_delivered() {
    let h = handler();
    assert!(h.immediate_deliveries().is_empty());
    assert!(h.actions_tick().is_empty());
}

#[test]
fn immediate_consumer_gets_its_actions_only() {
    let mut h = handler();
    h.update_key(1, KeyEventState::PRESSED);
    h.update_key(17, KeyEventState::PRESSED);
    let d = h.immediate_deliveries();
    assert_eq!(d.len(), 1);
    assert_eq!(*d[0].0, 2);
    assert_eq!(d[0].1, set_of(&[Action::TERMINATE]));
    let t = h.actions_tick();
    assert_eq!(t.len(), 1);
    assert_eq!(*t[0].0, 1);
    assert_eq!(t[0].1, set_of(&[Action::FORWARD]));
}

#[test]
fn pressed_key_reaches_its_consumer() {
    let mut h = handler();
    let camera = set_of(&[Action::UP, Action::DOWN]);
    h.register_actions(camera, ActionType::TICK, 3);
    h.update_key(57, KeyEventState::PRESSED);
    h.update_key(30, KeyEventState::PRESSED);
    let t = h.actions_tick();
    assert_eq!(t.len(), 2);
    assert_eq!(*t[0].0, 1);
    assert_eq!(t[0].1, set_of(&[Action::LEFT]));
    assert_eq!(*t[1].0, 3);
    assert_eq!(t[1].1, set_of(&[Action::UP]));
    assert!(h.immediate_deliveries().is_empty());
}

#[test]
fn handler_reports_unmapped_key_and_mouse_buttons() {
    let mut h = handler();
    assert_eq!(h.update_key(77, KeyEventState::RELEASED), Some("Unmapped key 77 released".to_string()));
    assert_eq!(h.update_key(17, KeyEventState::RELEASED), None);
    assert_eq!(h.update_mouse_button(MouseButton::Left, KeyEventState::RELEASED), Some("Left mouse released!".to_string()));
}

#[test]
fn mouse_tick_delivers_only_when_captured_with_consumer() {
    let mut h = handler();
    h.update_mouse_movement((5, 5));
    assert_eq!(h.mouse_movement_tick(true), None);
    h.register_mouse_movement("camera");
    assert_eq!(h.mouse_consumer(), Some(&"camera"));
    h.update_mouse_movement((1, 2));
    h.update_mouse_movement((3, -7));
    assert_eq!(h.mouse_movement_tick(false), None);
    h.update_mouse_movement((1, 2));
    h.update_mouse_movement((3, -7));
    assert_eq!(h.mouse_movement_tick(true), Some((4, -5)));
    assert_eq!(h.mouse_movement_tick(true), None);
}
