use bit_vec::BitVec;
use project_peril::component::{Component, ComponentType};
use project_peril::engine::{EngineClock, EngineState};
use project_peril::game::{camera_handled_actions, camera_moves, car_handled_actions, car_moves, CameraStep, CarStep};
use project_peril::game_object::GameObject;
use project_peril::input::{Action, ACTION_COUNT};

#[derive(Debug, PartialEq)]
struct Part {
    kind: ComponentType,
    tag: u32,
}

impl Component for Part {
    fn get_component_type_static() -> ComponentType {
        ComponentType::DRAW
    }
    fn get_component_type(&self) -> ComponentType {
        self.kind
    }
}

fn set_of(actions: &[Action]) -> BitVec {
    let mut b = BitVec::from_elem(ACTION_COUNT, false);
    for a in actions {
        b.set(a.index(), true);
    }
    b
}

#[test]
fn component_indices() {
    assert_eq!(ComponentType::DRAW.index(), 0);
    assert_eq!(ComponentType::TRANSFORM.index(), 1);
    assert_eq!(ComponentType::LENGTH_OF_ENUM.index(), 2);
}

#[test]
fn game_object_holds_one_component_per_kind() {
    let mut g: GameObject<Part> = GameObject::new();
    assert!(!g.has_component(ComponentType::DRAW));
    assert!(g.get_component(ComponentType::DRAW).is_none());
    assert_eq!(g.add_component(Part { kind: ComponentType::DRAW, tag: 1 }), (ComponentType::DRAW, true));
    assert!(g.has_component(ComponentType::DRAW));
    assert!(!g.has_component(ComponentType::TRANSFORM));
    assert_eq!(g.add_component(Part { kind: ComponentType::DRAW, tag: 2 }), (ComponentType::DRAW, false));
    assert_eq!(g.get_component(ComponentType::DRAW), Some(&Part { kind: ComponentType::DRAW, tag: 1 }));
    assert_eq!(g.add_component(Part { kind: ComponentType::TRANSFORM, tag: 3 }), (ComponentType::TRANSFORM, true));
    assert_eq!(g.get_component(ComponentType::TRANSFORM).map(|p| p.tag), Some(3));
    assert_eq!(
        g.add_component(Part { kind: ComponentType::LENGTH_OF_ENUM, tag: 4 }),
        (ComponentType::LENGTH_OF_ENUM, false)
    );
}

#[test]
fn game_object_children() {
    let mut g: GameObject<Part> = GameObject::new();
    let mut child: GameObject<Part> = GameObject::new();
    child.add_component(Part { kind: ComponentType::TRANSFORM, tag: 9 });
    g.add_child(child);
    g.add_child(GameObject::new());
    assert_eq!(g.children.len(), 2);
    assert!(g.children[0].has_component(ComponentType::TRANSFORM));
    assert!(!g.has_component(ComponentType::TRANSFORM));
}

#[test]
fn engine_state_actions() {
    let mut e = EngineState::new();
    assert!(e.running && !e.cursor_captured && e.cursor_state_dirty);
    assert_eq!(e.get_handled_actions(), set_of(&[Action::TERMINATE, Action::CURSOR_CAPTURE_TOGGLE]));
    assert_eq!(e.take_cursor_update(), Some(false));
    assert_eq!(e.take_cursor_update(), None);
    e.consume(set_of(&[Action::CURSOR_CAPTURE_TOGGLE]));
    assert!(e.cursor_captured && e.running);
    assert_eq!(e.take_cursor_update(), Some(true));
    e.consume(set_of(&[Action::CURSOR_CAPTURE_TOGGLE]));
    assert!(!e.cursor_captured);
    e.consume(set_of(&[Action::FORWARD]));
    assert!(e.running && !e.cursor_captured);
    e.consume(set_of(&[Action::TERMINATE]));
    assert!(!e.running);
}

#[test]
fn engine_state_window_events() {
    let mut e = EngineState::new();
    e.take_cursor_update();
    e.focus_changed(true);
    assert_eq!(e.take_cursor_update(), Some(true));
    e.focus_changed(false);
    assert_eq!(e.take_cursor_update(), Some(false));
    e.close_requested();
    assert!(!e.running);
}

#[test]
fn clock_runs_whole_ticks_and_keeps_remainder() {
    let mut c = EngineClock::new();
    let s = c.advance(16_666_665);
    assert_eq!(s.ticks, 0);
    assert_eq!(s.fps_report, None);
    let s = c.advance(1);
    assert_eq!(s.ticks, 1);
    let s = c.advance(3 * 16_666_666 + 5);
    assert_eq!(s.ticks, 3);
    let s = c.advance(16_666_661);
    assert_eq!(s.ticks, 1);
    assert_eq!(c.frames_per_second(), 4);
}

#[test]
fn clock_reports_frames_after_a_second() {
    let mut c = EngineClock::new();
    let s = c.advance(500_000_000);
    assert_eq!(s.fps_report, None);
    let s = c.advance(500_000_000);
    assert_eq!(s.fps_report, None);
    let s = c.advance(1);
    assert_eq!(s.fps_report, Some(3));
    assert_eq!(c.frames_per_second(), 0);
    let s = c.advance(1_000_000_001);
    assert_eq!(s.fps_report, Some(1));
    assert_eq!(s.ticks, 60);
}

#[test]
fn camera_and_car_handle_their_actions() {
    let camera = camera_handled_actions();
    assert_eq!(camera.len(), ACTION_COUNT);
    for i in 0..ACTION_COUNT {
        assert_eq!(camera[i], i != Action::CURSOR_CAPTURE_TOGGLE.index() && i != Action::TERMINATE.index());
    }
    assert_eq!(car_handled_actions(), set_of(&[Action::FORWARD, Action::BACK, Action::LEFT, Action::RIGHT]));
}

#[test]
fn camera_moves_in_order() {
    let m = camera_moves(&set_of(&[Action::CAM_RIGHT, Action::SPRINT, Action::FORWARD, Action::DOWN]));
    assert!(m.sprint);
    assert_eq!(m.steps, vec![CameraStep::Forward, CameraStep::Down, CameraStep::YawRight]);
    let m = camera_moves(&set_of(&[]));
    assert!(!m.sprint);
    assert!(m.steps.is_empty());
    let m = camera_moves(&set_of(&[
        Action::CAM_DOWN,
        Action::CAM_LEFT,
        Action::CAM_UP,
        Action::UP,
        Action::RIGHT,
        Action::BACK,
        Action::LEFT,
    ]));
    assert_eq!(
        m.steps,
        vec![
            CameraStep::Left,
            CameraStep::Back,
            CameraStep::Right,
            CameraStep::Up,
            CameraStep::PitchUp,
            CameraStep::YawLeft,
            CameraStep::PitchDown,
        ]
    );
}

#[test]
fn car_moves_in_order() {
    assert_eq!(
        car_moves(&set_of(&[Action::RIGHT, Action::BACK, Action::UP])),
        vec![CarStep::Decelerate, CarStep::TurnRight]
    );
    assert_eq!(
        car_moves(&set_of(&[Action::FORWARD, Action::LEFT])),
        vec![CarStep::Accelerate, CarStep::TurnLeft]
    );
}
