//! What the game's objects do with delivered actions. The movements themselves are
//! applied by the caller; here it is decided which, and in what order.
use crate::bits::{bits_of, bv_from_elem, bv_get, bv_set};
use crate::input::{action_index, Action, ACTION_COUNT};
use bit_vec::BitVec;
use vstd::prelude::*;

verus! {

/// A game.
pub trait Game {}

/// One movement of the camera.
#[derive(Clone, Copy, PartialEq, Eq, Structural, Debug)]
pub enum CameraStep {
    Forward,
    Left,
    Back,
    Right,
    Up,
    Down,
    PitchUp,
    YawLeft,
    PitchDown,
    YawRight,
}

/// The camera's response to delivered actions: whether it moves at sprint speed, and
/// its movements in the order they are applied.
pub struct CameraMoves {
    pub sprint: bool,
    pub steps: Vec<CameraStep>,
}

/// One command to the car.
#[derive(Clone, Copy, PartialEq, Eq, Structural, Debug)]
pub enum CarStep {
    Accelerate,
    Decelerate,
    TurnLeft,
    TurnRight,
}

/// `x` alone if `b` holds, else nothing.
pub open spec fn item_if<T>(b: bool, x: T) -> Seq<T> {
    if b { seq![x] } else { seq![] }
}

/// Whether action `a` is set in `bits`.
pub open spec fn has_action(bits: Seq<bool>, a: Action) -> bool {
    bits[action_index(a)]
}

/// The items of `pairs` whose action is set in `bits`, in the order of `pairs`.
pub open spec fn selected<T>(bits: Seq<bool>, pairs: Seq<(Action, T)>) -> Seq<T>
    decreases pairs.len(),
{
    if pairs.len() == 0 {
        seq![]
    } else {
        selected(bits, pairs.drop_last()) + item_if(has_action(bits, pairs.last().0), pairs.last().1)
    }
}

/// The camera's movements and the actions that ask for them, in the order applied.
pub open spec fn camera_order() -> Seq<(Action, CameraStep)> {
    seq![
        (Action::FORWARD, CameraStep::Forward),
        (Action::LEFT, CameraStep::Left),
        (Action::BACK, CameraStep::Back),
        (Action::RIGHT, CameraStep::Right),
        (Action::UP, CameraStep::Up),
        (Action::DOWN, CameraStep::Down),
        (Action::CAM_UP, CameraStep::PitchUp),
        (Action::CAM_LEFT, CameraStep::YawLeft),
        (Action::CAM_DOWN, CameraStep::PitchDown),
        (Action::CAM_RIGHT, CameraStep::YawRight),
    ]
}

/// The car's commands and the actions that ask for them, in the order applied.
pub open spec fn car_order() -> Seq<(Action, CarStep)> {
    seq![
        (Action::FORWARD, CarStep::Accelerate),
        (Action::BACK, CarStep::Decelerate),
        (Action::LEFT, CarStep::TurnLeft),
        (Action::RIGHT, CarStep::TurnRight),
    ]
}

/// The camera's movements for the delivered actions: forward, left, back, right, up,
/// down, then pitch up, yaw left, pitch down, yaw right, each if its action is set.
pub open spec fn camera_steps(bits: Seq<bool>) -> Seq<CameraStep> {
    selected(bits, camera_order())
}

/// The car's commands for the delivered actions: accelerate, decelerate, turn left,
/// turn right, each if its action is set.
pub open spec fn car_steps(bits: Seq<bool>) -> Seq<CarStep> {
    selected(bits, car_order())
}

/// The items of `order` whose action is set in `actions`, in order.
fn select<T: Copy>(actions: &BitVec, order: &Vec<(Action, T)>) -> (r: Vec<T>)
    requires
        bits_of(*actions).len() >= ACTION_COUNT,
        forall|k: int| 0 <= k < order@.len() ==> action_index((#[trigger] order@[k]).0) < ACTION_COUNT,
    ensures
        r@ == selected(bits_of(*actions), order@),
{
    let mut r: Vec<T> = Vec::new();
    let n = order.len();
    let mut i: usize = 0;
    while i < n
        invariant
            n == order@.len(),
            0 <= i <= n,
            bits_of(*actions).len() >= ACTION_COUNT,
            forall|k: int| 0 <= k < order@.len() ==> action_index((#[trigger] order@[k]).0) < ACTION_COUNT,
            r@ == selected(bits_of(*actions), order@.take(i as int)),
        decreases n - i,
    {
        let (a, x) = order[i];
        assert(order@.take(i + 1).drop_last() =~= order@.take(i as int));
        assert(order@.take(i + 1).last() == order@[i as int]);
        assert(action_index(order@[i as int].0) < ACTION_COUNT);
        if bit_at(actions, a) {
            r.push(x);
        }
        assert(r@ =~= selected(bits_of(*actions), order@.take(i as int)) + item_if(
            has_action(bits_of(*actions), a),
            x,
        ));
        i = i + 1;
    }
    assert(order@.take(n as int) =~= order@);
    r
}

fn bit_at(b: &BitVec, a: Action) -> (r: bool)
    requires
        action_index(a) < bits_of(*b).len(),
    ensures
        r == has_action(bits_of(*b), a),
{
    match bv_get(b, a.index()) {
        Some(x) => x,
        None => false,
    }
}

/// The actions the camera handles: every movement and view action, that is every
/// action but toggling the cursor capture and terminating.
pub fn camera_handled_actions() -> (r: BitVec)
    ensures
        bits_of(r).len() == ACTION_COUNT,
        forall|i: int|
            0 <= i < ACTION_COUNT ==> #[trigger] bits_of(r)[i] == (i != action_index(Action::CURSOR_CAPTURE_TOGGLE)
                && i != action_index(Action::TERMINATE)),
{
    let mut handled = bv_from_elem(ACTION_COUNT, false);
    bv_set(&mut handled, Action::SPRINT.index(), true);
    bv_set(&mut handled, Action::FORWARD.index(), true);
    bv_set(&mut handled, Action::LEFT.index(), true);
    bv_set(&mut handled, Action::BACK.index(), true);
    bv_set(&mut handled, Action::RIGHT.index(), true);
    bv_set(&mut handled, Action::UP.index(), true);
    bv_set(&mut handled, Action::DOWN.index(), true);
    bv_set(&mut handled, Action::CAM_UP.index(), true);
    bv_set(&mut handled, Action::CAM_LEFT.index(), true);
    bv_set(&mut handled, Action::CAM_DOWN.index(), true);
    bv_set(&mut handled, Action::CAM_RIGHT.index(), true);
    handled
}

/// The actions the car handles: forward, back, left and right.
pub fn car_handled_actions() -> (r: BitVec)
    ensures
        bits_of(r).len() == ACTION_COUNT,
        forall|i: int| 0 <= i < ACTION_COUNT ==> #[trigger] bits_of(r)[i] == (i <= action_index(Action::RIGHT)),
{
    let mut handled = bv_from_elem(ACTION_COUNT, false);
    bv_set(&mut handled, Action::FORWARD.index(), true);
    bv_set(&mut handled, Action::BACK.index(), true);
    bv_set(&mut handled, Action::LEFT.index(), true);
    bv_set(&mut handled, Action::RIGHT.index(), true);
    handled
}

/// The camera's response to delivered actions (see `camera_steps`).
pub fn camera_moves(actions: &BitVec) -> (m: CameraMoves)
    requires
        bits_of(*actions).len() >= ACTION_COUNT,
    ensures
        m.sprint == has_action(bits_of(*actions), Action::SPRINT),
        m.steps@ == camera_steps(bits_of(*actions)),
{
    let sprint = bit_at(actions, Action::SPRINT);
    let order = vec![
        (Action::FORWARD, CameraStep::Forward),
        (Action::LEFT, CameraStep::Left),
        (Action::BACK, CameraStep::Back),
        (Action::RIGHT, CameraStep::Right),
        (Action::UP, CameraStep::Up),
        (Action::DOWN, CameraStep::Down),
        (Action::CAM_UP, CameraStep::PitchUp),
        (Action::CAM_LEFT, CameraStep::YawLeft),
        (Action::CAM_DOWN, CameraStep::PitchDown),
        (Action::CAM_RIGHT, CameraStep::YawRight),
    ];
    assert(order@ =~= camera_order());
    let steps = select(actions, &order);
    CameraMoves { sprint, steps }
}

/// The car's commands for delivered actions (see `car_steps`).
pub fn car_moves(actions: &BitVec) -> (steps: Vec<CarStep>)
    requires
        bits_of(*actions).len() >= ACTION_COUNT,
    ensures
        steps@ == car_steps(bits_of(*actions)),
{
    let order = vec![
        (Action::FORWARD, CarStep::Accelerate),
        (Action::BACK, CarStep::Decelerate),
        (Action::LEFT, CarStep::TurnLeft),
        (Action::RIGHT, CarStep::TurnRight),
    ];
    assert(order@ =~= car_order());
    select(actions, &order)
}

} // verus!
