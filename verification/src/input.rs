//! Keyboard and mouse input: the set of requested actions, the routing of
//! requested actions to registered consumers, and the accumulated mouse motion.
//!
//! Consumers are held as opaque handles (`H` for action consumers, `M` for the
//! mouse consumer). The handler decides which consumer receives which actions;
//! the caller hands them over.
use crate::bits::{
    bits_and, bits_of, bv_and, bv_any, bv_clone, bv_from_elem, bv_get, bv_len, bv_none, bv_set, no_bit_set,
    uniform_bits,
};
use crate::text::{decimal, decimal_chars};
use bit_vec::BitVec;
use vstd::prelude::*;
use vstd::string::*;

verus! {

/// Actions a key can request. `LENGTH_OF_ENUM` counts the others and names no action.
#[allow(non_camel_case_types)]
#[derive(Clone, Copy, PartialEq, Eq, Structural, Debug)]
pub enum Action {
    FORWARD,
    BACK,
    LEFT,
    RIGHT,
    UP,
    DOWN,
    SPRINT,
    CAM_UP,
    CAM_DOWN,
    CAM_LEFT,
    CAM_RIGHT,
    CURSOR_CAPTURE_TOGGLE,
    TERMINATE,
    LENGTH_OF_ENUM,
}

/// When a consumer receives its actions: on the key event itself, or once per engine tick.
#[derive(Clone, Copy, PartialEq, Eq, Structural, Debug)]
pub enum ActionType {
    IMMEDIATE,
    TICK,
}

/// Whether a key or button went down or up.
#[derive(Clone, Copy, PartialEq, Eq, Structural, Debug)]
pub enum KeyEventState {
    PRESSED,
    RELEASED,
}

/// A mouse button as reported by the window system.
#[derive(Clone, Copy, PartialEq, Eq, Structural, Debug)]
pub enum MouseButton {
    Left,
    Right,
    Middle,
    Other(u8),
}

/// The number of actions; every action bit set has this many bits.
pub const ACTION_COUNT: usize = 13;

/// Position of an action in an action bit set (`LENGTH_OF_ENUM` maps to `ACTION_COUNT`).
pub open spec fn action_index(a: Action) -> int {
    match a {
        Action::FORWARD => 0,
        Action::BACK => 1,
        Action::LEFT => 2,
        Action::RIGHT => 3,
        Action::UP => 4,
        Action::DOWN => 5,
        Action::SPRINT => 6,
        Action::CAM_UP => 7,
        Action::CAM_DOWN => 8,
        Action::CAM_LEFT => 9,
        Action::CAM_RIGHT => 10,
        Action::CURSOR_CAPTURE_TOGGLE => 11,
        Action::TERMINATE => 12,
        Action::LENGTH_OF_ENUM => 13,
    }
}

impl Action {
    /// Position of this action in an action bit set.
    pub fn index(&self) -> (r: usize)
        ensures
            r == action_index(*self),
    {
        match self {
            Action::FORWARD => 0,
            Action::BACK => 1,
            Action::LEFT => 2,
            Action::RIGHT => 3,
            Action::UP => 4,
            Action::DOWN => 5,
            Action::SPRINT => 6,
            Action::CAM_UP => 7,
            Action::CAM_DOWN => 8,
            Action::CAM_LEFT => 9,
            Action::CAM_RIGHT => 10,
            Action::CURSOR_CAPTURE_TOGGLE => 11,
            Action::TERMINATE => 12,
            Action::LENGTH_OF_ENUM => 13,
        }
    }
}

pub const W_SCAN_CODE: u32 = 17;
pub const A_SCAN_CODE: u32 = 30;
pub const S_SCAN_CODE: u32 = 31;
pub const D_SCAN_CODE: u32 = 32;
pub const F_SCAN_CODE: u32 = 33;
pub const UP_SCAN_CODE: u32 = 103;
pub const LEFT_SCAN_CODE: u32 = 105;
pub const DOWN_SCAN_CODE: u32 = 108;
pub const RIGHT_SCAN_CODE: u32 = 106;
pub const ESC_SCAN_CODE: u32 = 1;
pub const SPACE_SCAN_CODE: u32 = 57;
pub const LSHIFT_SCAN_CODE: u32 = 42;
pub const LCTRL_SCAN_CODE: u32 = 29;

/// The action a keyboard scancode is bound to, if any.
pub open spec fn scancode_action(code: u32) -> Option<Action> {
    if code == W_SCAN_CODE { Some(Action::FORWARD) }
    else if code == A_SCAN_CODE { Some(Action::LEFT) }
    else if code == S_SCAN_CODE { Some(Action::BACK) }
    else if code == D_SCAN_CODE { Some(Action::RIGHT) }
    else if code == SPACE_SCAN_CODE { Some(Action::UP) }
    else if code == LCTRL_SCAN_CODE { Some(Action::DOWN) }
    else if code == LSHIFT_SCAN_CODE { Some(Action::SPRINT) }
    else if code == UP_SCAN_CODE { Some(Action::CAM_UP) }
    else if code == LEFT_SCAN_CODE { Some(Action::CAM_LEFT) }
    else if code == DOWN_SCAN_CODE { Some(Action::CAM_DOWN) }
    else if code == RIGHT_SCAN_CODE { Some(Action::CAM_RIGHT) }
    else if code == ESC_SCAN_CODE { Some(Action::TERMINATE) }
    else if code == F_SCAN_CODE { Some(Action::CURSOR_CAPTURE_TOGGLE) }
    else { None }
}

/// Whether `code` is one of the thirteen bound scancodes: W, A, S, D, space, left
/// control, left shift, the four arrows, escape and F.
pub open spec fn is_bound_scancode(code: u32) -> bool {
    code == 17 || code == 30 || code == 31 || code == 32 || code == 57 || code == 29 || code == 42 || code == 103
        || code == 105 || code == 108 || code == 106 || code == 1 || code == 33
}

/// Binding law: exactly the thirteen bound scancodes map to an action, and they map to
/// thirteen different actions, none of them `LENGTH_OF_ENUM`; a key event for any other
/// scancode leaves the action bits as they are.
pub proof fn law_only_bound_scancodes_act(code: u32, other: u32, actions: Seq<bool>, state: KeyEventState)
    ensures
        scancode_action(code).is_some() <==> is_bound_scancode(code),
        scancode_action(code) matches Some(a) ==> a != Action::LENGTH_OF_ENUM && 0 <= action_index(a)
            < ACTION_COUNT,
        !is_bound_scancode(code) ==> key_update(actions, code, state) == actions,
        code != other && scancode_action(code).is_some() ==> scancode_action(code) != scancode_action(other),
{
}

/// The action a keyboard scancode is bound to, if any.
pub fn action_for_scancode(code: u32) -> (r: Option<Action>)
    ensures
        r == scancode_action(code),
        r.is_some() <==> is_bound_scancode(code),
{
    if code == W_SCAN_CODE { Some(Action::FORWARD) }
    else if code == A_SCAN_CODE { Some(Action::LEFT) }
    else if code == S_SCAN_CODE { Some(Action::BACK) }
    else if code == D_SCAN_CODE { Some(Action::RIGHT) }
    else if code == SPACE_SCAN_CODE { Some(Action::UP) }
    else if code == LCTRL_SCAN_CODE { Some(Action::DOWN) }
    else if code == LSHIFT_SCAN_CODE { Some(Action::SPRINT) }
    else if code == UP_SCAN_CODE { Some(Action::CAM_UP) }
    else if code == LEFT_SCAN_CODE { Some(Action::CAM_LEFT) }
    else if code == DOWN_SCAN_CODE { Some(Action::CAM_DOWN) }
    else if code == RIGHT_SCAN_CODE { Some(Action::CAM_RIGHT) }
    else if code == ESC_SCAN_CODE { Some(Action::TERMINATE) }
    else if code == F_SCAN_CODE { Some(Action::CURSOR_CAPTURE_TOGGLE) }
    else { None }
}

/// The action bits after a key event: a bound key sets its action's bit to whether
/// the key is down; any other key leaves the bits as they are.
pub open spec fn key_update(actions: Seq<bool>, code: u32, state: KeyEventState) -> Seq<bool> {
    match scancode_action(code) {
        Some(a) => actions.update(action_index(a), state == KeyEventState::PRESSED),
        None => actions,
    }
}

/// The word naming a key state in messages.
pub open spec fn state_word(state: KeyEventState) -> Seq<char> {
    if state == KeyEventState::PRESSED { "pressed"@ } else { "released"@ }
}

/// The message reported for a key that is bound to no action.
pub open spec fn unmapped_key_text(code: u32, state: KeyEventState) -> Seq<char> {
    "Unmapped key "@ + decimal_chars(code as nat) + " "@ + state_word(state)
}

/// The message reported for a mouse button event, if the button is one that is reported.
pub open spec fn mouse_button_text(button: MouseButton, state: KeyEventState) -> Option<Seq<char>> {
    match button {
        MouseButton::Left => Some("Left mouse "@ + state_word(state) + "!"@),
        MouseButton::Right => Some("Right mouse "@ + state_word(state) + "!"@),
        MouseButton::Middle => Some("Middle mouse "@ + state_word(state) + "!"@),
        MouseButton::Other(_) => None,
    }
}

fn state_str(state: KeyEventState) -> (s: &'static str)
    ensures
        s@ == state_word(state),
{
    if state == KeyEventState::PRESSED {
        proof { reveal_strlit("pressed"); }
        "pressed"
    } else {
        proof { reveal_strlit("released"); }
        "released"
    }
}

fn unmapped_key_message(code: u32, state: KeyEventState) -> (s: String)
    ensures
        s@ == unmapped_key_text(code, state),
{
    let mut s = String::from_str("Unmapped key ");
    let digits = decimal(code);
    s.append(digits.as_str());
    s.append(" ");
    s.append(state_str(state));
    proof {
        reveal_strlit("Unmapped key ");
        reveal_strlit(" ");
    }
    s
}

/// The message for a mouse button event: the left, right and middle buttons are
/// reported, other buttons are not mapped to anything.
pub fn mouse_button_message(button: MouseButton, state: KeyEventState) -> (r: Option<String>)
    ensures
        match r {
            Some(s) => mouse_button_text(button, state) == Some(s@),
            None => mouse_button_text(button, state).is_none(),
        },
{
    let head = match button {
        MouseButton::Left => "Left mouse ",
        MouseButton::Right => "Right mouse ",
        MouseButton::Middle => "Middle mouse ",
        MouseButton::Other(_) => {
            return None;
        },
    };
    proof {
        reveal_strlit("Left mouse ");
        reveal_strlit("Right mouse ");
        reveal_strlit("Middle mouse ");
        reveal_strlit("!");
    }
    let mut s = String::from_str(head);
    s.append(state_str(state));
    s.append("!");
    Some(s)
}


/// Whether no bit is set in both `a` and `b`.
pub open spec fn disjoint_bits(a: Seq<bool>, b: Seq<bool>) -> bool {
    forall|i: int| 0 <= i < a.len() && i < b.len() ==> !(#[trigger] a[i] && #[trigger] b[i])
}

/// Whether every two distinct sets of `sets` are disjoint.
pub open spec fn pairwise_disjoint(sets: Seq<Seq<bool>>) -> bool {
    forall|j: int, k: int|
        0 <= j < sets.len() && 0 <= k < sets.len() && j != k ==> disjoint_bits(
            #[trigger] sets[j],
            #[trigger] sets[k],
        )
}

/// Whether every set of `sets` has one bit per action.
pub open spec fn all_action_sized(sets: Seq<Seq<bool>>) -> bool {
    forall|j: int| 0 <= j < sets.len() ==> (#[trigger] sets[j]).len() == ACTION_COUNT
}

/// The actions handed to consumers: in registration order, each consumer whose
/// registered set meets the requested `actions` receives that intersection, paired
/// with its position; consumers whose intersection is empty receive nothing.
pub open spec fn deliveries(actions: Seq<bool>, sets: Seq<Seq<bool>>) -> Seq<(int, Seq<bool>)>
    decreases sets.len(),
{
    if sets.len() == 0 {
        seq![]
    } else {
        let earlier = deliveries(actions, sets.drop_last());
        let meet = bits_and(actions, sets.last());
        if no_bit_set(meet) {
            earlier
        } else {
            earlier.push((sets.len() - 1, meet))
        }
    }
}

/// Routing law: when no action is registered by two consumers, each delivery goes to
/// a distinct consumer (in registration order) and carries exactly the requested actions
/// that this consumer registered, never an empty set; every requested action that a
/// consumer registered reaches that consumer; no action reaches two consumers; and when
/// nothing is requested nothing is delivered.
pub proof fn law_deliveries_route_each_action_once(actions: Seq<bool>, sets: Seq<Seq<bool>>)
    requires
        actions.len() == ACTION_COUNT,
        all_action_sized(sets),
        pairwise_disjoint(sets),
    ensures
        ({
            let d = deliveries(actions, sets);
            &&& forall|k: int|
                0 <= k < d.len() ==> {
                    &&& 0 <= (#[trigger] d[k]).0 < sets.len()
                    &&& d[k].1 == bits_and(actions, sets[d[k].0])
                    &&& !no_bit_set(d[k].1)
                }
            &&& forall|k1: int, k2: int| 0 <= k1 < k2 < d.len() ==> (#[trigger] d[k1]).0 < (#[trigger] d[k2]).0
            &&& forall|j: int, b: int|
                0 <= j < sets.len() && 0 <= b < ACTION_COUNT && actions[b] && #[trigger] sets[j][b] ==> exists|k: int|
                    0 <= k < d.len() && (#[trigger] d[k]).0 == j
            &&& forall|k1: int, k2: int|
                0 <= k1 < d.len() && 0 <= k2 < d.len() && k1 != k2 ==> disjoint_bits(
                    (#[trigger] d[k1]).1,
                    (#[trigger] d[k2]).1,
                )
            &&& no_bit_set(actions) ==> d.len() == 0
        }),
    decreases sets.len(),
{
    let d = deliveries(actions, sets);
    if sets.len() == 0 {
        return;
    }
    let prev = sets.drop_last();
    let n = sets.len() as int;
    assert forall|j: int| 0 <= j < prev.len() implies (#[trigger] prev[j]).len() == ACTION_COUNT by {
        assert(prev[j] == sets[j]);
    }
    assert forall|j: int, k: int| 0 <= j < prev.len() && 0 <= k < prev.len() && j != k implies disjoint_bits(
        #[trigger] prev[j],
        #[trigger] prev[k],
    ) by {
        assert(prev[j] == sets[j]);
        assert(prev[k] == sets[k]);
    }
    law_deliveries_route_each_action_once(actions, prev);
    let dp = deliveries(actions, prev);
    let meet = bits_and(actions, sets.last());
    assert(sets.last() == sets[n - 1]);
    assert forall|k: int| 0 <= k < dp.len() implies (#[trigger] dp[k]).0 < n - 1 && prev[dp[k].0] == sets[dp[k].0] by {}
    if no_bit_set(meet) {
        assert(d == dp);
        assert forall|j: int, b: int|
            0 <= j < sets.len() && 0 <= b < ACTION_COUNT && actions[b] && #[trigger] sets[j][b] implies exists|k: int|
            0 <= k < d.len() && (#[trigger] d[k]).0 == j by {
            if j == n - 1 {
                assert(meet[b]);
            } else {
                assert(prev[j] == sets[j]);
                assert(prev[j][b]);
            }
        }
    } else {
        assert(d == dp.push((n - 1, meet)));
        assert forall|k: int| 0 <= k < d.len() implies {
            &&& 0 <= (#[trigger] d[k]).0 < sets.len()
            &&& d[k].1 == bits_and(actions, sets[d[k].0])
            &&& !no_bit_set(d[k].1)
        } by {
            if k < dp.len() {
                assert(d[k] == dp[k]);
            }
        }
        assert forall|k1: int, k2: int| 0 <= k1 < k2 < d.len() implies (#[trigger] d[k1]).0 < (#[trigger] d[k2]).0 by {
            assert(d[k1] == dp[k1]);
            if k2 < dp.len() {
                assert(d[k2] == dp[k2]);
            }
        }
        assert forall|j: int, b: int|
            0 <= j < sets.len() && 0 <= b < ACTION_COUNT && actions[b] && #[trigger] sets[j][b] implies exists|k: int|
            0 <= k < d.len() && (#[trigger] d[k]).0 == j by {
            if j == n - 1 {
                assert(d[dp.len() as int].0 == j);
            } else {
                assert(prev[j] == sets[j]);
                assert(prev[j][b]);
                let k = choose|k: int| 0 <= k < dp.len() && (#[trigger] dp[k]).0 == j;
                assert(d[k] == dp[k]);
            }
        }
        assert forall|k1: int, k2: int| 0 <= k1 < d.len() && 0 <= k2 < d.len() && k1 != k2 implies disjoint_bits(
            (#[trigger] d[k1]).1,
            (#[trigger] d[k2]).1,
        ) by {
            if k1 < dp.len() && k2 < dp.len() {
                assert(d[k1] == dp[k1]);
                assert(d[k2] == dp[k2]);
            } else if k1 < dp.len() {
                assert(d[k1] == dp[k1]);
                let j1 = dp[k1].0;
                assert(disjoint_bits(sets[j1], sets[n - 1]));
                assert forall|b: int| 0 <= b < d[k1].1.len() && b < d[k2].1.len() implies !(#[trigger] d[k1].1[b]
                    && #[trigger] d[k2].1[b]) by {
                    assert(!(sets[j1][b] && sets[n - 1][b]));
                }
            } else {
                assert(d[k2] == dp[k2]);
                let j2 = dp[k2].0;
                assert(disjoint_bits(sets[n - 1], sets[j2]));
                assert forall|b: int| 0 <= b < d[k1].1.len() && b < d[k2].1.len() implies !(#[trigger] d[k1].1[b]
                    && #[trigger] d[k2].1[b]) by {
                    assert(!(sets[n - 1][b] && sets[j2][b]));
                }
            }
        }
        if no_bit_set(actions) {
            assert(no_bit_set(meet));
        }
    }
}

/// Key law: a key event changes at most the bit of the action its key is bound to;
/// pressing a bound key requests its action, and releasing it afterwards leaves the
/// action unrequested, whatever was requested before.
pub proof fn law_key_press_then_release(actions: Seq<bool>, code: u32)
    requires
        actions.len() == ACTION_COUNT,
    ensures
        forall|i: int|
            0 <= i < ACTION_COUNT && (scancode_action(code) matches Some(a) ==> i != action_index(a)) ==> #[trigger] key_update(
                actions,
                code,
                KeyEventState::PRESSED,
            )[i] == actions[i],
        scancode_action(code) matches Some(a) ==> key_update(actions, code, KeyEventState::PRESSED)[action_index(a)],
        key_update(key_update(actions, code, KeyEventState::PRESSED), code, KeyEventState::RELEASED) == key_update(
            actions,
            code,
            KeyEventState::RELEASED,
        ),
        scancode_action(code) matches Some(a) ==> !key_update(
            key_update(actions, code, KeyEventState::PRESSED),
            code,
            KeyEventState::RELEASED,
        )[action_index(a)],
{
    match scancode_action(code) {
        Some(a) => {
            assert(key_update(key_update(actions, code, KeyEventState::PRESSED), code, KeyEventState::RELEASED)
                =~= key_update(actions, code, KeyEventState::RELEASED));
        },
        None => {},
    }
}

/// Input law: once a consumer has registered the action a key is bound to, pressing
/// that key delivers the action to that consumer, and to no other consumer.
pub proof fn law_pressed_key_reaches_its_consumer(
    actions: Seq<bool>,
    sets: Seq<Seq<bool>>,
    code: u32,
    a: Action,
    j: int,
)
    requires
        actions.len() == ACTION_COUNT,
        all_action_sized(sets),
        pairwise_disjoint(sets),
        scancode_action(code) == Some(a),
        0 <= j < sets.len(),
        sets[j][action_index(a)],
    ensures
        ({
            let d = deliveries(key_update(actions, code, KeyEventState::PRESSED), sets);
            &&& exists|k: int| 0 <= k < d.len() && (#[trigger] d[k]).0 == j && d[k].1[action_index(a)]
            &&& forall|k: int| 0 <= k < d.len() && (#[trigger] d[k]).0 != j ==> !d[k].1[action_index(a)]
        }),
{
    let pressed = key_update(actions, code, KeyEventState::PRESSED);
    law_key_press_then_release(actions, code);
    law_deliveries_route_each_action_once(pressed, sets);
    let d = deliveries(pressed, sets);
    let b = action_index(a);
    assert(pressed[b]);
    assert(sets[j][b]);
    let k = choose|k: int| 0 <= k < d.len() && (#[trigger] d[k]).0 == j;
    assert(d[k].1 == bits_and(pressed, sets[j]));
    assert(d[k].1[b]);
    assert forall|k2: int| 0 <= k2 < d.len() && (#[trigger] d[k2]).0 != j implies !d[k2].1[b] by {
        let j2 = d[k2].0;
        assert(d[k2].1 == bits_and(pressed, sets[j2]));
        assert(disjoint_bits(sets[j], sets[j2]));
        assert(!(sets[j][b] && sets[j2][b]));
    }
}

/// The requested actions and the accumulated, not yet delivered, mouse motion.
pub struct InputState {
    actions: BitVec,
    mouse_delta: (i32, i32),
}

impl InputState {
    /// The requested actions, one bit per action.
    pub closed spec fn actions(&self) -> Seq<bool> {
        bits_of(self.actions)
    }

    /// The mouse motion accumulated since the last delivery.
    pub closed spec fn mouse_delta(&self) -> (i32, i32) {
        self.mouse_delta
    }

    /// The state holds one bit per action.
    pub open spec fn wf(&self) -> bool {
        self.actions().len() == ACTION_COUNT
    }

    /// No action requested, no motion accumulated.
    pub fn new() -> (s: InputState)
        ensures
            s.wf(),
            s.actions() == uniform_bits(ACTION_COUNT as nat, false),
            s.mouse_delta() == (0i32, 0i32),
    {
        InputState { actions: bv_from_elem(ACTION_COUNT, false), mouse_delta: (0, 0) }
    }

    /// Records a key event. A key bound to an action sets that action's bit to whether
    /// the key is down and yields `None`; any other key changes nothing and yields the
    /// message that reports it.
    pub fn update_key(&mut self, scancode: u32, event_state: KeyEventState) -> (message: Option<String>)
        requires
            old(self).wf(),
        ensures
            final(self).wf(),
            final(self).actions() == key_update(old(self).actions(), scancode, event_state),
            final(self).mouse_delta() == old(self).mouse_delta(),
            message.is_none() == scancode_action(scancode).is_some(),
            message matches Some(m) ==> m@ == unmapped_key_text(scancode, event_state),
    {
        match action_for_scancode(scancode) {
            Some(action) => {
                let idx = action.index();
                bv_set(&mut self.actions, idx, event_state == KeyEventState::PRESSED);
                None
            },
            None => Some(unmapped_key_message(scancode, event_state)),
        }
    }

    /// Whether `action` is requested.
    pub fn action_requested(&self, action: Action) -> (r: bool)
        requires
            self.wf(),
            action != Action::LENGTH_OF_ENUM,
        ensures
            r == self.actions()[action_index(action)],
    {
        let idx = action.index();
        match bv_get(&self.actions, idx) {
            Some(b) => b,
            None => false,
        }
    }

    /// Whether some action is requested.
    pub fn has_actions(&self) -> (r: bool)
        ensures
            r == !no_bit_set(self.actions()),
    {
        !bv_none(&self.actions)
    }

    /// Adds a mouse motion to the accumulated motion; each motion is counted once, so
    /// the accumulated motion is the sum of the motions since it was last taken (the
    /// rule `InputHandler::update_mouse_movement` follows).
    pub fn update_mouse_movement(&mut self, mouse_delta: (i32, i32))
        requires
            i32::MIN <= old(self).mouse_delta().0 + mouse_delta.0 <= i32::MAX,
            i32::MIN <= old(self).mouse_delta().1 + mouse_delta.1 <= i32::MAX,
        ensures
            final(self).actions() == old(self).actions(),
            final(self).mouse_delta().0 == old(self).mouse_delta().0 + mouse_delta.0,
            final(self).mouse_delta().1 == old(self).mouse_delta().1 + mouse_delta.1,
    {
        self.mouse_delta.0 = self.mouse_delta.0 + mouse_delta.0;
        self.mouse_delta.1 = self.mouse_delta.1 + mouse_delta.1;
    }

    /// Returns the accumulated motion and clears it.
    pub fn get_and_clear_mouse_delta(&mut self) -> (r: (i32, i32))
        ensures
            r == old(self).mouse_delta(),
            final(self).mouse_delta() == (0i32, 0i32),
            final(self).actions() == old(self).actions(),
    {
        let current = self.mouse_delta;
        self.mouse_delta = (0, 0);
        current
    }
}


proof fn lemma_insert_disjoint(a: Seq<Seq<bool>>, b: Seq<Seq<bool>>, s: Seq<bool>)
    requires
        pairwise_disjoint(a + b),
        forall|j: int| 0 <= j < (a + b).len() ==> disjoint_bits(s, #[trigger] (a + b)[j]),
        all_action_sized(a + b),
        s.len() == ACTION_COUNT,
    ensures
        pairwise_disjoint(a.push(s) + b),
        pairwise_disjoint(a + b.push(s)),
        all_action_sized(a.push(s) + b),
        all_action_sized(a + b.push(s)),
{
    let ab = a + b;
    let x = a.push(s) + b;
    assert forall|j: int, k: int|
        0 <= j < x.len() && 0 <= k < x.len() && j != k implies disjoint_bits(#[trigger] x[j], #[trigger] x[k]) by {
        let jj = if j < a.len() { j } else { j - 1 };
        let kk = if k < a.len() { k } else { k - 1 };
        if j == a.len() {
            assert(x[k] == ab[kk]);
            assert(disjoint_bits(s, ab[kk]));
        } else if k == a.len() {
            assert(x[j] == ab[jj]);
            assert(disjoint_bits(s, ab[jj]));
        } else {
            assert(x[j] == ab[jj]);
            assert(x[k] == ab[kk]);
        }
    }
    assert forall|j: int| 0 <= j < x.len() implies (#[trigger] x[j]).len() == ACTION_COUNT by {
        if j < a.len() {
            assert(x[j] == ab[j]);
        } else if j > a.len() {
            assert(x[j] == ab[j - 1]);
        }
    }
    let y = a + b.push(s);
    assert(y =~= ab.push(s));
    assert forall|j: int| 0 <= j < y.len() implies (#[trigger] y[j]).len() == ACTION_COUNT by {
        if j < ab.len() {
            assert(y[j] == ab[j]);
        }
    }
    assert forall|j: int, k: int|
        0 <= j < y.len() && 0 <= k < y.len() && j != k implies disjoint_bits(#[trigger] y[j], #[trigger] y[k]) by {
        if j == ab.len() {
            assert(disjoint_bits(s, ab[k]));
        } else if k == ab.len() {
            assert(disjoint_bits(s, ab[j]));
        } else {
            assert(y[j] == ab[j]);
            assert(y[k] == ab[k]);
        }
    }
}

/// A registered action consumer: the actions it handles and its handle.
struct Consumer<H> {
    actions: BitVec,
    ptr: H,
}

/// The action sets of a list of consumers, in registration order.
spec fn consumer_sets<H>(cs: Seq<Consumer<H>>) -> Seq<Seq<bool>> {
    cs.map_values(|c: Consumer<H>| bits_of(c.actions))
}

/// The handles of a list of consumers, in registration order.
spec fn consumer_handles<H>(cs: Seq<Consumer<H>>) -> Seq<H> {
    cs.map_values(|c: Consumer<H>| c.ptr)
}

/// Whether `r` hands out exactly the deliveries of `actions` over `cs`, each with the
/// handle of the consumer it is for.
spec fn delivered_as<H>(r: Seq<(&H, BitVec)>, actions: Seq<bool>, cs: Seq<Consumer<H>>) -> bool {
    let d = deliveries(actions, consumer_sets(cs));
    &&& r.len() == d.len()
    &&& forall|k: int|
        0 <= k < r.len() ==> {
            &&& *(#[trigger] r[k]).0 == consumer_handles(cs)[d[k].0]
            &&& bits_of(r[k].1) == d[k].1
        }
}

proof fn lemma_deliveries_bounds(actions: Seq<bool>, sets: Seq<Seq<bool>>)
    ensures
        deliveries(actions, sets).len() <= sets.len(),
        forall|k: int|
            0 <= k < deliveries(actions, sets).len() ==> 0 <= #[trigger] deliveries(
                actions,
                sets,
            )[k].0 < sets.len(),
    decreases sets.len(),
{
    if sets.len() > 0 {
        lemma_deliveries_bounds(actions, sets.drop_last());
    }
}

/// Hands out the intersections of `actions` with each consumer's set, in order.
fn deliver<'a, H>(actions: &BitVec, cs: &'a Vec<Consumer<H>>) -> (r: Vec<(&'a H, BitVec)>)
    requires
        bits_of(*actions).len() == ACTION_COUNT,
        all_action_sized(consumer_sets(cs@)),
    ensures
        delivered_as(r@, bits_of(*actions), cs@),
{
    let mut r: Vec<(&'a H, BitVec)> = Vec::new();
    let n = cs.len();
    let mut i: usize = 0;
    while i < n
        invariant
            n == cs@.len(),
            0 <= i <= n,
            bits_of(*actions).len() == ACTION_COUNT,
            all_action_sized(consumer_sets(cs@)),
            delivered_as(r@, bits_of(*actions), cs@.take(i as int)),
        decreases n - i,
    {
        let ghost before = cs@.take(i as int);
        let ghost after = cs@.take(i + 1);
        assert(consumer_sets(after).drop_last() =~= consumer_sets(before));
        assert(consumer_sets(after).last() == bits_of(cs@[i as int].actions));
        assert(consumer_sets(cs@)[i as int] == bits_of(cs@[i as int].actions));
        proof { lemma_deliveries_bounds(bits_of(*actions), consumer_sets(before)); }
        let mut meet = bv_clone(actions);
        bv_and(&mut meet, &cs[i].actions);
        assert(bits_of(meet) =~= bits_and(bits_of(*actions), consumer_sets(after).last()));
        if bv_any(&meet) {
            r.push((&cs[i].ptr, meet));
        }
        assert forall|k: int| 0 <= k < r@.len() implies {
            &&& *(#[trigger] r@[k]).0 == consumer_handles(after)[deliveries(bits_of(*actions), consumer_sets(after))[k].0]
            &&& bits_of(r@[k].1) == deliveries(bits_of(*actions), consumer_sets(after))[k].1
        } by {
            let d0 = deliveries(bits_of(*actions), consumer_sets(before));
            if k < d0.len() {
                assert(consumer_handles(after)[d0[k].0] == consumer_handles(before)[d0[k].0]);
            }
        }
        i = i + 1;
    }
    assert(cs@.take(n as int) =~= cs@);
    r
}

/// Whether `actions` shares no bit with the set of any consumer of `cs`.
fn disjoint_from_all<H>(actions: &BitVec, cs: &Vec<Consumer<H>>) -> (r: bool)
    requires
        bits_of(*actions).len() == ACTION_COUNT,
        all_action_sized(consumer_sets(cs@)),
    ensures
        r == forall|j: int|
            0 <= j < consumer_sets(cs@).len() ==> disjoint_bits(bits_of(*actions), #[trigger] consumer_sets(cs@)[j]),
{
    let n = cs.len();
    let ghost sets = consumer_sets(cs@);
    let mut i: usize = 0;
    while i < n
        invariant
            n == cs@.len(),
            sets == consumer_sets(cs@),
            0 <= i <= n,
            bits_of(*actions).len() == ACTION_COUNT,
            all_action_sized(sets),
            forall|j: int| 0 <= j < i ==> disjoint_bits(bits_of(*actions), #[trigger] sets[j]),
        decreases n - i,
    {
        assert(sets[i as int] == bits_of(cs@[i as int].actions));
        let mut meet = bv_clone(actions);
        bv_and(&mut meet, &cs[i].actions);
        if bv_any(&meet) {
            assert(!disjoint_bits(bits_of(*actions), sets[i as int])) by {
                let w = choose|b: int| 0 <= b < bits_of(meet).len() && bits_of(meet)[b];
                assert(bits_of(*actions)[w] && sets[i as int][w]);
            }
            return false;
        }
        assert(disjoint_bits(bits_of(*actions), sets[i as int])) by {
            assert forall|b: int| 0 <= b < ACTION_COUNT implies !(bits_of(*actions)[b] && sets[i as int][b]) by {
                assert(!bits_of(meet)[b]);
            }
        }
        i = i + 1;
    }
    true
}

/// Routes requested actions to the consumers registered for them, and mouse motion
/// to the mouse consumer. `H` is the handle of an action consumer, `M` that of the
/// mouse consumer.
pub struct InputHandler<H, M> {
    state: InputState,
    tick_action_consumers: Vec<Consumer<H>>,
    immediate_action_consumers: Vec<Consumer<H>>,
    mouse_consumer: Option<M>,
}

impl<H, M> InputHandler<H, M> {
    /// The requested actions and accumulated mouse motion.
    pub closed spec fn input(&self) -> InputState {
        self.state
    }

    /// Action sets of the consumers served once per tick, in registration order.
    pub closed spec fn tick_sets(&self) -> Seq<Seq<bool>> {
        consumer_sets(self.tick_action_consumers@)
    }

    /// Handles of the consumers served once per tick, in registration order.
    pub closed spec fn tick_handles(&self) -> Seq<H> {
        consumer_handles(self.tick_action_consumers@)
    }

    /// Action sets of the consumers served on each key event, in registration order.
    pub closed spec fn immediate_sets(&self) -> Seq<Seq<bool>> {
        consumer_sets(self.immediate_action_consumers@)
    }

    /// Handles of the consumers served on each key event, in registration order.
    pub closed spec fn immediate_handles(&self) -> Seq<H> {
        consumer_handles(self.immediate_action_consumers@)
    }

    /// The registered mouse consumer.
    pub closed spec fn mouse(&self) -> Option<M> {
        self.mouse_consumer
    }

    /// Every registered action set, tick consumers first.
    pub open spec fn all_sets(&self) -> Seq<Seq<bool>> {
        self.tick_sets() + self.immediate_sets()
    }

    /// One bit per action everywhere, and no action registered by two consumers.
    pub open spec fn wf(&self) -> bool {
        &&& self.input().wf()
        &&& all_action_sized(self.all_sets())
        &&& pairwise_disjoint(self.all_sets())
    }

    /// Whether `set` may be registered: one bit per action, and no action already
    /// registered by another consumer.
    pub open spec fn registrable(&self, set: Seq<bool>) -> bool {
        &&& set.len() == ACTION_COUNT
        &&& forall|j: int| 0 <= j < self.all_sets().len() ==> disjoint_bits(set, #[trigger] self.all_sets()[j])
    }

    proof fn lemma_lists_sized(&self)
        requires
            self.wf(),
        ensures
            all_action_sized(self.tick_sets()),
            all_action_sized(self.immediate_sets()),
    {
        assert forall|j: int| 0 <= j < self.tick_sets().len() implies (#[trigger] self.tick_sets()[j]).len()
            == ACTION_COUNT by {
            assert(self.all_sets()[j] == self.tick_sets()[j]);
        }
        assert forall|j: int| 0 <= j < self.immediate_sets().len() implies (
        #[trigger] self.immediate_sets()[j]).len() == ACTION_COUNT by {
            assert(self.all_sets()[self.tick_sets().len() + j] == self.immediate_sets()[j]);
        }
    }

    /// A handler with no action requested, no motion, and no consumer.
    pub fn new() -> (h: Self)
        ensures
            h.wf(),
            h.input().actions() == uniform_bits(ACTION_COUNT as nat, false),
            h.input().mouse_delta() == (0i32, 0i32),
            h.tick_sets().len() == 0,
            h.immediate_sets().len() == 0,
            h.mouse().is_none(),
    {
        let h = InputHandler {
            state: InputState::new(),
            tick_action_consumers: Vec::new(),
            immediate_action_consumers: Vec::new(),
            mouse_consumer: None,
        };
        assert(h.all_sets() =~= Seq::<Seq<bool>>::empty());
        h
    }

    /// Records a key event (see `InputState::update_key`); the consumers served on key
    /// events then get their actions from `immediate_deliveries`.
    pub fn update_key(&mut self, scancode: u32, event_state: KeyEventState) -> (message: Option<String>)
        requires
            old(self).wf(),
        ensures
            final(self).wf(),
            final(self).input().actions() == key_update(old(self).input().actions(), scancode, event_state),
            final(self).input().mouse_delta() == old(self).input().mouse_delta(),
            final(self).tick_sets() == old(self).tick_sets(),
            final(self).tick_handles() == old(self).tick_handles(),
            final(self).immediate_sets() == old(self).immediate_sets(),
            final(self).immediate_handles() == old(self).immediate_handles(),
            final(self).mouse() == old(self).mouse(),
            message.is_none() == scancode_action(scancode).is_some(),
            message matches Some(m) ==> m@ == unmapped_key_text(scancode, event_state),
    {
        self.state.update_key(scancode, event_state)
    }

    /// Whether `actions` may be registered (see `registrable`).
    pub fn is_registrable(&self, actions: &BitVec) -> (r: bool)
        requires
            self.wf(),
        ensures
            r == self.registrable(bits_of(*actions)),
    {
        if bv_len(actions) != ACTION_COUNT {
            return false;
        }
        proof { self.lemma_lists_sized(); }
        let tick_ok = disjoint_from_all(actions, &self.tick_action_consumers);
        if !tick_ok {
            assert(!self.registrable(bits_of(*actions))) by {
                let j = choose|j: int|
                    0 <= j < self.tick_sets().len() && !disjoint_bits(bits_of(*actions), #[trigger] self.tick_sets()[j]);
                assert(self.all_sets()[j] == self.tick_sets()[j]);
            }
            return false;
        }
        let immediate_ok = disjoint_from_all(actions, &self.immediate_action_consumers);
        proof {
            let nt = self.tick_sets().len();
            if !immediate_ok {
                let j = choose|j: int|
                    0 <= j < self.immediate_sets().len() && !disjoint_bits(
                        bits_of(*actions),
                        #[trigger] self.immediate_sets()[j],
                    );
                assert(self.all_sets()[nt + j] == self.immediate_sets()[j]);
            } else {
                assert forall|j: int| 0 <= j < self.all_sets().len() implies disjoint_bits(
                    bits_of(*actions),
                    #[trigger] self.all_sets()[j],
                ) by {
                    if j < nt {
                        assert(self.all_sets()[j] == self.tick_sets()[j]);
                    } else {
                        assert(self.all_sets()[j] == self.immediate_sets()[j - nt]);
                    }
                }
            }
        }
        immediate_ok
    }

    /// Registers a consumer for the actions set in `actions_consumed`, served on key
    /// events (`IMMEDIATE`) or once per tick (`TICK`). No action may be registered twice.
    pub fn register_actions(&mut self, actions_consumed: BitVec, action_type: ActionType, consumer: H)
        requires
            old(self).wf(),
            old(self).registrable(bits_of(actions_consumed)),
        ensures
            final(self).wf(),
            final(self).input() == old(self).input(),
            final(self).mouse() == old(self).mouse(),
            action_type == ActionType::TICK ==> {
                &&& final(self).tick_sets() == old(self).tick_sets().push(bits_of(actions_consumed))
                &&& final(self).tick_handles() == old(self).tick_handles().push(consumer)
                &&& final(self).immediate_sets() == old(self).immediate_sets()
                &&& final(self).immediate_handles() == old(self).immediate_handles()
            },
            action_type == ActionType::IMMEDIATE ==> {
                &&& final(self).immediate_sets() == old(self).immediate_sets().push(bits_of(actions_consumed))
                &&& final(self).immediate_handles() == old(self).immediate_handles().push(consumer)
                &&& final(self).tick_sets() == old(self).tick_sets()
                &&& final(self).tick_handles() == old(self).tick_handles()
            },
    {
        let ghost s = bits_of(actions_consumed);
        let ghost t0 = self.tick_sets();
        let ghost i0 = self.immediate_sets();
        proof { lemma_insert_disjoint(t0, i0, s); }
        match action_type {
            ActionType::IMMEDIATE => {
                self.immediate_action_consumers.push(Consumer { actions: actions_consumed, ptr: consumer });
                assert(self.immediate_sets() =~= i0.push(s));
                assert(self.all_sets() =~= t0 + i0.push(s));
                assert(self.immediate_handles() =~= old(self).immediate_handles().push(consumer));
                assert(self.tick_handles() =~= old(self).tick_handles());
            },
            ActionType::TICK => {
                self.tick_action_consumers.push(Consumer { actions: actions_consumed, ptr: consumer });
                assert(self.tick_sets() =~= t0.push(s));
                assert(self.all_sets() =~= t0.push(s) + i0);
                assert(self.tick_handles() =~= old(self).tick_handles().push(consumer));
                assert(self.immediate_handles() =~= old(self).immediate_handles());
            },
        }
    }

    /// Registers the consumer of mouse motion, replacing any earlier one.
    pub fn register_mouse_movement(&mut self, consumer: M)
        requires
            old(self).wf(),
        ensures
            final(self).wf(),
            final(self).mouse() == Some(consumer),
            final(self).input() == old(self).input(),
            final(self).tick_sets() == old(self).tick_sets(),
            final(self).tick_handles() == old(self).tick_handles(),
            final(self).immediate_sets() == old(self).immediate_sets(),
            final(self).immediate_handles() == old(self).immediate_handles(),
    {
        self.mouse_consumer = Some(consumer);
    }

    /// The registered mouse consumer, if any.
    pub fn mouse_consumer(&self) -> (r: Option<&M>)
        ensures
            r.is_some() == self.mouse().is_some(),
            r matches Some(m) ==> self.mouse() == Some(*m),
    {
        match &self.mouse_consumer {
            Some(m) => Some(m),
            None => None,
        }
    }

    /// The mouse motion accumulated and not yet delivered.
    pub fn mouse_delta(&self) -> (r: (i32, i32))
        ensures
            r == self.input().mouse_delta(),
    {
        self.state.mouse_delta
    }

    /// Adds a mouse motion to the accumulated motion.
    pub fn update_mouse_movement(&mut self, mouse_delta: (i32, i32))
        requires
            old(self).wf(),
            i32::MIN <= old(self).input().mouse_delta().0 + mouse_delta.0 <= i32::MAX,
            i32::MIN <= old(self).input().mouse_delta().1 + mouse_delta.1 <= i32::MAX,
        ensures
            final(self).wf(),
            final(self).input().actions() == old(self).input().actions(),
            final(self).input().mouse_delta().0 == old(self).input().mouse_delta().0 + mouse_delta.0,
            final(self).input().mouse_delta().1 == old(self).input().mouse_delta().1 + mouse_delta.1,
            final(self).tick_sets() == old(self).tick_sets(),
            final(self).tick_handles() == old(self).tick_handles(),
            final(self).immediate_sets() == old(self).immediate_sets(),
            final(self).immediate_handles() == old(self).immediate_handles(),
            final(self).mouse() == old(self).mouse(),
    {
        self.state.update_mouse_movement(mouse_delta);
    }

    /// Ends a frame's mouse handling. With no accumulated motion nothing happens and
    /// `None` is returned. Otherwise the motion is cleared, and returned for delivery
    /// to the mouse consumer when the cursor is captured and a consumer is registered.
    pub fn mouse_movement_tick(&mut self, cursor_captured: bool) -> (r: Option<(i32, i32)>)
        requires
            old(self).wf(),
        ensures
            final(self).wf(),
            final(self).input().actions() == old(self).input().actions(),
            old(self).input().mouse_delta() == (0i32, 0i32) ==> r.is_none(),
            final(self).input().mouse_delta() == (0i32, 0i32),
            old(self).input().mouse_delta() != (0i32, 0i32) ==> r == (if cursor_captured && old(
                self,
            ).mouse().is_some() {
                Some(old(self).input().mouse_delta())
            } else {
                None
            }),
            final(self).tick_sets() == old(self).tick_sets(),
            final(self).tick_handles() == old(self).tick_handles(),
            final(self).immediate_sets() == old(self).immediate_sets(),
            final(self).immediate_handles() == old(self).immediate_handles(),
            final(self).mouse() == old(self).mouse(),
    {
        if self.state.mouse_delta.0 == 0 && self.state.mouse_delta.1 == 0 {
            return None;
        }
        let delta = self.state.get_and_clear_mouse_delta();
        if cursor_captured && self.mouse_consumer.is_some() {
            Some(delta)
        } else {
            None
        }
    }

    /// The message reporting a mouse button event (see `mouse_button_message`).
    pub fn update_mouse_button(&self, button: MouseButton, event_state: KeyEventState) -> (r: Option<String>)
        ensures
            match r {
                Some(s) => mouse_button_text(button, event_state) == Some(s@),
                None => mouse_button_text(button, event_state).is_none(),
            },
    {
        mouse_button_message(button, event_state)
    }

    /// The actions to hand to the consumers served on key events: each such consumer
    /// whose set meets the requested actions, paired with that intersection.
    pub fn immediate_deliveries(&self) -> (r: Vec<(&H, BitVec)>)
        requires
            self.wf(),
        ensures
            r@.len() == deliveries(self.input().actions(), self.immediate_sets()).len(),
            forall|k: int|
                0 <= k < r@.len() ==> {
                    let d = deliveries(self.input().actions(), self.immediate_sets());
                    &&& *(#[trigger] r@[k]).0 == self.immediate_handles()[d[k].0]
                    &&& bits_of(r@[k].1) == d[k].1
                },
    {
        proof { self.lemma_lists_sized(); }
        deliver(&self.state.actions, &self.immediate_action_consumers)
    }

    /// The actions to hand to the consumers served once per tick: each such consumer
    /// whose set meets the requested actions, paired with that intersection.
    pub fn actions_tick(&self) -> (r: Vec<(&H, BitVec)>)
        requires
            self.wf(),
        ensures
            r@.len() == deliveries(self.input().actions(), self.tick_sets()).len(),
            forall|k: int|
                0 <= k < r@.len() ==> {
                    let d = deliveries(self.input().actions(), self.tick_sets());
                    &&& *(#[trigger] r@[k]).0 == self.tick_handles()[d[k].0]
                    &&& bits_of(r@[k].1) == d[k].1
                },
    {
        proof { self.lemma_lists_sized(); }
        deliver(&self.state.actions, &self.tick_action_consumers)
    }
}

} // verus!
