//! The engine's own state (running, cursor capture) and its fixed-timestep clock.
use crate::bits::{bits_of, bv_from_elem, bv_get, bv_set};
use crate::input::{action_index, Action, ACTION_COUNT};
use bit_vec::BitVec;
use vstd::prelude::*;

verus! {

/// Whether the engine runs, whether the cursor is captured, and whether the window's
/// cursor must be brought in line with the capture flag.
pub struct EngineState {
    pub running: bool,
    pub cursor_captured: bool,
    pub cursor_state_dirty: bool,
}

impl EngineState {
    /// Running, cursor free, and cursor state to be applied.
    pub fn new() -> (s: EngineState)
        ensures
            s.running && !s.cursor_captured && s.cursor_state_dirty,
    {
        EngineState { running: true, cursor_captured: false, cursor_state_dirty: true }
    }

    /// The actions the engine handles: terminating and toggling the cursor capture.
    pub fn get_handled_actions(&self) -> (r: BitVec)
        ensures
            bits_of(r).len() == ACTION_COUNT,
            forall|i: int|
                0 <= i < ACTION_COUNT ==> #[trigger] bits_of(r)[i] == (i == action_index(Action::TERMINATE) || i
                    == action_index(Action::CURSOR_CAPTURE_TOGGLE)),
    {
        let mut handled = bv_from_elem(ACTION_COUNT, false);
        bv_set(&mut handled, Action::TERMINATE.index(), true);
        bv_set(&mut handled, Action::CURSOR_CAPTURE_TOGGLE.index(), true);
        handled
    }

    /// Applies delivered actions: terminating stops the engine, toggling flips the
    /// cursor capture and marks the cursor state to be applied.
    pub fn consume(&mut self, actions: BitVec)
        requires
            bits_of(actions).len() >= ACTION_COUNT,
        ensures
            final(self).running == (old(self).running && !bits_of(actions)[action_index(Action::TERMINATE)]),
            final(self).cursor_captured == (old(self).cursor_captured != bits_of(actions)[action_index(
                Action::CURSOR_CAPTURE_TOGGLE,
            )]),
            final(self).cursor_state_dirty == (old(self).cursor_state_dirty || bits_of(actions)[action_index(
                Action::CURSOR_CAPTURE_TOGGLE,
            )]),
    {
        if bit_at(&actions, Action::TERMINATE.index()) {
            self.running = false;
        }
        if bit_at(&actions, Action::CURSOR_CAPTURE_TOGGLE.index()) {
            self.cursor_captured = !self.cursor_captured;
            self.cursor_state_dirty = true;
        }
    }

    /// The window asked to close: the engine stops.
    pub fn close_requested(&mut self)
        ensures
            !final(self).running,
            final(self).cursor_captured == old(self).cursor_captured,
            final(self).cursor_state_dirty == old(self).cursor_state_dirty,
    {
        self.running = false;
    }

    /// The window gained or lost focus: the cursor is captured exactly while focused.
    pub fn focus_changed(&mut self, has_focus: bool)
        ensures
            final(self).running == old(self).running,
            final(self).cursor_captured == has_focus,
            final(self).cursor_state_dirty,
    {
        self.cursor_captured = has_focus;
        self.cursor_state_dirty = true;
    }

    /// If the cursor state must be applied, returns whether to capture it and marks it
    /// applied; otherwise returns `None`.
    pub fn take_cursor_update(&mut self) -> (r: Option<bool>)
        ensures
            r == (if old(self).cursor_state_dirty { Some(old(self).cursor_captured) } else { None }),
            !final(self).cursor_state_dirty,
            final(self).running == old(self).running,
            final(self).cursor_captured == old(self).cursor_captured,
    {
        if self.cursor_state_dirty {
            self.cursor_state_dirty = false;
            Some(self.cursor_captured)
        } else {
            None
        }
    }
}

fn bit_at(b: &BitVec, i: usize) -> (r: bool)
    requires
        i < bits_of(*b).len(),
    ensures
        r == bits_of(*b)[i as int],
{
    match bv_get(b, i) {
        Some(x) => x,
        None => false,
    }
}

/// Engine ticks per second.
pub const ENGINE_TARGET_HZ: u64 = 60;

/// Length of an engine tick in nanoseconds (one second divided by the tick rate).
pub const ENGINE_TIMESTEP_NANOS: u128 = 16_666_666;

/// Nanoseconds in a second.
pub const NANOS_PER_SECOND: u128 = 1_000_000_000;

/// The longest duration `std::time::Duration` holds, in nanoseconds.
pub const MAX_DURATION_NANOS: u128 = 18_446_744_073_709_551_615_999_999_999;

/// What a frame of the main loop does: how many engine ticks to run, and the frame
/// count to report when a second has passed.
pub struct FrameSchedule {
    pub ticks: u128,
    pub fps_report: Option<u32>,
}

/// Time not yet spent on engine ticks, time and frames since the last rate report.
pub struct EngineClock {
    engine_accumulator: u128,
    second_accumulator: u128,
    frames_per_second: u32,
}

impl EngineClock {
    /// Nanoseconds accumulated and not yet spent on ticks.
    pub closed spec fn engine_nanos(&self) -> nat {
        self.engine_accumulator as nat
    }

    /// Nanoseconds since the last frame rate report.
    pub closed spec fn second_nanos(&self) -> nat {
        self.second_accumulator as nat
    }

    /// Frames since the last frame rate report.
    pub closed spec fn frames(&self) -> nat {
        self.frames_per_second as nat
    }

    /// Nothing accumulated.
    pub fn new() -> (c: EngineClock)
        ensures
            c.engine_nanos() == 0 && c.second_nanos() == 0 && c.frames() == 0,
    {
        EngineClock { engine_accumulator: 0, second_accumulator: 0, frames_per_second: 0 }
    }

    /// Frames counted since the last report.
    pub fn frames_per_second(&self) -> (r: u32)
        ensures
            r == self.frames(),
    {
        self.frames_per_second
    }

    /// Whether a frame of `frame_nanos` can be accounted for: neither accumulated time
    /// would exceed the longest duration, nor the frame count its type.
    pub fn can_advance(&self, frame_nanos: u128) -> (r: bool)
        ensures
            r == (self.engine_nanos() + frame_nanos <= MAX_DURATION_NANOS && self.second_nanos() + frame_nanos
                <= MAX_DURATION_NANOS && self.frames() < u32::MAX),
    {
        frame_nanos <= MAX_DURATION_NANOS && self.engine_accumulator <= MAX_DURATION_NANOS - frame_nanos
            && self.second_accumulator <= MAX_DURATION_NANOS - frame_nanos && self.frames_per_second < u32::MAX
    }

    /// Accounts for a frame that took `frame_nanos`: the accumulated time is spent on
    /// as many whole ticks as it holds, the remainder is kept; the frame is counted,
    /// and once more than a second has passed the frame count is reported and both the
    /// count and the second's time start again from zero.
    pub fn advance(&mut self, frame_nanos: u128) -> (s: FrameSchedule)
        requires
            old(self).engine_nanos() + frame_nanos <= MAX_DURATION_NANOS,
            old(self).second_nanos() + frame_nanos <= MAX_DURATION_NANOS,
            old(self).frames() < u32::MAX,
        ensures
            s.ticks == (old(self).engine_nanos() + frame_nanos) / (ENGINE_TIMESTEP_NANOS as int),
            final(self).engine_nanos() == (old(self).engine_nanos() + frame_nanos) % (ENGINE_TIMESTEP_NANOS as int),
            old(self).second_nanos() + frame_nanos > NANOS_PER_SECOND ==> {
                &&& s.fps_report == Some((old(self).frames() + 1) as u32)
                &&& final(self).second_nanos() == 0
                &&& final(self).frames() == 0
            },
            old(self).second_nanos() + frame_nanos <= NANOS_PER_SECOND ==> {
                &&& s.fps_report.is_none()
                &&& final(self).second_nanos() == old(self).second_nanos() + frame_nanos
                &&& final(self).frames() == old(self).frames() + 1
            },
    {
        self.engine_accumulator = self.engine_accumulator + frame_nanos;
        self.second_accumulator = self.second_accumulator + frame_nanos;
        let mut ticks: u128 = 0;
        while self.engine_accumulator >= ENGINE_TIMESTEP_NANOS
            invariant
                ticks * ENGINE_TIMESTEP_NANOS + self.engine_accumulator == old(self).engine_nanos() + frame_nanos,
                self.second_accumulator == old(self).second_nanos() + frame_nanos,
                self.frames_per_second == old(self).frames_per_second,
                old(self).engine_nanos() + frame_nanos <= MAX_DURATION_NANOS,
            decreases self.engine_accumulator,
        {
            self.engine_accumulator = self.engine_accumulator - ENGINE_TIMESTEP_NANOS;
            assert(ticks * ENGINE_TIMESTEP_NANOS <= MAX_DURATION_NANOS);
            assert(ticks < u128::MAX) by (nonlinear_arith)
                requires
                    ticks * 16_666_666 <= 18_446_744_073_709_551_615_999_999_999u128,
            ;
            ticks = ticks + 1;
        }
        proof {
            let total = old(self).engine_nanos() + frame_nanos;
            let rem = self.engine_accumulator as int;
            assert(0 <= rem < 16_666_666);
            vstd::arithmetic::div_mod::lemma_fundamental_div_mod_converse(
                total as int,
                16_666_666,
                ticks as int,
                rem,
            );
        }
        self.frames_per_second = self.frames_per_second + 1;
        if self.second_accumulator > NANOS_PER_SECOND {
            let report = self.frames_per_second;
            self.frames_per_second = 0;
            self.second_accumulator = 0;
            FrameSchedule { ticks, fps_report: Some(report) }
        } else {
            FrameSchedule { ticks, fps_report: None }
        }
    }
}

/// Clock law: the time a frame adds is conserved, split into whole ticks and a
/// remainder shorter than one tick.
pub proof fn law_clock_conserves_time(accumulated: nat, frame: nat)
    ensures
        ((accumulated + frame) / (ENGINE_TIMESTEP_NANOS as nat)) * ENGINE_TIMESTEP_NANOS + (accumulated + frame) % (
        ENGINE_TIMESTEP_NANOS as nat) == accumulated + frame,
        (accumulated + frame) % (ENGINE_TIMESTEP_NANOS as nat) < ENGINE_TIMESTEP_NANOS,
{
    vstd::arithmetic::div_mod::lemma_fundamental_div_mod((accumulated + frame) as int, 16_666_666);
    vstd::arithmetic::div_mod::lemma_mod_bound((accumulated + frame) as int, 16_666_666);
}

} // verus!
