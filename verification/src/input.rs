//! Input buffering: stick clamping, buffered actions, and gesture detection.

use vstd::prelude::*;

use crate::math::{absi, mul_div_signed, muldiv_trunc, Vec2, UNIT};
use crate::utils::{cardinal_of, CardinalDirection, Directed, FrameNumber};

verus! {

/// Frames a buffered entry stays alive before it is cleared.
pub const BUFFER_SIZE: FrameNumber = 8;

/// Stick magnitudes below this collapse to zero, in fixed-point steps.
pub const CONTROL_STICK_DEADZONE_SIZE: i64 = 250;

/// Width of the band that is rescaled onto [0, UNIT].
pub const CONTROL_STICK_LIVEZONE_SIZE: i64 = 750;

/// Samples of stick history kept for gesture inference.
pub const STICK_HISTORY_SIZE: usize = 30;

/// How many recent samples a smash gesture may span.
pub const SMASH_INPUT_MAX_DURATION: usize = 4;

/// Minimum stick magnitude for a smash gesture, in fixed-point steps.
pub const SMASH_INPUT_THRESHOLD_DISTANCE_FROM_CENTRE: i64 = 990;

/// Minimum displacement from a recent sample for a smash gesture.
pub const SMASH_INPUT_THRESHOLD_DELTA: i64 = 500;

/// Minimum stick magnitude held throughout a half-circle gesture.
pub const HALF_CIRCLE_INPUT_THRESHOLD_DISTANCE: i64 = 900;

/// How many history samples a half-circle gesture may span.
pub const HALF_CIRCLE_MAX_DURATION: usize = 10;

/// A discrete logical action, already mapped from a physical button.
#[derive(Clone, Copy, Debug, PartialEq, Eq, Structural)]
pub enum Action {
    Attack,
    Special,
    Shield,
    Grab,
    Jump,
    Taunt,
}

/// The set of actions currently held down; persists until release.
#[derive(Clone, Copy, Debug, PartialEq, Eq, Structural)]
pub struct ActionSet {
    pub attack: bool,
    pub special: bool,
    pub shield: bool,
    pub grab: bool,
    pub jump: bool,
    pub taunt: bool,
}

impl ActionSet {
    pub open spec fn contains_spec(self, a: Action) -> bool {
        match a {
            Action::Attack => self.attack,
            Action::Special => self.special,
            Action::Shield => self.shield,
            Action::Grab => self.grab,
            Action::Jump => self.jump,
            Action::Taunt => self.taunt,
        }
    }

    pub fn empty() -> (s: Self)
        ensures
            forall|a: Action| !s.contains_spec(a),
    {
        ActionSet {
            attack: false,
            special: false,
            shield: false,
            grab: false,
            jump: false,
            taunt: false,
        }
    }

    pub fn contains(&self, a: Action) -> (r: bool)
        ensures
            r == self.contains_spec(a),
    {
        match a {
            Action::Attack => self.attack,
            Action::Special => self.special,
            Action::Shield => self.shield,
            Action::Grab => self.grab,
            Action::Jump => self.jump,
            Action::Taunt => self.taunt,
        }
    }

    pub fn insert(&mut self, a: Action)
        ensures
            *final(self) == set_with(*old(self), a),
            forall|b: Action|
                final(self).contains_spec(b) == (old(self).contains_spec(b) || b == a),
    {
        match a {
            Action::Attack => self.attack = true,
            Action::Special => self.special = true,
            Action::Shield => self.shield = true,
            Action::Grab => self.grab = true,
            Action::Jump => self.jump = true,
            Action::Taunt => self.taunt = true,
        }
    }

    pub fn remove(&mut self, a: Action)
        ensures
            *final(self) == set_without(*old(self), a),
            forall|b: Action|
                final(self).contains_spec(b) == (old(self).contains_spec(b) && b != a),
    {
        match a {
            Action::Attack => self.attack = false,
            Action::Special => self.special = false,
            Action::Shield => self.shield = false,
            Action::Grab => self.grab = false,
            Action::Jump => self.jump = false,
            Action::Taunt => self.taunt = false,
        }
    }
}

/// The sense in which the stick swept around the input circle.
#[derive(Clone, Copy, Debug, PartialEq, Eq, Structural)]
pub enum RotationDirection {
    Clockwise,
    CounterClockwise,
}

/// A recognized directional gesture.
#[derive(Clone, Copy, Debug, PartialEq, Eq, Structural)]
pub enum DirectionalAction {
    Smash(CardinalDirection),
    HalfCircle(CardinalDirection, RotationDirection),
}

/// A short-lived buffered entry: cleared once its age reaches `BUFFER_SIZE`.
#[derive(Clone, Copy, Debug, PartialEq, Eq, Structural)]
pub enum BufferedInput<T> {
    Empty,
    Buffered { value: T, stick: Vec2, age: FrameNumber },
}

impl<T: Copy> BufferedInput<T> {
    /// A live entry is always younger than the buffer limit.
    pub open spec fn wf(self) -> bool {
        self matches BufferedInput::Buffered { age, .. } ==> age < BUFFER_SIZE
    }

    /// Ages the entry one frame, clearing it once it reaches the limit.
    pub fn age_buffer(&mut self)
        requires
            old(self).wf(),
        ensures
            final(self).wf(),
            match *old(self) {
                BufferedInput::Empty => *final(self) == BufferedInput::<T>::Empty,
                BufferedInput::Buffered { value, stick, age } => {
                    if age + 1 >= BUFFER_SIZE {
                        *final(self) == BufferedInput::<T>::Empty
                    } else {
                        *final(self) == (BufferedInput::Buffered {
                            value,
                            stick,
                            age: (age + 1) as FrameNumber,
                        })
                    }
                },
            },
    {
        match *self {
            BufferedInput::Empty => {},
            BufferedInput::Buffered { value, stick, age } => {
                let new_age = age + 1;
                *self = if new_age >= BUFFER_SIZE {
                    BufferedInput::Empty
                } else {
                    BufferedInput::Buffered { value, stick, age: new_age }
                };
            },
        }
    }
}

/// The clamped stick vector: magnitudes inside the deadzone collapse to
/// zero; the remaining band is rescaled so the livezone maps onto [0, UNIT].
pub open spec fn clamped_stick_spec(x: int, y: int) -> Vec2 {
    let v = Vec2 { x: x as i64, y: y as i64 };
    let len = v.len_spec();
    if len < CONTROL_STICK_DEADZONE_SIZE {
        Vec2 { x: 0, y: 0 }
    } else {
        let scaled = (len - CONTROL_STICK_DEADZONE_SIZE) * UNIT / (CONTROL_STICK_LIVEZONE_SIZE as int);
        let adjusted = if scaled > UNIT {
            UNIT as int
        } else {
            scaled
        };
        Vec2 {
            x: muldiv_trunc(x, adjusted, len) as i64,
            y: muldiv_trunc(y, adjusted, len) as i64,
        }
    }
}

/// Applies the deadzone/livezone model to a raw stick sample.
pub fn get_clamped_control_stick(x: i64, y: i64) -> (r: Vec2)
    requires
        -UNIT <= x <= UNIT,
        -UNIT <= y <= UNIT,
    ensures
        r == clamped_stick_spec(x as int, y as int),
        r.bounded(UNIT as int),
{
    let v = Vec2 { x, y };
    let len = v.length();
    if len < CONTROL_STICK_DEADZONE_SIZE {
        return Vec2 { x: 0, y: 0 };
    }
    let scaled = (len - CONTROL_STICK_DEADZONE_SIZE) * UNIT / CONTROL_STICK_LIVEZONE_SIZE;
    let adjusted = if scaled > UNIT {
        UNIT
    } else {
        scaled
    };
    proof {
        assert(scaled >= 0) by {
            vstd::arithmetic::div_mod::lemma_div_pos_is_pos(
                (len - CONTROL_STICK_DEADZONE_SIZE) * (UNIT as int),
                CONTROL_STICK_LIVEZONE_SIZE as int,
            );
            assert((len - CONTROL_STICK_DEADZONE_SIZE) * (UNIT as int) >= 0) by (nonlinear_arith)
                requires
                    len >= CONTROL_STICK_DEADZONE_SIZE,
            ;
        }
        assert(absi(x as int) * adjusted <= i64::MAX) by (nonlinear_arith)
            requires
                -UNIT <= x <= UNIT,
                0 <= adjusted <= UNIT,
        ;
        assert(absi(y as int) * adjusted <= i64::MAX) by (nonlinear_arith)
            requires
                -UNIT <= y <= UNIT,
                0 <= adjusted <= UNIT,
        ;
    }
    let rx = mul_div_signed(x, adjusted as u64, len as u64);
    let ry = mul_div_signed(y, adjusted as u64, len as u64);
    proof {
        crate::math::lemma_len_ge_components(v);
        crate::math::lemma_muldiv_le(absi(x as int), adjusted as int, len as int);
        crate::math::lemma_muldiv_le(absi(y as int), adjusted as int, len as int);
    }
    Vec2 { x: rx, y: ry }
}

/// Per-actor control state: the clamped stick, buffered entries, held
/// actions, and a short stick history used only for gesture inference.
#[derive(Clone, Debug)]
pub struct Control {
    pub stick: Vec2,
    pub action: BufferedInput<Action>,
    pub directional_action: BufferedInput<DirectionalAction>,
    pub held_actions: ActionSet,
    pub previous_stick_positions: Vec<Vec2>,
    pub previous_held_actions: ActionSet,
}

/// True when the sample `i` of the history lies far enough from the live
/// stick to count as a rapid displacement.
pub open spec fn smash_sample_far(h: Seq<Vec2>, stick: Vec2, i: int) -> bool {
    (Vec2 { x: (h[i].x - stick.x) as i64, y: (h[i].y - stick.y) as i64 }).len_spec()
        >= SMASH_INPUT_THRESHOLD_DELTA
}

/// A smash gesture: the stick is at the rim and some sample within the last
/// few frames lies at least half the input circle away.
pub open spec fn smash_detected(h: Seq<Vec2>, stick: Vec2) -> bool {
    &&& stick.len_spec() >= SMASH_INPUT_THRESHOLD_DISTANCE_FROM_CENTRE
    &&& exists|i: int|
        smash_window_start(h) <= i < h.len() && smash_sample_far(h, stick, i)
}

/// First history index inside the smash-detection window.
pub open spec fn smash_window_start(h: Seq<Vec2>) -> int {
    if h.len() > SMASH_INPUT_MAX_DURATION {
        h.len() - SMASH_INPUT_MAX_DURATION
    } else {
        0
    }
}

/// How many history samples, newest first, qualify for a half-circle scan:
/// the walk back stops at the gesture window or at the first sample that
/// dropped below the hold threshold.
pub open spec fn hc_count_rec(h: Seq<Vec2>, i: nat) -> nat
    decreases HALF_CIRCLE_MAX_DURATION - i,
    when i <= HALF_CIRCLE_MAX_DURATION
{
    if i >= HALF_CIRCLE_MAX_DURATION || i >= h.len() {
        i
    } else if (h[h.len() - 1 - i]).len_spec() >= HALF_CIRCLE_INPUT_THRESHOLD_DISTANCE {
        hc_count_rec(h, i + 1)
    } else {
        i
    }
}

pub open spec fn hc_prev_count(h: Seq<Vec2>) -> nat {
    hc_count_rec(h, 0)
}

/// The gesture path walked backward in time: sample 0 is the live stick,
/// sample `i` is the `i`-th most recent history entry.
pub open spec fn hc_pos(h: Seq<Vec2>, stick: Vec2, i: int) -> Vec2 {
    if i == 0 {
        stick
    } else {
        h[h.len() - i]
    }
}

/// Walks the path from step `i`, looking for the first sample whose
/// dominant direction is `opp` before the turn sign ever flips against
/// `sign`. A zero turn neither confirms nor breaks the sweep.
pub open spec fn hc_scan(
    h: Seq<Vec2>,
    stick: Vec2,
    sign: int,
    opp: CardinalDirection,
    i: nat,
) -> Option<nat>
    decreases hc_prev_count(h) - i,
    when i >= 1
{
    let m = hc_prev_count(h);
    if i >= m {
        None
    } else {
        let c = hc_pos(h, stick, i as int).cross_spec(hc_pos(h, stick, (i + 1) as int));
        if c * sign < 0 {
            None
        } else if cardinal_of(hc_pos(h, stick, (i + 1) as int)) == Some(opp) {
            Some(i)
        } else {
            hc_scan(h, stick, sign, opp, i + 1)
        }
    }
}

/// The turn sign of the first backward step: positive means the stick swept
/// clockwise in real time.
pub open spec fn hc_first_sign(h: Seq<Vec2>, stick: Vec2) -> int {
    crate::math::sgni(hc_pos(h, stick, 0).cross_spec(hc_pos(h, stick, 1)))
}

/// A half-circle gesture: the stick is held near the rim, its first
/// backward turn is nonzero, and the path reaches the opposite cardinal
/// direction after more than one step without the turn sign flipping.
/// A single-step crossing is reserved for the smash gesture.
pub open spec fn half_circle_detected(h: Seq<Vec2>, stick: Vec2) -> bool {
    &&& stick.len_spec() >= HALF_CIRCLE_INPUT_THRESHOLD_DISTANCE
    &&& cardinal_of(stick) is Some
    &&& hc_prev_count(h) >= 1
    &&& hc_first_sign(h, stick) != 0
    &&& hc_scan(
        h,
        stick,
        hc_first_sign(h, stick),
        cardinal_of(stick).unwrap().flip_spec(),
        1,
    ) is Some
}

/// The rotation a detected half-circle carries.
pub open spec fn half_circle_rotation(h: Seq<Vec2>, stick: Vec2) -> RotationDirection {
    if hc_first_sign(h, stick) > 0 {
        RotationDirection::Clockwise
    } else {
        RotationDirection::CounterClockwise
    }
}

/// One buffered entry aged by a frame.
pub open spec fn aged_entry<T>(b: BufferedInput<T>) -> BufferedInput<T> {
    match b {
        BufferedInput::Empty => BufferedInput::Empty,
        BufferedInput::Buffered { value, stick, age } => {
            if age + 1 >= BUFFER_SIZE {
                BufferedInput::Empty
            } else {
                BufferedInput::Buffered { value, stick, age: (age + 1) as FrameNumber }
            }
        },
    }
}

/// A held-action set with one action added.
pub open spec fn set_with(s: ActionSet, a: Action) -> ActionSet {
    match a {
        Action::Attack => ActionSet { attack: true, ..s },
        Action::Special => ActionSet { special: true, ..s },
        Action::Shield => ActionSet { shield: true, ..s },
        Action::Grab => ActionSet { grab: true, ..s },
        Action::Jump => ActionSet { jump: true, ..s },
        Action::Taunt => ActionSet { taunt: true, ..s },
    }
}

/// A held-action set with one action removed.
pub open spec fn set_without(s: ActionSet, a: Action) -> ActionSet {
    match a {
        Action::Attack => ActionSet { attack: false, ..s },
        Action::Special => ActionSet { special: false, ..s },
        Action::Shield => ActionSet { shield: false, ..s },
        Action::Grab => ActionSet { grab: false, ..s },
        Action::Jump => ActionSet { jump: false, ..s },
        Action::Taunt => ActionSet { taunt: false, ..s },
    }
}

/// Every pressed action held, in order.
pub open spec fn hold_fold(s: ActionSet, pressed: Seq<Action>) -> ActionSet
    decreases pressed.len(),
{
    if pressed.len() == 0 {
        s
    } else {
        hold_fold(set_with(s, pressed[0]), pressed.drop_first())
    }
}

/// Every released action let go, in order.
pub open spec fn release_fold(s: ActionSet, released: Seq<Action>) -> ActionSet
    decreases released.len(),
{
    if released.len() == 0 {
        s
    } else {
        release_fold(set_without(s, released[0]), released.drop_first())
    }
}

/// The discrete-action buffer after the tick's presses: each press that
/// was not already held on the previous tick overwrites the entry.
pub open spec fn press_buffer_fold(
    b: BufferedInput<Action>,
    stick: Vec2,
    prev_held: ActionSet,
    pressed: Seq<Action>,
) -> BufferedInput<Action>
    decreases pressed.len(),
{
    if pressed.len() == 0 {
        b
    } else {
        let b1 = if prev_held.contains_spec(pressed[0]) {
            b
        } else {
            BufferedInput::Buffered { value: pressed[0], stick, age: 0 }
        };
        press_buffer_fold(b1, stick, prev_held, pressed.drop_first())
    }
}

/// The stick history after recording this tick's sample: the old stick is
/// pushed and the oldest sample drops once the window is full.
pub open spec fn recorded_history(c: Control) -> Seq<Vec2> {
    let pushed = c.previous_stick_positions@.push(c.stick);
    if pushed.len() > STICK_HISTORY_SIZE {
        pushed.remove(0)
    } else {
        pushed
    }
}

/// The whole input phase, as a function of the old control state and the
/// tick's sample: buffers age, the held set snapshots, the clamped stick
/// replaces the old one, presses hold and buffer edge-triggered, releases
/// let go, and the two gesture detectors run on the recorded history.
/// The history itself is given by `input_phase_history` beside this.
pub open spec fn input_phase_ctrl(
    c: Control,
    x: int,
    y: int,
    pressed: Seq<Action>,
    released: Seq<Action>,
) -> Control {
    let stick = clamped_stick_spec(x, y);
    let h = recorded_history(c);
    let action = press_buffer_fold(aged_entry(c.action), stick, c.held_actions, pressed);
    let held = release_fold(hold_fold(c.held_actions, pressed), released);
    let dir0 = aged_entry(c.directional_action);
    let dir1 = if smash_detected(h, stick) {
        BufferedInput::Buffered {
            value: DirectionalAction::Smash(cardinal_of(stick).unwrap()),
            stick,
            age: 0,
        }
    } else {
        dir0
    };
    let dir2 = if half_circle_detected(h, stick) {
        BufferedInput::Buffered {
            value: DirectionalAction::HalfCircle(
                cardinal_of(stick).unwrap(),
                half_circle_rotation(h, stick),
            ),
            stick,
            age: 0,
        }
    } else {
        dir1
    };
    Control {
        stick,
        action,
        directional_action: dir2,
        held_actions: held,
        previous_held_actions: c.held_actions,
        ..c
    }
}

/// The stick history the input phase leaves behind: the recorded history,
/// consumed whole by a detected half-circle.
pub open spec fn input_phase_history(c: Control, x: int, y: int) -> Seq<Vec2> {
    let stick = clamped_stick_spec(x, y);
    let h = recorded_history(c);
    if half_circle_detected(h, stick) {
        Seq::empty()
    } else {
        h
    }
}

impl Control {
    /// Everything the input phase maintains: the stick and every history
    /// sample stay inside the unit box and buffered entries stay young.
    pub open spec fn wf(self) -> bool {
        &&& self.stick.bounded(UNIT as int)
        &&& self.action.wf()
        &&& self.directional_action.wf()
        &&& self.previous_stick_positions@.len() <= STICK_HISTORY_SIZE
        &&& forall|i: int|
            0 <= i < self.previous_stick_positions@.len()
                ==> (#[trigger] self.previous_stick_positions@[i]).bounded(UNIT as int)
    }

    pub fn new() -> (c: Self)
        ensures
            c.wf(),
            c.stick.is_zero(),
            c.action == BufferedInput::<Action>::Empty,
            c.directional_action == BufferedInput::<DirectionalAction>::Empty,
            forall|a: Action| !c.held_actions.contains_spec(a),
            forall|a: Action| !c.previous_held_actions.contains_spec(a),
            c.previous_stick_positions@.len() == 0,
    {
        Control {
            stick: Vec2 { x: 0, y: 0 },
            action: BufferedInput::Empty,
            directional_action: BufferedInput::Empty,
            held_actions: ActionSet::empty(),
            previous_stick_positions: Vec::new(),
            previous_held_actions: ActionSet::empty(),
        }
    }

    /// Whether the buffered discrete action is exactly `action`.
    pub fn has_action(&self, action: &Action) -> (r: bool)
        ensures
            r == (self.action matches BufferedInput::Buffered { value, .. } && value
                == *action),
    {
        match self.action {
            BufferedInput::Buffered { value, .. } => value == *action,
            BufferedInput::Empty => false,
        }
    }

    /// Remembers which actions were held when this tick began.
    pub fn snapshot_held(&mut self)
        ensures
            *final(self) == (Control {
                previous_held_actions: old(self).held_actions,
                ..*old(self)
            }),
    {
        self.previous_held_actions = self.held_actions;
    }

    /// Pushes the current stick onto the history, dropping the oldest
    /// sample once the window is full, then adopts the new clamped sample.
    pub fn update_stick(&mut self, x: i64, y: i64)
        requires
            old(self).wf(),
            -UNIT <= x <= UNIT,
            -UNIT <= y <= UNIT,
        ensures
            final(self).wf(),
            final(self).stick == clamped_stick_spec(x as int, y as int),
            final(self).previous_stick_positions@ == {
                let pushed = old(self).previous_stick_positions@.push(old(self).stick);
                if pushed.len() > STICK_HISTORY_SIZE {
                    pushed.remove(0)
                } else {
                    pushed
                }
            },
            final(self).action == old(self).action,
            final(self).directional_action == old(self).directional_action,
            final(self).held_actions == old(self).held_actions,
            final(self).previous_held_actions == old(self).previous_held_actions,
    {
        let cur = self.stick;
        self.previous_stick_positions.push(cur);
        if self.previous_stick_positions.len() > STICK_HISTORY_SIZE {
            self.previous_stick_positions.remove(0);
        }
        self.stick = get_clamped_control_stick(x, y);
    }

    /// Marks an action held from this tick on.
    pub fn hold_action(&mut self, a: Action)
        ensures
            *final(self) == (Control {
                held_actions: set_with(old(self).held_actions, a),
                ..*old(self)
            }),
            forall|b: Action|
                final(self).held_actions.contains_spec(b) == (old(
                    self,
                ).held_actions.contains_spec(b) || b == a),
    {
        self.held_actions.insert(a);
    }

    /// Marks an action released.
    pub fn release_action(&mut self, a: Action)
        ensures
            *final(self) == (Control {
                held_actions: set_without(old(self).held_actions, a),
                ..*old(self)
            }),
            forall|b: Action|
                final(self).held_actions.contains_spec(b) == (old(
                    self,
                ).held_actions.contains_spec(b) && b != a),
    {
        self.held_actions.remove(a);
    }

    /// Buffers a newly pressed action, edge-triggered: a press only counts
    /// if the action was not already held on the previous tick.
    pub fn buffer_action(&mut self, a: Action)
        ensures
            if old(self).previous_held_actions.contains_spec(a) {
                *final(self) == *old(self)
            } else {
                *final(self) == (Control {
                    action: BufferedInput::Buffered { value: a, stick: old(self).stick, age: 0 },
                    ..*old(self)
                })
            },
    {
        if !self.previous_held_actions.contains(a) {
            self.action = BufferedInput::Buffered { value: a, stick: self.stick, age: 0 };
        }
    }

    /// Ages both buffered entries one frame.
    pub fn age_buffers(&mut self)
        requires
            old(self).action.wf(),
            old(self).directional_action.wf(),
        ensures
            final(self).action.wf(),
            final(self).directional_action.wf(),
            *final(self) == (Control {
                action: final(self).action,
                directional_action: final(self).directional_action,
                ..*old(self)
            }),
            final(self).action == match old(self).action {
                BufferedInput::Empty => BufferedInput::<Action>::Empty,
                BufferedInput::Buffered { value, stick, age } => {
                    if age + 1 >= BUFFER_SIZE {
                        BufferedInput::<Action>::Empty
                    } else {
                        BufferedInput::Buffered { value, stick, age: (age + 1) as FrameNumber }
                    }
                },
            },
            final(self).directional_action == match old(self).directional_action {
                BufferedInput::Empty => BufferedInput::<DirectionalAction>::Empty,
                BufferedInput::Buffered { value, stick, age } => {
                    if age + 1 >= BUFFER_SIZE {
                        BufferedInput::<DirectionalAction>::Empty
                    } else {
                        BufferedInput::Buffered { value, stick, age: (age + 1) as FrameNumber }
                    }
                },
            },
    {
        self.action.age_buffer();
        self.directional_action.age_buffer();
    }

    /// Buffers a smash gesture when the stick sits at the rim and moved
    /// there within the last few frames.
    pub fn detect_smash_input(&mut self)
        requires
            old(self).wf(),
        ensures
            final(self).wf(),
            if smash_detected(old(self).previous_stick_positions@, old(self).stick) {
                cardinal_of(old(self).stick) matches Some(dir) && *final(self) == (Control {
                    directional_action: BufferedInput::Buffered {
                        value: DirectionalAction::Smash(dir),
                        stick: old(self).stick,
                        age: 0,
                    },
                    ..*old(self)
                })
            } else {
                *final(self) == *old(self)
            },
    {
        let stick = self.stick;
        let slen = stick.length();
        if slen < SMASH_INPUT_THRESHOLD_DISTANCE_FROM_CENTRE {
            return ;
        }
        let ghost h = self.previous_stick_positions@;
        let n = self.previous_stick_positions.len();
        let start = if n > SMASH_INPUT_MAX_DURATION {
            n - SMASH_INPUT_MAX_DURATION
        } else {
            0
        };
        let mut found = false;
        let mut i = start;
        while i < n
            invariant
                self == old(self),
                start == smash_window_start(h),
                h == self.previous_stick_positions@,
                n == h.len(),
                start <= i <= n,
                stick == self.stick,
                old(self).wf(),
                found == exists|j: int| start <= j < i && smash_sample_far(h, stick, j),
            decreases n - i,
        {
            let d = self.previous_stick_positions[i].sub(stick);
            if d.length() >= SMASH_INPUT_THRESHOLD_DELTA {
                proof {
                    assert(smash_sample_far(h, stick, i as int));
                }
                found = true;
            }
            i = i + 1;
        }
        if found {
            proof {
                if stick.is_zero() {
                    crate::math::lemma_zero_vec_len(stick);
                }
            }
            let dir = stick.get_cardinal_direction();
            match dir {
                Some(d) => {
                    self.directional_action = BufferedInput::Buffered {
                        value: DirectionalAction::Smash(d),
                        stick,
                        age: 0,
                    };
                },
                None => {
                    proof {
                        assert(false);
                    }
                },
            }
        }
    }

    /// Buffers a half-circle gesture when the stick, held near the rim,
    /// swept to the opposite cardinal direction over more than one frame
    /// without reversing its turn. On detection the history is cleared.
    pub fn detect_half_circle_input(&mut self)
        requires
            old(self).wf(),
        ensures
            final(self).wf(),
            if half_circle_detected(old(self).previous_stick_positions@, old(self).stick) {
                cardinal_of(old(self).stick) matches Some(dir) && *final(self) == (Control {
                    directional_action: BufferedInput::Buffered {
                        value: DirectionalAction::HalfCircle(
                            dir,
                            half_circle_rotation(
                                old(self).previous_stick_positions@,
                                old(self).stick,
                            ),
                        ),
                        stick: old(self).stick,
                        age: 0,
                    },
                    previous_stick_positions: final(self).previous_stick_positions,
                    ..*old(self)
                }) && final(self).previous_stick_positions@.len() == 0
            } else {
                *final(self) == *old(self)
            },
    {
        let ghost h = self.previous_stick_positions@;
        let stick = self.stick;
        let slen = stick.length();
        if slen < HALF_CIRCLE_INPUT_THRESHOLD_DISTANCE {
            return ;
        }
        proof {
            if stick.is_zero() {
                crate::math::lemma_zero_vec_len(stick);
            }
        }
        let cur_direction = match stick.get_cardinal_direction() {
            Some(d) => d,
            None => {
                proof {
                    assert(false);
                }
                CardinalDirection::Up
            },
        };
        let opposite = cur_direction.flip();
        let n = self.previous_stick_positions.len();

        // Walk back through the history while samples stay near the rim.
        let mut m: usize = 0;
        let mut halted = false;
        while !halted && m < HALF_CIRCLE_MAX_DURATION && m < n
            invariant
                old(self).wf(),
                self == old(self),
                h == self.previous_stick_positions@,
                n == h.len(),
                0 <= m <= HALF_CIRCLE_MAX_DURATION,
                m <= n,
                hc_prev_count(h) == hc_count_rec(h, m as nat),
                halted ==> hc_count_rec(h, m as nat) == m,
            decreases HALF_CIRCLE_MAX_DURATION - m, (if halted { 0int } else { 1int }),
        {
            let sample = self.previous_stick_positions[n - 1 - m];
            if sample.length() < HALF_CIRCLE_INPUT_THRESHOLD_DISTANCE {
                halted = true;
            } else {
                m = m + 1;
            }
        }
        proof {
            assert(hc_prev_count(h) == m);
        }
        if m == 0 {
            return ;
        }

        let first = self.previous_stick_positions[n - 1];
        let c0 = stick.cross(first);
        proof {
            assert(first == hc_pos(h, stick, 1));
            assert(hc_first_sign(h, stick) == crate::math::sgni(c0 as int));
        }
        if c0 == 0 {
            return ;
        }
        let ghost sign = crate::math::sgni(c0 as int);
        proof {
            assert(sign == 1 <==> c0 > 0);
            assert(sign == 1 || sign == -1);
        }

        let mut i: usize = 1;
        while i < m
            invariant
                old(self).wf(),
                self == old(self),
                h == self.previous_stick_positions@,
                n == h.len(),
                1 <= m == hc_prev_count(h) <= n,
                1 <= i <= m,
                stick == self.stick,
                stick.len_spec() >= HALF_CIRCLE_INPUT_THRESHOLD_DISTANCE,
                c0 == hc_pos(h, stick, 0).cross_spec(hc_pos(h, stick, 1)),
                c0 != 0,
                sign == crate::math::sgni(c0 as int),
                sign == hc_first_sign(h, stick),
                sign != 0,
                cardinal_of(stick) == Some(cur_direction),
                opposite == cur_direction.flip_spec(),
                hc_scan(h, stick, sign, opposite, 1) == hc_scan(h, stick, sign, opposite, i as nat),
            decreases m - i,
        {
            let pi = self.previous_stick_positions[n - i];
            let pi1 = self.previous_stick_positions[n - i - 1];
            proof {
                assert(pi == hc_pos(h, stick, i as int));
                assert(pi1 == hc_pos(h, stick, i as int + 1));
                assert(sign == 1 || sign == -1);
                assert(sign == 1 <==> c0 > 0);
            }
            let c = pi.cross(pi1);
            if (c < 0 && c0 > 0) || (c > 0 && c0 < 0) {
                proof {
                    assert((c as int) * sign < 0) by (nonlinear_arith)
                        requires
                            (c < 0 && sign == 1) || (c > 0 && sign == -1),
                    ;
                    assert(hc_scan(h, stick, sign, opposite, i as nat) is None);
                }
                return ;
            }
            proof {
                assert((c as int) * sign >= 0) by (nonlinear_arith)
                    requires
                        (sign == 1 && c >= 0) || (sign == -1 && c <= 0),
                ;
            }
            let dir1 = pi1.get_cardinal_direction();
            if dir1 == Some(opposite) {
                proof {
                    assert(hc_scan(h, stick, sign, opposite, i as nat) == Some(i as nat));
                    assert(half_circle_detected(h, stick));
                }
                self.directional_action = BufferedInput::Buffered {
                    value: DirectionalAction::HalfCircle(
                        cur_direction,
                        if c0 > 0 {
                            RotationDirection::Clockwise
                        } else {
                            RotationDirection::CounterClockwise
                        },
                    ),
                    stick,
                    age: 0,
                };
                self.previous_stick_positions.clear();
                return ;
            }
            i = i + 1;
        }
        proof {
            assert(hc_scan(h, stick, sign, opposite, m as nat) is None);
        }
    }

    /// Runs the whole input phase for one tick: ages the buffers, takes
    /// the held-set snapshot, records and clamps the stick, applies the
    /// tick's presses (edge-triggered) and releases, and runs both gesture
    /// detectors. The result is exactly `input_phase_ctrl` of the old
    /// state and the sample, with `input_phase_history` as its history.
    pub fn update_from_sample(
        &mut self,
        x: i64,
        y: i64,
        pressed: &Vec<Action>,
        released: &Vec<Action>,
    )
        requires
            old(self).wf(),
            -UNIT <= x <= UNIT,
            -UNIT <= y <= UNIT,
        ensures
            final(self).wf(),
            ({
                let m = input_phase_ctrl(*old(self), x as int, y as int, pressed@, released@);
                &&& final(self).stick == m.stick
                &&& final(self).action == m.action
                &&& final(self).directional_action == m.directional_action
                &&& final(self).held_actions == m.held_actions
                &&& final(self).previous_held_actions == m.previous_held_actions
            }),
            final(self).previous_stick_positions@ == input_phase_history(
                *old(self),
                x as int,
                y as int,
            ),
    {
        self.age_buffers();
        self.snapshot_held();
        self.update_stick(x, y);
        let ghost h = recorded_history(*old(self));
        let ghost stick = clamped_stick_spec(x as int, y as int);
        let ghost prev_held = old(self).held_actions;

        let np = pressed.len();
        let mut i: usize = 0;
        while i < np
            invariant
                self.wf(),
                np == pressed@.len(),
                0 <= i <= np,
                self.stick == stick,
                self.previous_stick_positions@ == h,
                self.previous_held_actions == prev_held,
                self.directional_action == aged_entry(old(self).directional_action),
                self.action == press_buffer_fold(
                    aged_entry(old(self).action),
                    stick,
                    prev_held,
                    pressed@.take(i as int),
                ),
                self.held_actions == hold_fold(prev_held, pressed@.take(i as int)),
            decreases np - i,
        {
            let a = pressed[i];
            self.hold_action(a);
            self.buffer_action(a);
            proof {
                lemma_take_one_more_action(pressed@, i as int);
                lemma_hold_fold_snoc(prev_held, pressed@.take(i as int), a);
                lemma_press_buffer_fold_snoc(
                    aged_entry(old(self).action),
                    stick,
                    prev_held,
                    pressed@.take(i as int),
                    a,
                );
            }
            i = i + 1;
        }
        proof {
            assert(pressed@.take(np as int) =~= pressed@);
        }

        let ghost held_mid = self.held_actions;
        let nr = released.len();
        let mut i: usize = 0;
        while i < nr
            invariant
                self.wf(),
                nr == released@.len(),
                0 <= i <= nr,
                self.stick == stick,
                self.previous_stick_positions@ == h,
                self.previous_held_actions == prev_held,
                self.directional_action == aged_entry(old(self).directional_action),
                self.action == press_buffer_fold(
                    aged_entry(old(self).action),
                    stick,
                    prev_held,
                    pressed@,
                ),
                self.held_actions == release_fold(held_mid, released@.take(i as int)),
            decreases nr - i,
        {
            let a = released[i];
            self.release_action(a);
            proof {
                lemma_take_one_more_action(released@, i as int);
                lemma_release_fold_snoc(held_mid, released@.take(i as int), a);
            }
            i = i + 1;
        }
        proof {
            assert(released@.take(nr as int) =~= released@);
        }

        self.detect_smash_input();
        self.detect_half_circle_input();
    }
}

/// Taking one more element appends it at the end.
proof fn lemma_take_one_more_action(s: Seq<Action>, i: int)
    requires
        0 <= i < s.len(),
    ensures
        s.take(i + 1) =~= s.take(i).push(s[i]),
{
}

/// Folding one more press over the held set.
proof fn lemma_hold_fold_snoc(s: ActionSet, pressed: Seq<Action>, a: Action)
    ensures
        hold_fold(s, pressed.push(a)) == set_with(hold_fold(s, pressed), a),
    decreases pressed.len(),
{
    let p = pressed.push(a);
    assert(p.len() == pressed.len() + 1);
    assert(p[0] == if pressed.len() == 0 {
        a
    } else {
        pressed[0]
    });
    if pressed.len() == 0 {
        assert(p.drop_first() =~= Seq::<Action>::empty());
        assert(hold_fold(s, p) == hold_fold(set_with(s, a), p.drop_first()));
    } else {
        assert(p.drop_first() =~= pressed.drop_first().push(a));
        lemma_hold_fold_snoc(set_with(s, pressed[0]), pressed.drop_first(), a);
    }
}

/// Folding one more release over the held set.
proof fn lemma_release_fold_snoc(s: ActionSet, released: Seq<Action>, a: Action)
    ensures
        release_fold(s, released.push(a)) == set_without(release_fold(s, released), a),
    decreases released.len(),
{
    let p = released.push(a);
    assert(p.len() == released.len() + 1);
    assert(p[0] == if released.len() == 0 {
        a
    } else {
        released[0]
    });
    if released.len() == 0 {
        assert(p.drop_first() =~= Seq::<Action>::empty());
        assert(release_fold(s, p) == release_fold(set_without(s, a), p.drop_first()));
    } else {
        assert(p.drop_first() =~= released.drop_first().push(a));
        lemma_release_fold_snoc(set_without(s, released[0]), released.drop_first(), a);
    }
}

/// Folding one more press over the action buffer.
proof fn lemma_press_buffer_fold_snoc(
    b: BufferedInput<Action>,
    stick: Vec2,
    prev_held: ActionSet,
    pressed: Seq<Action>,
    a: Action,
)
    ensures
        press_buffer_fold(b, stick, prev_held, pressed.push(a)) == (if prev_held.contains_spec(a) {
            press_buffer_fold(b, stick, prev_held, pressed)
        } else {
            BufferedInput::Buffered { value: a, stick, age: 0 }
        }),
    decreases pressed.len(),
{
    let p = pressed.push(a);
    assert(p.len() == pressed.len() + 1);
    assert(p[0] == if pressed.len() == 0 {
        a
    } else {
        pressed[0]
    });
    if pressed.len() == 0 {
        assert(p.drop_first() =~= Seq::<Action>::empty());
        let b1 = if prev_held.contains_spec(a) {
            b
        } else {
            BufferedInput::Buffered { value: a, stick, age: 0 }
        };
        assert(press_buffer_fold(b, stick, prev_held, p) == press_buffer_fold(
            b1,
            stick,
            prev_held,
            p.drop_first(),
        ));
    } else {
        assert(p.drop_first() =~= pressed.drop_first().push(a));
        let b1 = if prev_held.contains_spec(pressed[0]) {
            b
        } else {
            BufferedInput::Buffered { value: pressed[0], stick, age: 0 }
        };
        lemma_press_buffer_fold_snoc(b1, stick, prev_held, pressed.drop_first(), a);
    }
}

} // verus!
