//! The fighter state machine: states, frame-accurate interrupt windows
//! (IASA), natural state ends, and the transition applier.

use vstd::prelude::*;

use crate::input::{Action, BufferedInput, Control, DirectionalAction, RotationDirection};
use crate::math::Vec2;
use crate::utils::{cardinal_of, CardinalDirection, Directed, FrameCount, FrameNumber, LeftRight};

verus! {

/// Stick depth below which holding down enters a crouch.
pub const CROUCH_THRESHOLD: i64 = 400;

/// Speed the airdodge launches at, in fixed-point steps per tick.
pub const AIRDODGE_INITIAL_SPEED: i64 = 10_000;

pub const AIRDODGE_DURATION_FRAMES: FrameNumber = 15;

/// First frame of the airdodge intangibility window.
pub const AIRDODGE_INTANGIBLE_START: FrameNumber = 4;

/// Last frame of the airdodge intangibility window; strictly before the
/// dodge's natural end, so intangibility is an interior sub-window.
pub const AIRDODGE_INTANGIBLE_END: FrameNumber = 14;

pub const TURNAROUND_DURATION_FRAMES: FrameNumber = 8;

pub const RUN_TURNAROUND_DURATION_FRAMES: FrameNumber = 8;

pub const CROUCH_TRANSITION_THRESHOLD_FRAME: FrameNumber = 6;

pub const DEFAULT_LAND_CROUCH_DURATION: FrameNumber = 6;

pub const DEFAULT_JUMP_SQUAT_DURATION: FrameNumber = 6;

pub const DEFAULT_DASH_DURATION: FrameNumber = 15;

/// The closed set of fighter states. `Airdodge` carries the dodge
/// direction; `Attack` carries its combo stage.
#[derive(Clone, Copy, Debug, PartialEq, Eq, Structural)]
pub enum FighterState {
    Idle,
    Crouch,
    EnterCrouch,
    ExitCrouch,
    Turnaround,
    RunTurnaround,
    LandCrouch,
    IdleAirborne,
    JumpSquat,
    Walk,
    Dash,
    Moonwalk,
    Run,
    RunEnd,
    Airdodge(Vec2),
    Attack(u8),
}

impl Default for FighterState {
    fn default() -> (r: Self)
        ensures
            r == FighterState::Idle,
    {
        FighterState::Idle
    }
}

impl FighterState {
    /// Intangibility is derived, never stored: only an airdodge grants it,
    /// and only during the interior window of the dodge.
    pub open spec fn is_intangible_spec(self, frame: FrameNumber) -> bool {
        self matches FighterState::Airdodge(_) && AIRDODGE_INTANGIBLE_START <= frame
            <= AIRDODGE_INTANGIBLE_END
    }

    pub fn is_intangible(&self, frame: &FrameNumber) -> (r: bool)
        ensures
            r == self.is_intangible_spec(*frame),
    {
        match self {
            FighterState::Airdodge(..) => AIRDODGE_INTANGIBLE_START <= *frame && *frame
                <= AIRDODGE_INTANGIBLE_END,
            _ => false,
        }
    }

    pub open spec fn is_grounded_spec(self) -> bool {
        !(self matches FighterState::IdleAirborne || self matches FighterState::Airdodge(_)
            || self matches FighterState::Attack(_))
    }

    pub fn is_grounded(&self) -> (r: bool)
        ensures
            r == self.is_grounded_spec(),
    {
        match self {
            FighterState::Idle
            | FighterState::LandCrouch
            | FighterState::JumpSquat
            | FighterState::Walk
            | FighterState::Turnaround
            | FighterState::RunTurnaround
            | FighterState::RunEnd
            | FighterState::Dash
            | FighterState::Run
            | FighterState::Moonwalk
            | FighterState::Crouch
            | FighterState::EnterCrouch
            | FighterState::ExitCrouch => true,
            _ => false,
        }
    }

    /// States whose own acceleration logic owns horizontal velocity.
    pub open spec fn is_exempt_from_normal_traction_spec(self) -> bool {
        self matches FighterState::JumpSquat || self matches FighterState::Walk
            || self matches FighterState::Run || self matches FighterState::Dash
            || self matches FighterState::Moonwalk
    }

    pub fn is_exempt_from_normal_traction(&self) -> (r: bool)
        ensures
            r == self.is_exempt_from_normal_traction_spec(),
    {
        match self {
            FighterState::JumpSquat
            | FighterState::Walk
            | FighterState::Run
            | FighterState::Dash
            | FighterState::Moonwalk => true,
            _ => false,
        }
    }

    /// Every state falls except the airdodge.
    pub open spec fn is_affected_by_gravity_spec(self) -> bool {
        !(self matches FighterState::Airdodge(_))
    }

    pub fn is_affected_by_gravity(&self) -> (r: bool)
        ensures
            r == self.is_affected_by_gravity_spec(),
    {
        match self {
            FighterState::Airdodge(..) => false,
            _ => true,
        }
    }
}

/// The data an interrupt predicate may read besides the control state.
#[derive(Clone, Copy, Debug)]
pub struct InterruptPlayerData {
    pub state: FighterState,
    pub facing: LeftRight,
}

/// A smash gesture with a sideways component starts a dash, unless the
/// fighter is already running in that same direction.
pub open spec fn try_dash_spec(c: Control, data: InterruptPlayerData) -> Option<FighterState> {
    let can_dash_same_direction = !(data.state matches FighterState::Dash || data.state
        matches FighterState::Run || data.state matches FighterState::RunTurnaround || data.state
        matches FighterState::RunEnd);
    if c.directional_action matches BufferedInput::Buffered {
        value: DirectionalAction::Smash(direction),
        ..
    } && direction.horizontal_spec() matches Some(side) && (side != data.facing
        || can_dash_same_direction) {
        Some(FighterState::Dash)
    } else {
        None
    }
}

pub fn try_dash(c: &Control, data: &InterruptPlayerData) -> (r: Option<FighterState>)
    ensures
        r == try_dash_spec(*c, *data),
{
    let can_dash_same_direction = match data.state {
        FighterState::Dash | FighterState::Run | FighterState::RunTurnaround
        | FighterState::RunEnd => false,
        _ => true,
    };
    if let BufferedInput::Buffered { value: DirectionalAction::Smash(direction), .. } = c
        .directional_action {
        if let Some(side) = direction.horizontal() {
            if side != data.facing || can_dash_same_direction {
                return Some(FighterState::Dash);
            }
        }
    }
    None
}

/// A half-circle ending sideways against its rotation starts a moonwalk.
pub open spec fn try_moonwalk_spec(c: Control) -> Option<FighterState> {
    if c.directional_action matches BufferedInput::Buffered {
        value: DirectionalAction::HalfCircle(direction, rotation),
        ..
    } && ((direction == CardinalDirection::Left && rotation == RotationDirection::Clockwise) || (
    direction == CardinalDirection::Right && rotation == RotationDirection::CounterClockwise)) {
        Some(FighterState::Moonwalk)
    } else {
        None
    }
}

pub fn try_moonwalk(c: &Control) -> (r: Option<FighterState>)
    ensures
        r == try_moonwalk_spec(*c),
{
    if let BufferedInput::Buffered { value: DirectionalAction::HalfCircle(direction, rotation), .. }
        = c.directional_action {
        match (direction, rotation) {
            (CardinalDirection::Left, RotationDirection::Clockwise) => Some(
                FighterState::Moonwalk,
            ),
            (CardinalDirection::Right, RotationDirection::CounterClockwise) => Some(
                FighterState::Moonwalk,
            ),
            _ => None,
        }
    } else {
        None
    }
}

/// Whether the buffered discrete action is exactly `a`.
pub open spec fn has_action_spec(c: Control, a: Action) -> bool {
    c.action matches BufferedInput::Buffered { value, .. } && value == a
}

/// A buffered jump press starts a jump squat.
pub open spec fn try_jump_spec(c: Control) -> Option<FighterState> {
    if has_action_spec(c, Action::Jump) {
        Some(FighterState::JumpSquat)
    } else {
        None
    }
}

pub fn try_jump(c: &Control) -> (r: Option<FighterState>)
    ensures
        r == try_jump_spec(*c),
{
    if c.has_action(&Action::Jump) {
        Some(FighterState::JumpSquat)
    } else {
        None
    }
}

/// A stick held against the current facing begins a turnaround.
pub open spec fn try_turnaround_spec(c: Control, data: InterruptPlayerData) -> Option<
    FighterState,
> {
    if data.state == FighterState::Turnaround {
        None
    } else if cardinal_of(c.stick) matches Some(direction) && direction.horizontal_spec() == Some(
        data.facing.flip_spec(),
    ) {
        Some(FighterState::Turnaround)
    } else {
        None
    }
}

pub fn try_turnaround(c: &Control, data: &InterruptPlayerData) -> (r: Option<FighterState>)
    ensures
        r == try_turnaround_spec(*c, *data),
{
    if data.state == FighterState::Turnaround {
        return None;
    }
    if let Some(direction) = c.stick.get_cardinal_direction() {
        if direction.is_side(data.facing.flip()) {
            return Some(FighterState::Turnaround);
        }
    }
    None
}

/// The running counterpart of the turnaround.
pub open spec fn try_run_turnaround_spec(c: Control, data: InterruptPlayerData) -> Option<
    FighterState,
> {
    if data.state == FighterState::RunTurnaround {
        None
    } else if cardinal_of(c.stick) matches Some(direction) && direction.horizontal_spec() == Some(
        data.facing.flip_spec(),
    ) {
        Some(FighterState::RunTurnaround)
    } else {
        None
    }
}

pub fn try_run_turnaround(c: &Control, data: &InterruptPlayerData) -> (r: Option<FighterState>)
    ensures
        r == try_run_turnaround_spec(*c, *data),
{
    if data.state == FighterState::RunTurnaround {
        return None;
    }
    if let Some(direction) = c.stick.get_cardinal_direction() {
        if direction.is_side(data.facing.flip()) {
            return Some(FighterState::RunTurnaround);
        }
    }
    None
}

/// A stick held with the current facing starts a walk.
pub open spec fn try_walk_spec(c: Control, data: InterruptPlayerData) -> Option<FighterState> {
    if data.state == FighterState::Walk {
        None
    } else if cardinal_of(c.stick) matches Some(direction) && direction.horizontal_spec() == Some(
        data.facing,
    ) {
        Some(FighterState::Walk)
    } else {
        None
    }
}

pub fn try_walk(c: &Control, data: &InterruptPlayerData) -> (r: Option<FighterState>)
    ensures
        r == try_walk_spec(*c, *data),
{
    if data.state == FighterState::Walk {
        return None;
    }
    if let Some(direction) = c.stick.get_cardinal_direction() {
        if direction.is_side(data.facing) {
            return Some(FighterState::Walk);
        }
    }
    None
}

/// A stick pressed down past the crouch threshold begins a crouch.
pub open spec fn try_crouch_spec(c: Control) -> Option<FighterState> {
    if cardinal_of(c.stick) == Some(CardinalDirection::Down) && c.stick.y < -CROUCH_THRESHOLD {
        Some(FighterState::EnterCrouch)
    } else {
        None
    }
}

pub fn try_crouch(c: &Control) -> (r: Option<FighterState>)
    ensures
        r == try_crouch_spec(*c),
{
    if let Some(direction) = c.stick.get_cardinal_direction() {
        if direction == CardinalDirection::Down && c.stick.y < -CROUCH_THRESHOLD {
            return Some(FighterState::EnterCrouch);
        }
    }
    None
}

/// A stick rising past the crouch threshold leaves the crouch.
pub open spec fn try_end_crouch_spec(c: Control) -> Option<FighterState> {
    if c.stick.y >= -CROUCH_THRESHOLD {
        Some(FighterState::ExitCrouch)
    } else {
        None
    }
}

pub fn try_end_crouch(c: &Control) -> (r: Option<FighterState>)
    ensures
        r == try_end_crouch_spec(*c),
{
    if c.stick.y >= -CROUCH_THRESHOLD {
        Some(FighterState::ExitCrouch)
    } else {
        None
    }
}

/// A stick with no sideways component winds a run down, in two steps.
pub open spec fn try_end_run_spec(c: Control, data: InterruptPlayerData) -> Option<FighterState> {
    if cardinal_of(c.stick) matches Some(d) && d.horizontal_spec() is Some {
        None
    } else {
        match data.state {
            FighterState::Run => Some(FighterState::RunEnd),
            FighterState::RunEnd => Some(FighterState::Idle),
            _ => None,
        }
    }
}

pub fn try_end_run(c: &Control, data: &InterruptPlayerData) -> (r: Option<FighterState>)
    ensures
        r == try_end_run_spec(*c, *data),
{
    if let Some(d) = c.stick.get_cardinal_direction() {
        if d.is_horizontal() {
            return None;
        }
    }
    match data.state {
        FighterState::Run => Some(FighterState::RunEnd),
        FighterState::RunEnd => Some(FighterState::Idle),
        _ => None,
    }
}

/// A stick with no sideways component ends a walk at once.
pub open spec fn try_end_walk_spec(c: Control) -> Option<FighterState> {
    if cardinal_of(c.stick) matches Some(d) && d.horizontal_spec() is Some {
        None
    } else {
        Some(FighterState::Idle)
    }
}

pub fn try_end_walk(c: &Control) -> (r: Option<FighterState>)
    ensures
        r == try_end_walk_spec(*c),
{
    if let Some(d) = c.stick.get_cardinal_direction() {
        if d.is_horizontal() {
            return None;
        }
    }
    Some(FighterState::Idle)
}

/// A buffered shield press starts an airdodge along the stick direction.
pub open spec fn try_airdodge_spec(c: Control) -> Option<FighterState> {
    if has_action_spec(c, Action::Shield) {
        Some(FighterState::Airdodge(c.stick.normalize_spec()))
    } else {
        None
    }
}

pub fn try_airdodge(c: &Control) -> (r: Option<FighterState>)
    requires
        c.stick.bounded(crate::math::COORD_LIMIT as int),
    ensures
        r == try_airdodge_spec(*c),
{
    if c.has_action(&Action::Shield) {
        Some(FighterState::Airdodge(c.stick.normalize_or_zero()))
    } else {
        None
    }
}

/// A buffered attack press starts (or restarts) the attack combo.
pub open spec fn try_attack_spec(c: Control) -> Option<FighterState> {
    if has_action_spec(c, Action::Attack) {
        Some(FighterState::Attack(0))
    } else {
        None
    }
}

pub fn try_attack(c: &Control) -> (r: Option<FighterState>)
    ensures
        r == try_attack_spec(*c),
{
    if c.has_action(&Action::Attack) {
        Some(FighterState::Attack(0))
    } else {
        None
    }
}

/// The first hit among two interrupt outcomes.
pub open spec fn or_opt(a: Option<FighterState>, b: Option<FighterState>) -> Option<FighterState> {
    if a is Some {
        a
    } else {
        b
    }
}

/// The closed set of interrupt predicates a state's IASA window may use.
/// Enumerating them keeps transition rules free of open-ended dispatch.
#[derive(Clone, Copy, Debug, PartialEq, Eq, Structural)]
pub enum InterruptKind {
    Idle,
    Walk,
    Turnaround,
    Run,
    Crouch,
    Airdodge,
    Dash,
    Moonwalk,
    Attack { next_stage: u8 },
}

/// Idle accepts, in priority order: dash, attack, jump, turnaround, walk,
/// crouch.
pub open spec fn default_idle_interrupt_spec(c: Control, data: InterruptPlayerData) -> Option<
    FighterState,
> {
    or_opt(
        try_dash_spec(c, data),
        or_opt(
            try_attack_spec(c),
            or_opt(
                try_jump_spec(c),
                or_opt(
                    try_turnaround_spec(c, data),
                    or_opt(try_walk_spec(c, data), try_crouch_spec(c)),
                ),
            ),
        ),
    )
}

/// Run accepts, in priority order: jump, crouch, reversal, winding down.
pub open spec fn default_run_interrupt_spec(c: Control, data: InterruptPlayerData) -> Option<
    FighterState,
> {
    or_opt(
        try_jump_spec(c),
        or_opt(
            try_crouch_spec(c),
            or_opt(try_run_turnaround_spec(c, data), try_end_run_spec(c, data)),
        ),
    )
}

/// What each interrupt kind yields for the given inputs.
pub open spec fn eval_interrupt_spec(
    kind: InterruptKind,
    c: Control,
    data: InterruptPlayerData,
) -> Option<FighterState> {
    match kind {
        InterruptKind::Idle => default_idle_interrupt_spec(c, data),
        InterruptKind::Walk => or_opt(default_idle_interrupt_spec(c, data), try_end_walk_spec(c)),
        InterruptKind::Turnaround => or_opt(try_dash_spec(c, data), try_jump_spec(c)),
        InterruptKind::Run => default_run_interrupt_spec(c, data),
        InterruptKind::Crouch => or_opt(try_jump_spec(c), try_end_crouch_spec(c)),
        InterruptKind::Airdodge => try_airdodge_spec(c),
        InterruptKind::Dash => or_opt(
            try_jump_spec(c),
            or_opt(try_moonwalk_spec(c), try_dash_spec(c, data)),
        ),
        InterruptKind::Moonwalk => or_opt(try_jump_spec(c), try_moonwalk_spec(c)),
        InterruptKind::Attack { next_stage } => if has_action_spec(c, Action::Attack) {
            Some(FighterState::Attack(next_stage))
        } else {
            None
        },
    }
}

/// Evaluates an interrupt kind on the live inputs.
pub fn eval_interrupt(kind: &InterruptKind, c: &Control, data: &InterruptPlayerData) -> (r: Option<
    FighterState,
>)
    requires
        c.stick.bounded(crate::math::COORD_LIMIT as int),
    ensures
        r == eval_interrupt_spec(*kind, *c, *data),
{
    match kind {
        InterruptKind::Idle => default_idle_eval(c, data),
        InterruptKind::Walk => {
            match default_idle_eval(c, data) {
                Some(s) => Some(s),
                None => try_end_walk(c),
            }
        },
        InterruptKind::Turnaround => {
            match try_dash(c, data) {
                Some(s) => Some(s),
                None => try_jump(c),
            }
        },
        InterruptKind::Run => default_run_eval(c, data),
        InterruptKind::Crouch => {
            match try_jump(c) {
                Some(s) => Some(s),
                None => try_end_crouch(c),
            }
        },
        InterruptKind::Airdodge => try_airdodge(c),
        InterruptKind::Dash => {
            match try_jump(c) {
                Some(s) => Some(s),
                None => match try_moonwalk(c) {
                    Some(s) => Some(s),
                    None => try_dash(c, data),
                },
            }
        },
        InterruptKind::Moonwalk => {
            match try_jump(c) {
                Some(s) => Some(s),
                None => try_moonwalk(c),
            }
        },
        InterruptKind::Attack { next_stage } => {
            if c.has_action(&Action::Attack) {
                Some(FighterState::Attack(*next_stage))
            } else {
                None
            }
        },
    }
}

fn default_idle_eval(c: &Control, data: &InterruptPlayerData) -> (r: Option<FighterState>)
    ensures
        r == default_idle_interrupt_spec(*c, *data),
{
    match try_dash(c, data) {
        Some(s) => Some(s),
        None => match try_attack(c) {
            Some(s) => Some(s),
            None => match try_jump(c) {
                Some(s) => Some(s),
                None => match try_turnaround(c, data) {
                    Some(s) => Some(s),
                    None => match try_walk(c, data) {
                        Some(s) => Some(s),
                        None => try_crouch(c),
                    },
                },
            },
        },
    }
}

fn default_run_eval(c: &Control, data: &InterruptPlayerData) -> (r: Option<FighterState>)
    ensures
        r == default_run_interrupt_spec(*c, *data),
{
    match try_jump(c) {
        Some(s) => Some(s),
        None => match try_crouch(c) {
            Some(s) => Some(s),
            None => match try_run_turnaround(c, data) {
                Some(s) => Some(s),
                None => try_end_run(c, data),
            },
        },
    }
}

/// How a state naturally ends: never, or unconditionally on a frame.
#[derive(Clone, Copy, Debug, PartialEq, Eq, Structural)]
pub enum StateEnd {
    Never,
    OnFrame { frame: FrameNumber, next_state: FighterState },
}

impl Default for StateEnd {
    fn default() -> (r: Self)
        ensures
            r == StateEnd::Never,
    {
        StateEnd::Never
    }
}

impl StateEnd {
    pub fn idle_on_frame(frame: FrameNumber) -> (r: Self)
        ensures
            r == (StateEnd::OnFrame { frame, next_state: FighterState::Idle }),
    {
        StateEnd::OnFrame { frame, next_state: FighterState::Idle }
    }
}

/// Interruptible As Soon As: the frame threshold past which the interrupt
/// predicate is consulted.
#[derive(Clone, Copy, Debug, PartialEq, Eq, Structural)]
pub struct IASA {
    pub frame: FrameNumber,
    pub kind: InterruptKind,
}

impl IASA {
    pub fn new(frame: FrameNumber, kind: InterruptKind) -> (r: Option<Self>)
        ensures
            r == Some(IASA { frame, kind }),
    {
        Some(IASA { frame, kind })
    }

    pub fn immediate(kind: InterruptKind) -> (r: Option<Self>)
        ensures
            r == Some(IASA { frame: 0, kind }),
    {
        Some(IASA { frame: 0, kind })
    }
}

/// A state's transition rule: its natural end and its interrupt window.
#[derive(Clone, Copy, Debug, PartialEq, Eq, Structural)]
pub struct FighterStateTransition {
    pub end: StateEnd,
    pub iasa: Option<IASA>,
}

impl Default for FighterStateTransition {
    fn default() -> (r: Self)
        ensures
            r == (FighterStateTransition { end: StateEnd::Never, iasa: None }),
    {
        FighterStateTransition { end: StateEnd::Never, iasa: None }
    }
}

/// The transition rule each state carries by default. Character modules may
/// override single states (the attack combo does).
pub open spec fn default_for_state_spec(state: FighterState) -> FighterStateTransition {
    match state {
        FighterState::Idle => FighterStateTransition {
            end: StateEnd::Never,
            iasa: Some(IASA { frame: 0, kind: InterruptKind::Idle }),
        },
        FighterState::Walk => FighterStateTransition {
            end: StateEnd::Never,
            iasa: Some(IASA { frame: 0, kind: InterruptKind::Walk }),
        },
        FighterState::Turnaround => FighterStateTransition {
            end: StateEnd::OnFrame {
                frame: TURNAROUND_DURATION_FRAMES,
                next_state: FighterState::Idle,
            },
            iasa: Some(IASA { frame: 0, kind: InterruptKind::Turnaround }),
        },
        FighterState::Run => FighterStateTransition {
            end: StateEnd::Never,
            iasa: Some(IASA { frame: 0, kind: InterruptKind::Run }),
        },
        FighterState::RunEnd => FighterStateTransition {
            end: StateEnd::OnFrame { frame: 1, next_state: FighterState::RunTurnaround },
            iasa: Some(IASA { frame: 0, kind: InterruptKind::Run }),
        },
        FighterState::RunTurnaround => FighterStateTransition {
            end: StateEnd::OnFrame {
                frame: RUN_TURNAROUND_DURATION_FRAMES,
                next_state: FighterState::Run,
            },
            iasa: Some(IASA { frame: 0, kind: InterruptKind::Run }),
        },
        FighterState::EnterCrouch => FighterStateTransition {
            end: StateEnd::OnFrame {
                frame: CROUCH_TRANSITION_THRESHOLD_FRAME,
                next_state: FighterState::Crouch,
            },
            iasa: None,
        },
        FighterState::Crouch => FighterStateTransition {
            end: StateEnd::Never,
            iasa: Some(IASA { frame: 0, kind: InterruptKind::Crouch }),
        },
        FighterState::ExitCrouch => FighterStateTransition {
            end: StateEnd::OnFrame {
                frame: CROUCH_TRANSITION_THRESHOLD_FRAME,
                next_state: FighterState::Idle,
            },
            iasa: None,
        },
        FighterState::LandCrouch => FighterStateTransition {
            end: StateEnd::OnFrame {
                frame: DEFAULT_LAND_CROUCH_DURATION,
                next_state: FighterState::Idle,
            },
            iasa: Some(IASA { frame: DEFAULT_LAND_CROUCH_DURATION, kind: InterruptKind::Idle }),
        },
        FighterState::JumpSquat => FighterStateTransition {
            end: StateEnd::Never,
            iasa: Some(IASA { frame: 0, kind: InterruptKind::Airdodge }),
        },
        FighterState::IdleAirborne => FighterStateTransition {
            end: StateEnd::Never,
            iasa: Some(IASA { frame: 0, kind: InterruptKind::Airdodge }),
        },
        FighterState::Airdodge(_) => FighterStateTransition {
            end: StateEnd::OnFrame {
                frame: AIRDODGE_DURATION_FRAMES,
                next_state: FighterState::IdleAirborne,
            },
            iasa: None,
        },
        FighterState::Dash => FighterStateTransition {
            end: StateEnd::OnFrame { frame: DEFAULT_DASH_DURATION, next_state: FighterState::Run },
            iasa: Some(IASA { frame: 0, kind: InterruptKind::Dash }),
        },
        FighterState::Moonwalk => FighterStateTransition {
            end: StateEnd::OnFrame { frame: DEFAULT_DASH_DURATION, next_state: FighterState::Idle },
            iasa: Some(IASA { frame: 0, kind: InterruptKind::Moonwalk }),
        },
        _ => FighterStateTransition { end: StateEnd::Never, iasa: None },
    }
}

impl FighterStateTransition {
    /// The idle interrupt chain, reused by several states.
    pub fn default_idle_interrupt() -> (r: InterruptKind)
        ensures
            r == InterruptKind::Idle,
    {
        InterruptKind::Idle
    }

    /// The run interrupt chain.
    pub fn default_run_interrupt() -> (r: InterruptKind)
        ensures
            r == InterruptKind::Run,
    {
        InterruptKind::Run
    }

    pub fn default_for_state(state: &FighterState) -> (r: Self)
        ensures
            r == default_for_state_spec(*state),
    {
        match state {
            FighterState::Idle => Self {
                end: StateEnd::Never,
                iasa: IASA::immediate(InterruptKind::Idle),
            },
            FighterState::Walk => Self {
                end: StateEnd::Never,
                iasa: IASA::immediate(InterruptKind::Walk),
            },
            FighterState::Turnaround => Self {
                end: StateEnd::OnFrame {
                    frame: TURNAROUND_DURATION_FRAMES,
                    next_state: FighterState::Idle,
                },
                iasa: IASA::immediate(InterruptKind::Turnaround),
            },
            FighterState::Run => Self {
                end: StateEnd::Never,
                iasa: IASA::immediate(InterruptKind::Run),
            },
            FighterState::RunEnd => Self {
                end: StateEnd::OnFrame { frame: 1, next_state: FighterState::RunTurnaround },
                iasa: IASA::immediate(InterruptKind::Run),
            },
            FighterState::RunTurnaround => Self {
                end: StateEnd::OnFrame {
                    frame: RUN_TURNAROUND_DURATION_FRAMES,
                    next_state: FighterState::Run,
                },
                iasa: IASA::immediate(InterruptKind::Run),
            },
            FighterState::EnterCrouch => Self {
                end: StateEnd::OnFrame {
                    frame: CROUCH_TRANSITION_THRESHOLD_FRAME,
                    next_state: FighterState::Crouch,
                },
                iasa: None,
            },
            FighterState::Crouch => Self {
                end: StateEnd::Never,
                iasa: IASA::immediate(InterruptKind::Crouch),
            },
            FighterState::ExitCrouch => Self {
                end: StateEnd::idle_on_frame(CROUCH_TRANSITION_THRESHOLD_FRAME),
                iasa: None,
            },
            FighterState::LandCrouch => Self::idle_on_frame(DEFAULT_LAND_CROUCH_DURATION),
            FighterState::JumpSquat => Self {
                end: StateEnd::Never,
                iasa: IASA::immediate(InterruptKind::Airdodge),
            },
            FighterState::IdleAirborne => Self {
                end: StateEnd::Never,
                iasa: IASA::immediate(InterruptKind::Airdodge),
            },
            FighterState::Airdodge(..) => Self {
                end: StateEnd::OnFrame {
                    frame: AIRDODGE_DURATION_FRAMES,
                    next_state: FighterState::IdleAirborne,
                },
                iasa: None,
            },
            FighterState::Dash => Self {
                end: StateEnd::OnFrame {
                    frame: DEFAULT_DASH_DURATION,
                    next_state: FighterState::Run,
                },
                iasa: IASA::immediate(InterruptKind::Dash),
            },
            FighterState::Moonwalk => Self {
                end: StateEnd::OnFrame {
                    frame: DEFAULT_DASH_DURATION,
                    next_state: FighterState::Idle,
                },
                iasa: IASA::immediate(InterruptKind::Moonwalk),
            },
            _ => Self { end: StateEnd::Never, iasa: None },
        }
    }

    fn idle_on_frame(frame: FrameNumber) -> (r: Self)
        ensures
            r == (FighterStateTransition {
                end: StateEnd::OnFrame { frame, next_state: FighterState::Idle },
                iasa: Some(IASA { frame, kind: InterruptKind::Idle }),
            }),
    {
        Self { end: StateEnd::idle_on_frame(frame), iasa: IASA::new(frame, InterruptKind::Idle) }
    }
}

/// The interrupt outcome of a tick: the IASA window must be open and its
/// predicate must pick a state.
pub open spec fn interrupt_transition(
    props: FighterStateTransition,
    frame: FrameNumber,
    c: Control,
    data: InterruptPlayerData,
) -> Option<FighterState> {
    match props.iasa {
        Some(iasa) => if iasa.frame <= frame {
            eval_interrupt_spec(iasa.kind, c, data)
        } else {
            None
        },
        None => None,
    }
}

/// The natural-end outcome of a tick.
pub open spec fn end_transition(props: FighterStateTransition, frame: FrameNumber) -> Option<
    FighterState,
> {
    match props.end {
        StateEnd::OnFrame { frame: f, next_state } => if f <= frame {
            Some(next_state)
        } else {
            None
        },
        StateEnd::Never => None,
    }
}

/// The per-target-state buffer clearing policy: entering a dash or moonwalk
/// consumes the directional gesture, entering an airdodge consumes both
/// buffers, anything else consumes the discrete action. This keeps one
/// buffered input from re-triggering the same transition next tick.
pub open spec fn cleared_buffers(c: Control, target: FighterState) -> Control {
    match target {
        FighterState::Dash | FighterState::Moonwalk => Control {
            directional_action: BufferedInput::Empty,
            ..c
        },
        FighterState::Airdodge(_) => Control {
            directional_action: BufferedInput::Empty,
            action: BufferedInput::Empty,
            ..c
        },
        _ => Control { action: BufferedInput::Empty, ..c },
    }
}

/// This tick's transition, if any: an open interrupt window wins over the
/// natural end.
pub open spec fn transition_outcome(
    props: FighterStateTransition,
    frame: FrameNumber,
    c: Control,
    data: InterruptPlayerData,
) -> Option<FighterState> {
    match interrupt_transition(props, frame, c, data) {
        Some(ns) => Some(ns),
        None => end_transition(props, frame),
    }
}

/// Applies the clearing policy a transition's target state demands.
pub fn clear_buffers_for(control: &mut Control, target: &FighterState)
    requires
        old(control).wf(),
    ensures
        final(control).wf(),
        *final(control) == cleared_buffers(*old(control), *target),
{
    match target {
        FighterState::Dash | FighterState::Moonwalk => {
            control.directional_action = BufferedInput::Empty;
        },
        FighterState::Airdodge(..) => {
            control.directional_action = BufferedInput::Empty;
            control.action = BufferedInput::Empty;
        },
        _ => {
            control.action = BufferedInput::Empty;
        },
    }
}

/// Evaluates and applies this tick's transition for one actor: an open
/// interrupt window wins over the natural end; any transition — interrupt
/// or natural end alike — resets the frame counter to zero and applies the
/// buffer clearing policy, so one buffered input never re-triggers the
/// same transition on the next tick.
pub fn apply_state_transition(
    props: &FighterStateTransition,
    state_frame: &mut FrameCount,
    state: &mut FighterState,
    control: &mut Control,
    facing: LeftRight,
) -> (transitioned: bool)
    requires
        old(control).wf(),
    ensures
        final(control).wf(),
        ({
            let data = InterruptPlayerData { state: *old(state), facing };
            match transition_outcome(*props, old(state_frame).0, *old(control), data) {
                Some(ns) => {
                    &&& transitioned
                    &&& *final(state) == ns
                    &&& final(state_frame).0 == 0
                    &&& *final(control) == cleared_buffers(*old(control), ns)
                },
                None => {
                    &&& !transitioned
                    &&& *final(state) == *old(state)
                    &&& *final(state_frame) == *old(state_frame)
                    &&& *final(control) == *old(control)
                },
            }
        }),
{
    let frame_number = state_frame.0;
    let data = InterruptPlayerData { state: *state, facing };
    let mut interrupted: Option<FighterState> = None;
    if let Some(iasa) = &props.iasa {
        if iasa.frame <= frame_number {
            interrupted = eval_interrupt(&iasa.kind, control, &data);
        }
    }
    if let Some(new_state) = interrupted {
        *state = new_state;
        state_frame.0 = 0;
        clear_buffers_for(control, &new_state);
        true
    } else if let StateEnd::OnFrame { frame, next_state } = props.end {
        if frame <= frame_number {
            *state = next_state;
            state_frame.0 = 0;
            clear_buffers_for(control, &next_state);
            true
        } else {
            false
        }
    } else {
        false
    }
}

/// The transition decision reads the stick, the buffers and the held set,
/// never the stick history: two control states agreeing on those four
/// fields decide alike.
pub proof fn lemma_transition_ignores_history(
    props: FighterStateTransition,
    frame: FrameNumber,
    c1: Control,
    c2: Control,
    data: InterruptPlayerData,
)
    requires
        c1.stick == c2.stick,
        c1.action == c2.action,
        c1.directional_action == c2.directional_action,
        c1.held_actions == c2.held_actions,
    ensures
        transition_outcome(props, frame, c1, data) == transition_outcome(props, frame, c2, data),
{
    assert(try_dash_spec(c1, data) == try_dash_spec(c2, data));
    assert(try_moonwalk_spec(c1) == try_moonwalk_spec(c2));
    assert(try_jump_spec(c1) == try_jump_spec(c2));
    assert(try_turnaround_spec(c1, data) == try_turnaround_spec(c2, data));
    assert(try_run_turnaround_spec(c1, data) == try_run_turnaround_spec(c2, data));
    assert(try_walk_spec(c1, data) == try_walk_spec(c2, data));
    assert(try_crouch_spec(c1) == try_crouch_spec(c2));
    assert(try_end_crouch_spec(c1) == try_end_crouch_spec(c2));
    assert(try_end_run_spec(c1, data) == try_end_run_spec(c2, data));
    assert(try_end_walk_spec(c1) == try_end_walk_spec(c2));
    assert(try_airdodge_spec(c1) == try_airdodge_spec(c2));
    assert(try_attack_spec(c1) == try_attack_spec(c2));
    match props.iasa {
        Some(iasa) => {
            assert(eval_interrupt_spec(iasa.kind, c1, data) == eval_interrupt_spec(
                iasa.kind,
                c2,
                data,
            ));
        },
        None => {},
    }
}

/// Law: intangibility can only hold strictly inside the airdodge duration,
/// never on its first frame nor at or past its natural end.
pub proof fn lemma_airdodge_intangibility_interior(state: FighterState, frame: FrameNumber)
    ensures
        state.is_intangible_spec(frame) ==> 0 < frame < AIRDODGE_DURATION_FRAMES,
{
}

/// Law: a walk interrupt needs sideways stick input aligned with the
/// current facing, a turnaround interrupt needs it opposite, and no stick
/// vector can trigger both.
pub proof fn lemma_walk_turnaround_exclusive(c: Control, data: InterruptPlayerData)
    ensures
        try_walk_spec(c, data) is Some ==> (cardinal_of(c.stick) matches Some(d)
            && d.horizontal_spec() == Some(data.facing)),
        try_turnaround_spec(c, data) is Some ==> (cardinal_of(c.stick) matches Some(d)
            && d.horizontal_spec() == Some(data.facing.flip_spec())),
        !(try_walk_spec(c, data) is Some && try_turnaround_spec(c, data) is Some),
        default_idle_interrupt_spec(c, data) == Some(FighterState::Walk) ==> try_walk_spec(c, data)
            == Some(FighterState::Walk),
        default_idle_interrupt_spec(c, data) == Some(FighterState::Turnaround)
            ==> try_turnaround_spec(c, data) == Some(FighterState::Turnaround),
{
}

/// Law: whatever the target state, applying a transition leaves no
/// residual buffered input of the kind its clearing policy names, and
/// leaves the other buffer untouched.
pub proof fn lemma_buffer_clearing_policy(c: Control, target: FighterState)
    ensures
        match target {
            FighterState::Dash | FighterState::Moonwalk => cleared_buffers(
                c,
                target,
            ).directional_action is Empty && cleared_buffers(c, target).action == c.action,
            FighterState::Airdodge(_) => cleared_buffers(c, target).directional_action is Empty
                && cleared_buffers(c, target).action is Empty,
            _ => cleared_buffers(c, target).action is Empty && cleared_buffers(
                c,
                target,
            ).directional_action == c.directional_action,
        },
{
}

} // verus!
