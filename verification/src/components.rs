//! Teams, game phases, shot types and curl directions, and the per-stone data
//! the rules read.
use vstd::prelude::*;

use crate::constants::{
    CURL_ANGULAR_VELOCITY_BITS, DRAW_WEIGHT_BITS, FREEZE_WEIGHT_BITS, GUARD_WEIGHT_BITS,
    HIT_AND_ROLL_WEIGHT_BITS, TAKEOUT_WEIGHT_BITS, VISUAL_ROTATION_SPEED_BITS,
};
use crate::scalar::{of_bits, real_lt, Scalar, SIGN_BIT};

verus! {

// ============================================================================
// TEAM
// ============================================================================

/// One of the two teams in curling.
#[derive(Clone, Copy, PartialEq, Eq, Debug, Structural)]
pub enum Team {
    /// Team 1 (default colour red).
    One,
    /// Team 2 (default colour yellow).
    Two,
}

/// The team that throws shot `index` when Team 1 throws first.
pub open spec fn team_for_index(index: int) -> Team {
    if index % 2 == 0 {
        Team::One
    } else {
        Team::Two
    }
}

/// The other team.
pub open spec fn other_team(t: Team) -> Team {
    match t {
        Team::One => Team::Two,
        Team::Two => Team::One,
    }
}

/// A team's display colour (sRGB components).
pub open spec fn team_color(t: Team) -> (Scalar, Scalar, Scalar) {
    match t {
        Team::One => (of_bits(0x3f59_999a), of_bits(0x3e19_999a), of_bits(0x3e19_999a)),
        Team::Two => (of_bits(0x3f73_3333), of_bits(0x3f59_999a), of_bits(0x3e19_999a)),
    }
}

impl Team {
    /// Team 1 throws the even shots (0, 2, 4, ...), Team 2 the odd ones.
    pub fn from_shot_index(index: u8) -> (r: Team)
        ensures
            r == team_for_index(index as int),
    {
        if index % 2 == 0 {
            Team::One
        } else {
            Team::Two
        }
    }

    /// The team's display name.
    pub fn name(self) -> (r: &'static str)
        ensures
            self == Team::One ==> r@ == "Team 1"@,
            self == Team::Two ==> r@ == "Team 2"@,
    {
        match self {
            Team::One => "Team 1",
            Team::Two => "Team 2",
        }
    }

    /// The team's display colour as sRGB components: red (0.85, 0.15, 0.15)
    /// for Team 1, yellow (0.95, 0.85, 0.15) for Team 2.
    pub fn color(self) -> (r: (Scalar, Scalar, Scalar))
        ensures
            r == team_color(self),
    {
        match self {
            Team::One => (Scalar { bits: 0x3f59_999a }, Scalar { bits: 0x3e19_999a }, Scalar { bits: 0x3e19_999a }),
            Team::Two => (Scalar { bits: 0x3f73_3333 }, Scalar { bits: 0x3f59_999a }, Scalar { bits: 0x3e19_999a }),
        }
    }

    /// The opposing team.
    pub fn opponent(self) -> (r: Team)
        ensures
            r == other_team(self),
            r != self,
    {
        match self {
            Team::One => Team::Two,
            Team::Two => Team::One,
        }
    }
}

/// Consecutive shots are thrown by different teams, the opponent of the
/// opponent is the team itself, and the two teams show different colours.
pub proof fn law_teams_alternate(index: int)
    ensures
        team_for_index(index) != team_for_index(index + 1),
        team_for_index(index) == team_for_index(index + 2),
        other_team(other_team(team_for_index(index))) == team_for_index(index),
        other_team(team_for_index(index)) == team_for_index(index + 1),
        team_color(Team::One) != team_color(Team::Two),
{
}

// ============================================================================
// GAME PHASE
// ============================================================================

/// Phase of play within a shot.
#[derive(Clone, Copy, PartialEq, Eq, Debug, Structural)]
pub enum Phase {
    /// The skip is calling the shot (target and weight).
    CallingShot,
    /// The thrower fine-tunes the aim.
    Aiming,
    /// The stone has been released and is moving.
    StoneMoving,
    /// Every stone has stopped; the rules are applied.
    Resolve,
    /// The end's score is shown.
    ShowingScore,
    /// All ends have been played.
    Ended,
}

impl Default for Phase {
    fn default() -> (r: Phase)
        ensures
            r == Phase::CallingShot,
    {
        Phase::CallingShot
    }
}

/// The order of play: a phase may stay, or move on from calling to aiming,
/// from aiming to the moving stone, from the moving stone to resolving,
/// from resolving to calling the next shot or showing the end's score, and
/// from the score to calling the next end or to the end of the game.
/// Nothing follows the end of the game.
pub open spec fn phase_follows(from: Phase, to: Phase) -> bool {
    from == to || match from {
        Phase::CallingShot => to == Phase::Aiming,
        Phase::Aiming => to == Phase::StoneMoving,
        Phase::StoneMoving => to == Phase::Resolve,
        Phase::Resolve => to == Phase::CallingShot || to == Phase::ShowingScore,
        Phase::ShowingScore => to == Phase::CallingShot || to == Phase::Ended,
        Phase::Ended => false,
    }
}

/// A finished game stays finished, and a stone is always thrown from the
/// aiming phase.
pub proof fn law_phase_order(p: Phase)
    ensures
        phase_follows(Phase::Ended, p) <==> p == Phase::Ended,
        phase_follows(p, Phase::StoneMoving) ==> p == Phase::Aiming || p == Phase::StoneMoving,
        phase_follows(p, Phase::Ended) ==> p == Phase::ShowingScore || p == Phase::Ended,
{
}

// ============================================================================
// CAMERA MODE
// ============================================================================

/// Camera views used during play.
#[derive(Clone, Copy, PartialEq, Eq, Debug, Structural)]
pub enum CameraMode {
    /// Skip's view from the far end.
    SkipView,
    /// Top-down view of the far house.
    Overhead,
    /// Behind the stone during delivery.
    ThrowingView,
    /// Following the moving stone.
    FollowStone,
    /// Overhead view of the house while the shot settles.
    HouseOverhead,
    /// Orbit shown after the game.
    GameOverOrbit,
}

impl Default for CameraMode {
    fn default() -> (r: CameraMode)
        ensures
            r == CameraMode::SkipView,
    {
        CameraMode::SkipView
    }
}

impl CameraMode {
    /// The view the toggle leads to.
    pub open spec fn toggled_spec(self) -> CameraMode {
        if self == CameraMode::SkipView {
            CameraMode::Overhead
        } else {
            CameraMode::SkipView
        }
    }

    /// The `C` key toggles between the skip view and the overhead view; from
    /// any other view it returns to the skip view.
    pub fn toggled(self) -> (r: CameraMode)
        ensures
            r == self.toggled_spec(),
    {
        match self {
            CameraMode::SkipView => CameraMode::Overhead,
            CameraMode::Overhead => CameraMode::SkipView,
            _ => CameraMode::SkipView,
        }
    }
}

// ============================================================================
// SHOT TYPE
// ============================================================================

/// The kinds of shot a skip can call.
#[derive(Clone, Copy, PartialEq, Eq, Debug, Structural)]
pub enum ShotType {
    /// Soft shot into the house.
    Draw,
    /// Stone placed in front of the house.
    Guard,
    /// Removes an opponent's stone.
    Takeout,
    /// Stops against another stone.
    Freeze,
    /// Hits and rolls to a new position.
    HitAndRoll,
}

/// Bits of the default weight (1-10 scale) of each shot type.
pub open spec fn default_weight_bits(t: ShotType) -> u32 {
    match t {
        ShotType::Draw => DRAW_WEIGHT_BITS,
        ShotType::Guard => GUARD_WEIGHT_BITS,
        ShotType::Takeout => TAKEOUT_WEIGHT_BITS,
        ShotType::Freeze => FREEZE_WEIGHT_BITS,
        ShotType::HitAndRoll => HIT_AND_ROLL_WEIGHT_BITS,
    }
}

impl Default for ShotType {
    fn default() -> (r: ShotType)
        ensures
            r == ShotType::Draw,
    {
        ShotType::Draw
    }
}

impl ShotType {
    /// Default weight on the 1-10 scale: 4.0 draw, 3.5 guard, 8.5 takeout,
    /// 4.5 freeze, 7.0 hit and roll.
    pub fn default_weight(self) -> (r: Scalar)
        ensures
            r.bits == default_weight_bits(self),
    {
        match self {
            ShotType::Draw => Scalar { bits: DRAW_WEIGHT_BITS },
            ShotType::Guard => Scalar { bits: GUARD_WEIGHT_BITS },
            ShotType::Takeout => Scalar { bits: TAKEOUT_WEIGHT_BITS },
            ShotType::Freeze => Scalar { bits: FREEZE_WEIGHT_BITS },
            ShotType::HitAndRoll => Scalar { bits: HIT_AND_ROLL_WEIGHT_BITS },
        }
    }

    /// Display name.
    pub fn name(self) -> (r: &'static str)
        ensures
            self == ShotType::Draw ==> r@ == "Draw"@,
            self == ShotType::Guard ==> r@ == "Guard"@,
            self == ShotType::Takeout ==> r@ == "Takeout"@,
            self == ShotType::Freeze ==> r@ == "Freeze"@,
            self == ShotType::HitAndRoll ==> r@ == "Hit & Roll"@,
    {
        match self {
            ShotType::Draw => "Draw",
            ShotType::Guard => "Guard",
            ShotType::Takeout => "Takeout",
            ShotType::Freeze => "Freeze",
            ShotType::HitAndRoll => "Hit & Roll",
        }
    }
}

/// A guard is thrown no heavier than a draw, and a draw lighter than a takeout.
pub proof fn law_shot_weight_ordering()
    ensures
        !real_lt(
            of_bits(default_weight_bits(ShotType::Draw)),
            of_bits(default_weight_bits(ShotType::Guard)),
        ),
        real_lt(
            of_bits(default_weight_bits(ShotType::Draw)),
            of_bits(default_weight_bits(ShotType::Takeout)),
        ),
{
}

// ============================================================================
// CURL DIRECTION
// ============================================================================

/// Rotation given to the stone at release.
#[derive(Clone, Copy, PartialEq, Eq, Debug, Structural)]
pub enum CurlDirection {
    /// Clockwise: the stone curls left as it slows.
    InTurn,
    /// Counter-clockwise: the stone curls right as it slows.
    OutTurn,
}

/// Bits of the initial angular velocity of each curl direction: positive
/// for an in-turn, the same magnitude negated for an out-turn.
pub open spec fn angular_velocity_bits(c: CurlDirection) -> u32 {
    match c {
        CurlDirection::InTurn => CURL_ANGULAR_VELOCITY_BITS,
        CurlDirection::OutTurn => (CURL_ANGULAR_VELOCITY_BITS + SIGN_BIT) as u32,
    }
}

/// Bits of the initial visual spin of each curl direction.
pub open spec fn visual_rotation_bits(c: CurlDirection) -> u32 {
    match c {
        CurlDirection::InTurn => VISUAL_ROTATION_SPEED_BITS,
        CurlDirection::OutTurn => (VISUAL_ROTATION_SPEED_BITS + SIGN_BIT) as u32,
    }
}

impl Default for CurlDirection {
    fn default() -> (r: CurlDirection)
        ensures
            r == CurlDirection::InTurn,
    {
        CurlDirection::InTurn
    }
}

impl CurlDirection {
    /// Initial angular velocity: `+1.5` rad/s for an in-turn, `-1.5` for an
    /// out-turn.
    pub fn angular_velocity(self) -> (r: Scalar)
        ensures
            r.bits == angular_velocity_bits(self),
    {
        match self {
            CurlDirection::InTurn => Scalar { bits: CURL_ANGULAR_VELOCITY_BITS },
            CurlDirection::OutTurn => Scalar { bits: CURL_ANGULAR_VELOCITY_BITS + SIGN_BIT },
        }
    }

    /// Short display name.
    pub fn name(self) -> (r: &'static str)
        ensures
            self == CurlDirection::InTurn ==> r@ == "IN"@,
            self == CurlDirection::OutTurn ==> r@ == "OUT"@,
    {
        match self {
            CurlDirection::InTurn => "IN",
            CurlDirection::OutTurn => "OUT",
        }
    }
}

/// An in-turn spins with positive angular velocity, an out-turn with
/// negative, and the two have equal magnitude.
pub proof fn law_curl_directions_opposite()
    ensures
        real_lt(of_bits(0), of_bits(angular_velocity_bits(CurlDirection::InTurn))),
        real_lt(of_bits(angular_velocity_bits(CurlDirection::OutTurn)), of_bits(0)),
        of_bits(angular_velocity_bits(CurlDirection::InTurn)).magnitude() == of_bits(
            angular_velocity_bits(CurlDirection::OutTurn),
        ).magnitude(),
{
}

// ============================================================================
// STONES
// ============================================================================

/// Data attached to every stone on the ice.
#[derive(Clone, Copy, PartialEq, Eq, Debug, Structural)]
pub struct Stone {
    /// Owning team.
    pub team: Team,
    /// Curl the stone was thrown with.
    pub curl_direction: CurlDirection,
    /// Current angular velocity used for curl.
    pub angular_velocity: Scalar,
    /// Current visual spin in rad/s.
    pub visual_rotation_speed: Scalar,
}

impl Stone {
    /// A freshly released stone: angular velocity from the curl direction and
    /// visual spin `+0.7` rad/s for an in-turn, `-0.7` for an out-turn.
    pub fn released(team: Team, curl_direction: CurlDirection) -> (r: Stone)
        ensures
            r.team == team,
            r.curl_direction == curl_direction,
            r.angular_velocity.bits == angular_velocity_bits(curl_direction),
            r.visual_rotation_speed.bits == visual_rotation_bits(curl_direction),
    {
        let visual = if curl_direction == CurlDirection::InTurn {
            Scalar { bits: VISUAL_ROTATION_SPEED_BITS }
        } else {
            Scalar { bits: VISUAL_ROTATION_SPEED_BITS + SIGN_BIT }
        };
        Stone {
            team,
            curl_direction,
            angular_velocity: curl_direction.angular_velocity(),
            visual_rotation_speed: visual,
        }
    }
}

/// Delivery tracking for the stone being thrown (hog line rules).
#[derive(Clone, Copy, PartialEq, Eq, Debug, Structural)]
pub struct ThrowingStone {
    /// Largest Y position reached during delivery.
    pub max_y: Scalar,
    /// Whether the stone has touched another stone.
    pub hit_stone: bool,
}

impl ThrowingStone {
    /// Tracking for a stone released at height `start_y`.
    pub fn new(start_y: Scalar) -> (r: ThrowingStone)
        ensures
            r.max_y == start_y,
            !r.hit_stone,
    {
        ThrowingStone { max_y: start_y, hit_stone: false }
    }

    /// Records the stone's current Y position: the maximum moves up only when
    /// the new position is greater (`f32::max` followed by a `>` test).
    pub fn observe_y(&mut self, y: Scalar)
        ensures
            final(self).max_y == (if real_lt(old(self).max_y, y) {
                y
            } else {
                old(self).max_y
            }),
            final(self).hit_stone == old(self).hit_stone,
    {
        if y.gt(self.max_y) {
            self.max_y = y;
        }
    }

    /// Records a collision with another stone.
    pub fn record_hit(&mut self)
        ensures
            final(self).hit_stone,
            final(self).max_y == old(self).max_y,
    {
        self.hit_stone = true;
    }
}

} // verus!
