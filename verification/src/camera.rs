//! Which view the camera takes during play, and when it switches.
use vstd::prelude::*;

use crate::components::{CameraMode, Phase};
use crate::constants::{HOG_LINE_FAR_BITS, TEE_LINE_FAR_BITS};
use crate::scalar::{of_bits, real_lt, Point3, Position, Scalar};

verus! {

/// `TEE_FROM_CENTER + BACK_FROM_TEE + 2.0` = 21.204: Y of the skip's view.
pub const SKIP_VIEW_Y_BITS: u32 = 0x41a9_a1cb;

/// Height of the skip's view (1.7).
pub const SKIP_VIEW_HEIGHT_BITS: u32 = 0x3fd9_999a;

/// `FOLLOW_START_HEIGHT` = 0.8.
pub const FOLLOW_START_HEIGHT_BITS: u32 = 0x3f4c_cccd;

/// Transition into the skip or overhead view (0.5 s).
pub const VIEW_TRANSITION_BITS: u32 = 0x3f00_0000;

/// Transition into the throwing view (1.0 s).
pub const THROWING_TRANSITION_BITS: u32 = 0x3f80_0000;

/// Transition into following the stone (0.3 s).
pub const FOLLOW_TRANSITION_BITS: u32 = 0x3e99_999a;

/// Transition into the house overhead view (1.5 s).
pub const HOUSE_TRANSITION_BITS: u32 = 0x3fc0_0000;

/// A completed transition (1.0).
pub const TRANSITION_DONE_BITS: u32 = 0x3f80_0000;

/// Camera view and the progress of the move toward it.
#[derive(Clone, Copy, PartialEq, Eq, Debug, Structural)]
pub struct CameraState {
    /// Current view.
    pub mode: CameraMode,
    /// Where the camera is heading.
    pub target_position: Point3,
    /// Where the camera looks.
    pub target_look_at: Point3,
    /// Progress of the current transition (0 to 1).
    pub transition_progress: Scalar,
    /// Length of the current transition in seconds.
    pub transition_duration: Scalar,
    /// Height of the following camera (rises while following).
    pub follow_camera_height: Scalar,
    /// The thrown stone has passed the far hog line.
    pub stone_crossed_hog: bool,
    /// Angle of the game-over orbit.
    pub orbit_angle: Scalar,
}

impl Default for CameraState {
    /// The skip's view behind the far house, looking at the far tee, with no
    /// transition pending.
    fn default() -> (r: CameraState)
        ensures
            r.mode == CameraMode::SkipView,
            r.target_position == (Point3 {
                x: of_bits(0),
                y: of_bits(SKIP_VIEW_Y_BITS),
                z: of_bits(SKIP_VIEW_HEIGHT_BITS),
            }),
            r.target_look_at == (Point3 { x: of_bits(0), y: of_bits(TEE_LINE_FAR_BITS), z: of_bits(0) }),
            r.transition_progress == of_bits(TRANSITION_DONE_BITS),
            r.transition_duration == of_bits(VIEW_TRANSITION_BITS),
            r.follow_camera_height == of_bits(FOLLOW_START_HEIGHT_BITS),
            !r.stone_crossed_hog,
            r.orbit_angle == of_bits(0),
    {
        CameraState {
            mode: CameraMode::SkipView,
            target_position: Point3 {
                x: Scalar { bits: 0 },
                y: Scalar { bits: SKIP_VIEW_Y_BITS },
                z: Scalar { bits: SKIP_VIEW_HEIGHT_BITS },
            },
            target_look_at: Point3 {
                x: Scalar { bits: 0 },
                y: Scalar { bits: TEE_LINE_FAR_BITS },
                z: Scalar { bits: 0 },
            },
            transition_progress: Scalar { bits: TRANSITION_DONE_BITS },
            transition_duration: Scalar { bits: VIEW_TRANSITION_BITS },
            follow_camera_height: Scalar { bits: FOLLOW_START_HEIGHT_BITS },
            stone_crossed_hog: false,
            orbit_angle: Scalar { bits: 0 },
        }
    }
}

/// The view each phase wants: the skip or overhead view (whichever the
/// player chose) while calling, the throwing view while aiming, following
/// the stone until it crosses the far hog line and the house overhead after
/// that and while resolving and scoring, and the skip view when the game ends.
pub open spec fn desired_mode(phase: Phase, current: CameraMode, crossed_hog: bool) -> CameraMode {
    match phase {
        Phase::CallingShot => if current == CameraMode::SkipView || current == CameraMode::Overhead {
            current
        } else {
            CameraMode::SkipView
        },
        Phase::Aiming => CameraMode::ThrowingView,
        Phase::StoneMoving => if crossed_hog {
            CameraMode::HouseOverhead
        } else {
            CameraMode::FollowStone
        },
        Phase::Resolve | Phase::ShowingScore => CameraMode::HouseOverhead,
        Phase::Ended => CameraMode::SkipView,
    }
}

/// Length in seconds of the transition into a view the game switches to.
pub open spec fn transition_bits(mode: CameraMode) -> u32 {
    match mode {
        CameraMode::ThrowingView => THROWING_TRANSITION_BITS,
        CameraMode::FollowStone => FOLLOW_TRANSITION_BITS,
        CameraMode::HouseOverhead => HOUSE_TRANSITION_BITS,
        _ => VIEW_TRANSITION_BITS,
    }
}

/// The view the current phase wants.
pub fn desired_camera_mode(phase: Phase, current: CameraMode, crossed_hog: bool) -> (r: CameraMode)
    ensures
        r == desired_mode(phase, current, crossed_hog),
        phase == Phase::CallingShot ==> r == (if current == CameraMode::Overhead {
            CameraMode::Overhead
        } else {
            CameraMode::SkipView
        }),
{
    match phase {
        Phase::CallingShot => match current {
            CameraMode::SkipView | CameraMode::Overhead => current,
            _ => CameraMode::SkipView,
        },
        Phase::Aiming => CameraMode::ThrowingView,
        Phase::StoneMoving => if crossed_hog {
            CameraMode::HouseOverhead
        } else {
            CameraMode::FollowStone
        },
        Phase::Resolve | Phase::ShowingScore => CameraMode::HouseOverhead,
        Phase::Ended => CameraMode::SkipView,
    }
}

impl CameraState {
    /// Updates the view for the current phase.  While following, the camera
    /// notes when the tracked stone (at `tracked_stone_y`) passes the far hog
    /// line.  When the wanted view differs, the camera switches to it and
    /// restarts the transition; entering the follow view resets its height
    /// and the hog-line flag, entering the throwing view resets the flag.
    /// Returns whether the view changed.
    pub fn update_mode(&mut self, phase: Phase, tracked_stone_y: Option<Scalar>) -> (switched: bool)
        ensures
            ({
                let crossed = old(self).stone_crossed_hog || (old(self).mode
                    == CameraMode::FollowStone && match tracked_stone_y {
                    Some(y) => real_lt(of_bits(HOG_LINE_FAR_BITS), y),
                    None => false,
                });
                let wanted = desired_mode(phase, old(self).mode, crossed);
                &&& switched == (wanted != old(self).mode)
                &&& final(self).mode == wanted
                &&& final(self).target_position == old(self).target_position
                &&& final(self).target_look_at == old(self).target_look_at
                &&& final(self).orbit_angle == old(self).orbit_angle
                &&& if switched {
                    &&& final(self).transition_progress == of_bits(0)
                    &&& final(self).transition_duration == of_bits(transition_bits(wanted))
                    &&& final(self).follow_camera_height == (if wanted == CameraMode::FollowStone {
                        of_bits(FOLLOW_START_HEIGHT_BITS)
                    } else {
                        old(self).follow_camera_height
                    })
                    &&& final(self).stone_crossed_hog == (crossed && wanted
                        != CameraMode::FollowStone && wanted != CameraMode::ThrowingView)
                } else {
                    &&& final(self).transition_progress == old(self).transition_progress
                    &&& final(self).transition_duration == old(self).transition_duration
                    &&& final(self).follow_camera_height == old(self).follow_camera_height
                    &&& final(self).stone_crossed_hog == crossed
                }
            }),
    {
        if self.mode == CameraMode::FollowStone {
            if let Some(y) = tracked_stone_y {
                if y.gt(Scalar { bits: HOG_LINE_FAR_BITS }) && !self.stone_crossed_hog {
                    self.stone_crossed_hog = true;
                }
            }
        }
        let wanted = desired_camera_mode(phase, self.mode, self.stone_crossed_hog);
        if self.mode == wanted {
            return false;
        }
        self.mode = wanted;
        self.transition_progress = Scalar { bits: 0 };
        if wanted == CameraMode::FollowStone {
            self.follow_camera_height = Scalar { bits: FOLLOW_START_HEIGHT_BITS };
            self.stone_crossed_hog = false;
        }
        if wanted == CameraMode::ThrowingView {
            self.stone_crossed_hog = false;
        }
        self.transition_duration = match wanted {
            CameraMode::ThrowingView => Scalar { bits: THROWING_TRANSITION_BITS },
            CameraMode::FollowStone => Scalar { bits: FOLLOW_TRANSITION_BITS },
            CameraMode::HouseOverhead => Scalar { bits: HOUSE_TRANSITION_BITS },
            _ => Scalar { bits: VIEW_TRANSITION_BITS },
        };
        true
    }

    /// The view button: while calling the shot it swaps the skip and
    /// overhead views and restarts a 0.5 s transition; otherwise nothing.
    pub fn toggle_view(&mut self, phase: Phase)
        ensures
            phase == Phase::CallingShot && old(self).mode != old(self).mode.toggled_spec()
                ==> *final(self) == (CameraState {
                mode: old(self).mode.toggled_spec(),
                transition_progress: of_bits(0),
                transition_duration: of_bits(VIEW_TRANSITION_BITS),
                ..*old(self)
            }),
            !(phase == Phase::CallingShot && old(self).mode != old(self).mode.toggled_spec())
                ==> *final(self) == *old(self),
    {
        if phase == Phase::CallingShot {
            let new_mode = self.mode.toggled();
            if new_mode != self.mode {
                self.mode = new_mode;
                self.transition_progress = Scalar { bits: 0 };
                self.transition_duration = Scalar { bits: VIEW_TRANSITION_BITS };
            }
        }
    }
}

/// Height of the overhead view of the far house (12.0).
pub const OVERHEAD_HEIGHT_BITS: u32 = 0x4140_0000;

/// Y of the throwing view, 1.5 behind the delivery point (-20.704).
pub const THROWING_VIEW_Y_BITS: u32 = 0xc1a5_a1cb;

/// Height of the throwing view (1.0).
pub const THROWING_VIEW_HEIGHT_BITS: u32 = 0x3f80_0000;

/// Y of the house overhead view, halfway between the far hog and back lines
/// (15.0895).
pub const HOUSE_VIEW_Y_BITS: u32 = 0x4171_6e98;

/// Height of the house overhead view (`HOUSE_OVERHEAD_HEIGHT + 4` = 12.0).
pub const HOUSE_VIEW_HEIGHT_BITS: u32 = 0x4140_0000;

/// Speed above which an untracked stone counts as moving (0.1).
pub const MOVING_STONE_SPEED_BITS: u32 = 0x3dcc_cccd;

/// The point `(x, y, z)` of the given bits.
pub open spec fn point_of(x: u32, y: u32, z: u32) -> Point3 {
    Point3 { x: of_bits(x), y: of_bits(y), z: of_bits(z) }
}

/// Where each view puts the camera and where it looks: fixed points for the
/// skip, overhead and house views; behind the delivery looking at the broom
/// for the throwing view; `follow` (computed by the caller from the tracked
/// stone) while following, when there is a stone to follow.
pub open spec fn view_targets(mode: CameraMode, broom: Position, follow: Option<(Point3, Point3)>) -> Option<(Point3, Point3)> {
    match mode {
        CameraMode::SkipView => Some(
            (
                point_of(0, SKIP_VIEW_Y_BITS, SKIP_VIEW_HEIGHT_BITS),
                point_of(0, TEE_LINE_FAR_BITS, 0),
            ),
        ),
        CameraMode::Overhead => Some(
            (
                point_of(0, TEE_LINE_FAR_BITS, OVERHEAD_HEIGHT_BITS),
                point_of(0, TEE_LINE_FAR_BITS, 0),
            ),
        ),
        CameraMode::ThrowingView => Some(
            (
                point_of(0, THROWING_VIEW_Y_BITS, THROWING_VIEW_HEIGHT_BITS),
                Point3 { x: broom.x, y: broom.y, z: of_bits(0) },
            ),
        ),
        CameraMode::FollowStone => follow,
        CameraMode::HouseOverhead => Some(
            (
                point_of(0, HOUSE_VIEW_Y_BITS, HOUSE_VIEW_HEIGHT_BITS),
                point_of(0, HOUSE_VIEW_Y_BITS, 0),
            ),
        ),
        CameraMode::GameOverOrbit => None,
    }
}

/// Finds the stone the camera tracks, by its entry in `entities` and
/// `speeds` (which describe the stones entry by entry): the thrown stone
/// when there is one (its first entry, none if it is gone), otherwise the
/// first stone moving faster than 0.1.
pub fn tracked_stone(thrown: Option<u64>, entities: &Vec<u64>, speeds: &Vec<Scalar>) -> (r: Option<usize>)
    requires
        entities@.len() == speeds@.len(),
    ensures
        match thrown {
            Some(e) => match r {
                Some(i) => i < entities@.len() && entities@[i as int] == e && forall|j: int|
                    0 <= j < i ==> entities@[j] != e,
                None => forall|j: int| 0 <= j < entities@.len() ==> entities@[j] != e,
            },
            None => match r {
                Some(i) => i < speeds@.len() && real_lt(
                    of_bits(MOVING_STONE_SPEED_BITS),
                    speeds@[i as int],
                ) && forall|j: int|
                    0 <= j < i ==> !real_lt(of_bits(MOVING_STONE_SPEED_BITS), speeds@[j]),
                None => forall|j: int|
                    0 <= j < speeds@.len() ==> !real_lt(of_bits(MOVING_STONE_SPEED_BITS), speeds@[j]),
            },
        },
{
    let mut i: usize = 0;
    match thrown {
        Some(e) => {
            while i < entities.len()
                invariant
                    i <= entities.len(),
                    thrown == Some(e),
                    forall|j: int| 0 <= j < i ==> entities@[j] != e,
                decreases entities.len() - i,
            {
                if entities[i] == e {
                    return Some(i);
                }
                i = i + 1;
            }
            None
        },
        None => {
            let moving = Scalar { bits: MOVING_STONE_SPEED_BITS };
            while i < speeds.len()
                invariant
                    i <= speeds.len(),
                    thrown is None,
                    moving == of_bits(MOVING_STONE_SPEED_BITS),
                    forall|j: int| 0 <= j < i ==> !real_lt(of_bits(MOVING_STONE_SPEED_BITS), speeds@[j]),
                decreases speeds.len() - i,
            {
                if speeds[i].gt(moving) {
                    return Some(i);
                }
                i = i + 1;
            }
            None
        },
    }
}

impl CameraState {
    /// Points the camera for its view (see `view_targets`); while following
    /// with no stone, and in the orbit, the targets stay as they were.
    pub fn update_targets(&mut self, broom: Position, follow: Option<(Point3, Point3)>)
        ensures
            *final(self) == match view_targets(old(self).mode, broom, follow) {
                Some(t) => CameraState {
                    target_position: t.0,
                    target_look_at: t.1,
                    ..*old(self)
                },
                None => *old(self),
            },
    {
        let targets = match self.mode {
            CameraMode::SkipView => Some(
                (
                    Point3 {
                        x: Scalar { bits: 0 },
                        y: Scalar { bits: SKIP_VIEW_Y_BITS },
                        z: Scalar { bits: SKIP_VIEW_HEIGHT_BITS },
                    },
                    Point3 {
                        x: Scalar { bits: 0 },
                        y: Scalar { bits: TEE_LINE_FAR_BITS },
                        z: Scalar { bits: 0 },
                    },
                ),
            ),
            CameraMode::Overhead => Some(
                (
                    Point3 {
                        x: Scalar { bits: 0 },
                        y: Scalar { bits: TEE_LINE_FAR_BITS },
                        z: Scalar { bits: OVERHEAD_HEIGHT_BITS },
                    },
                    Point3 {
                        x: Scalar { bits: 0 },
                        y: Scalar { bits: TEE_LINE_FAR_BITS },
                        z: Scalar { bits: 0 },
                    },
                ),
            ),
            CameraMode::ThrowingView => Some(
                (
                    Point3 {
                        x: Scalar { bits: 0 },
                        y: Scalar { bits: THROWING_VIEW_Y_BITS },
                        z: Scalar { bits: THROWING_VIEW_HEIGHT_BITS },
                    },
                    Point3 { x: broom.x, y: broom.y, z: Scalar { bits: 0 } },
                ),
            ),
            CameraMode::FollowStone => follow,
            CameraMode::HouseOverhead => Some(
                (
                    Point3 {
                        x: Scalar { bits: 0 },
                        y: Scalar { bits: HOUSE_VIEW_Y_BITS },
                        z: Scalar { bits: HOUSE_VIEW_HEIGHT_BITS },
                    },
                    Point3 {
                        x: Scalar { bits: 0 },
                        y: Scalar { bits: HOUSE_VIEW_Y_BITS },
                        z: Scalar { bits: 0 },
                    },
                ),
            ),
            CameraMode::GameOverOrbit => None,
        };
        if let Some((position, look_at)) = targets {
            self.target_position = position;
            self.target_look_at = look_at;
        }
    }
}

/// Once a game has ended the camera settles on the skip view, and it never
/// follows a stone outside the stone-moving phase.  While a shot is called
/// the view is the skip or overhead view: the player's choice between the
/// two is kept, and from any other view the camera returns to the skip view.
pub proof fn law_camera_modes(phase: Phase, current: CameraMode, crossed: bool)
    ensures
        phase == Phase::Ended ==> desired_mode(phase, current, crossed) == CameraMode::SkipView,
        desired_mode(phase, current, crossed) == CameraMode::FollowStone ==> phase
            == Phase::StoneMoving,
        desired_mode(phase, current, crossed) != CameraMode::GameOverOrbit,
        phase == Phase::CallingShot ==> (desired_mode(phase, current, crossed)
            == CameraMode::SkipView || desired_mode(phase, current, crossed)
            == CameraMode::Overhead),
        phase == Phase::CallingShot && (current == CameraMode::SkipView || current
            == CameraMode::Overhead) ==> desired_mode(phase, current, crossed) == current,
        phase == Phase::CallingShot && current != CameraMode::Overhead ==> desired_mode(
            phase,
            current,
            crossed,
        ) == CameraMode::SkipView,
{
}

} // verus!
