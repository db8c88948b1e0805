//! What the player's keys, drags and buttons do to the shot being called
//! and aimed.
use vstd::prelude::*;

use crate::components::{phase_follows, CurlDirection, Phase};
use crate::constants::{BACK_LINE_FAR_BITS, HOG_LINE_FAR_BITS};
use crate::resources::GameState;
use crate::scalar::{clamped, negated, of_bits, Position, Scalar};

verus! {

/// Half the width of the area where the broom may be held
/// (`SHEET_WIDTH / 2 - 0.2` = 2.175).
pub const BROOM_HALF_WIDTH_BITS: u32 = 0x400b_3333;

/// Largest called or aimed angle either side of straight (8 degrees).
pub const ANGLE_LIMIT_BITS: u32 = 0x4100_0000;

/// Lightest weight on the 1-10 scale (1.0).
pub const WEIGHT_MIN_BITS: u32 = 0x3f80_0000;

/// Heaviest weight on the 1-10 scale (10.0).
pub const WEIGHT_MAX_BITS: u32 = 0x4120_0000;

/// A point moved into the area where the broom may be held: across the
/// sheet within the broom half-width, along it from the far hog line to the
/// far back line.
pub open spec fn clamped_broom(p: Position) -> Position {
    Position {
        x: clamped(p.x, negated(of_bits(BROOM_HALF_WIDTH_BITS)), of_bits(BROOM_HALF_WIDTH_BITS)),
        y: clamped(p.y, of_bits(HOG_LINE_FAR_BITS), of_bits(BACK_LINE_FAR_BITS)),
    }
}

/// An angle kept within the angle limit either side.
pub open spec fn clamped_angle(a: Scalar) -> Scalar {
    clamped(a, negated(of_bits(ANGLE_LIMIT_BITS)), of_bits(ANGLE_LIMIT_BITS))
}

/// A weight kept on the 1-10 scale.
pub open spec fn clamped_weight(w: Scalar) -> Scalar {
    clamped(w, of_bits(WEIGHT_MIN_BITS), of_bits(WEIGHT_MAX_BITS))
}

/// Moves a point on the ice into the area where the broom may be held.
pub fn clamp_broom_position(world: Position) -> (r: Position)
    ensures
        r == clamped_broom(world),
{
    let half_width = Scalar { bits: BROOM_HALF_WIDTH_BITS };
    let min_y = Scalar { bits: HOG_LINE_FAR_BITS };
    let max_y = Scalar { bits: BACK_LINE_FAR_BITS };
    Position { x: world.x.clamp(half_width.neg(), half_width), y: world.y.clamp(min_y, max_y) }
}

/// Keeps an angle within the angle limit either side.
pub fn clamp_angle(a: Scalar) -> (r: Scalar)
    ensures
        r == clamped_angle(a),
{
    let limit = Scalar { bits: ANGLE_LIMIT_BITS };
    a.clamp(limit.neg(), limit)
}

/// Keeps a weight on the 1-10 scale.
pub fn clamp_weight(w: Scalar) -> (r: Scalar)
    ensures
        r == clamped_weight(w),
{
    w.clamp(Scalar { bits: WEIGHT_MIN_BITS }, Scalar { bits: WEIGHT_MAX_BITS })
}

/// Keeps the called angle and weight within their limits (after the keys
/// have moved them).
pub fn clamp_called_shot(state: &mut GameState)
    ensures
        *final(state) == (GameState {
            called_angle_deg: clamped_angle(old(state).called_angle_deg),
            called_weight: clamped_weight(old(state).called_weight),
            ..*old(state)
        }),
{
    state.called_angle_deg = clamp_angle(state.called_angle_deg);
    state.called_weight = clamp_weight(state.called_weight);
}

/// Keeps the aimed angle and weight within their limits (after the keys
/// have moved them).
pub fn clamp_aim(state: &mut GameState)
    ensures
        *final(state) == (GameState {
            aim_angle_deg: clamped_angle(old(state).aim_angle_deg),
            aim_weight: clamped_weight(old(state).aim_weight),
            ..*old(state)
        }),
{
    state.aim_angle_deg = clamp_angle(state.aim_angle_deg);
    state.aim_weight = clamp_weight(state.aim_weight);
}

/// Confirms the called shot while it is being called: the aim starts from
/// `aim_angle_deg` (the called angle from the keys, the broom's angle from
/// the button) and the called weight, and the thrower starts aiming.
/// Returns whether the shot was confirmed; in other phases nothing changes.
pub fn confirm_called_shot(state: &mut GameState, aim_angle_deg: Scalar) -> (confirmed: bool)
    ensures
        confirmed == (old(state).phase == Phase::CallingShot),
        phase_follows(old(state).phase, final(state).phase),
        confirmed ==> *final(state) == (GameState {
            aim_angle_deg: aim_angle_deg,
            aim_weight: old(state).called_weight,
            phase: Phase::Aiming,
            ..*old(state)
        }),
        !confirmed ==> *final(state) == *old(state),
{
    if state.phase != Phase::CallingShot {
        return false;
    }
    state.aim_angle_deg = aim_angle_deg;
    state.aim_weight = state.called_weight;
    state.phase = Phase::Aiming;
    true
}

/// Sets the aim back to the called angle and weight while aiming; in other
/// phases nothing changes.
pub fn reset_aim(state: &mut GameState)
    ensures
        old(state).phase == Phase::Aiming ==> *final(state) == (GameState {
            aim_angle_deg: old(state).called_angle_deg,
            aim_weight: old(state).called_weight,
            ..*old(state)
        }),
        old(state).phase != Phase::Aiming ==> *final(state) == *old(state),
{
    if state.phase == Phase::Aiming {
        state.aim_angle_deg = state.called_angle_deg;
        state.aim_weight = state.called_weight;
    }
}

/// A curl button: chooses the curl while the shot is called or aimed.
/// Returns whether the curl was taken; in other phases nothing changes.
pub fn choose_curl(state: &mut GameState, curl: CurlDirection) -> (taken: bool)
    ensures
        taken == (old(state).phase == Phase::CallingShot || old(state).phase == Phase::Aiming),
        taken ==> *final(state) == (GameState { curl_direction: curl, ..*old(state) }),
        !taken ==> *final(state) == *old(state),
{
    if state.phase == Phase::CallingShot || state.phase == Phase::Aiming {
        state.curl_direction = curl;
        true
    } else {
        false
    }
}

/// Places the broom while the shot is called: the broom goes to `position`
/// and the call takes the angle and weight the caller derived from it.
/// Returns whether the broom moved; in other phases nothing changes.
pub fn place_broom(state: &mut GameState, position: Position, angle_deg: Scalar, weight: Scalar) -> (placed: bool)
    ensures
        placed == (old(state).phase == Phase::CallingShot),
        placed ==> *final(state) == (GameState {
            broom_position: position,
            called_angle_deg: angle_deg,
            called_weight: weight,
            ..*old(state)
        }),
        !placed ==> *final(state) == *old(state),
{
    if state.phase != Phase::CallingShot {
        return false;
    }
    state.broom_position = position;
    state.called_angle_deg = angle_deg;
    state.called_weight = weight;
    true
}

/// What pressing the confirm button does.
#[derive(Clone, Copy, PartialEq, Eq, Debug, Structural)]
pub enum ConfirmAction {
    /// Confirm the called shot and start aiming.
    ConfirmShot,
    /// Throw the stone.
    Throw,
    /// Nothing (stones are moving or the end is being scored).
    Wait,
}

/// The confirm button confirms the call while calling and throws while
/// aiming; in the other phases it does nothing.
pub fn confirm_button_action(phase: Phase) -> (r: ConfirmAction)
    ensures
        r == (match phase {
            Phase::CallingShot => ConfirmAction::ConfirmShot,
            Phase::Aiming => ConfirmAction::Throw,
            _ => ConfirmAction::Wait,
        }),
{
    match phase {
        Phase::CallingShot => ConfirmAction::ConfirmShot,
        Phase::Aiming => ConfirmAction::Throw,
        _ => ConfirmAction::Wait,
    }
}

/// A clamped broom lies in its area (for non-NaN coordinates) and clamping
/// again changes nothing; clamped angles and weights stay clamped.
pub proof fn law_clamps_idempotent(p: Position, a: Scalar, w: Scalar)
    ensures
        clamped_broom(clamped_broom(p)) == clamped_broom(p),
        clamped_angle(clamped_angle(a)) == clamped_angle(a),
        clamped_weight(clamped_weight(w)) == clamped_weight(w),
        !w.nan() ==> crate::scalar::real_le(of_bits(WEIGHT_MIN_BITS), clamped_weight(w))
            && crate::scalar::real_le(clamped_weight(w), of_bits(WEIGHT_MAX_BITS)),
{
}

} // verus!
