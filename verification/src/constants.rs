//! Game constants.
//!
//! Distances are in metres on a sheet whose centre is the origin, with the far
//! house at positive Y.  Values that the game computes in `f32` are given here
//! by the bits of the `f32` result (see `scalar`).
use vstd::prelude::*;

verus! {

/// Shots per end (8 per team).
pub const TOTAL_SHOTS: u8 = 16;

/// Ends in a game.
pub const DEFAULT_TOTAL_ENDS: u8 = 8;

/// The Free Guard Zone rule applies to shots `0..FGZ_SHOTS` of an end.
pub const FGZ_SHOTS: u8 = 5;

/// Stones each team throws per end.
pub const STONES_PER_TEAM: u8 = 8;

/// `TEE_FROM_CENTER` = 17.375: the far tee line.
pub const TEE_LINE_FAR_BITS: u32 = 0x418b_0000;

/// `TEE_FROM_CENTER + BACK_FROM_TEE` = 19.204: the far back line.
pub const BACK_LINE_FAR_BITS: u32 = 0x4199_a1cb;

/// `TEE_FROM_CENTER - HOG_FROM_TEE` = 10.975: the far hog line.
pub const HOG_LINE_FAR_BITS: u32 = 0x412f_999a;

/// `hog_line_far() + STONE_RADIUS` = 11.12: a stone has fully crossed the far
/// hog line when its centre is beyond this.
pub const FAR_HOG_LIMIT_BITS: u32 = 0x4131_eb86;

/// `SHEET_WIDTH * 0.5 + STONE_RADIUS` = 2.52: side limit of the playing area.
pub const OUT_OF_BOUNDS_HALF_WIDTH_BITS: u32 = 0x4021_47ae;

/// `back_line_far() + STONE_RADIUS` = 19.349: end limit of the playing area
/// (mirrored at the near end).
pub const OUT_OF_BOUNDS_BACK_BITS: u32 = 0x419a_cac1;

/// `HOUSE_RADIUS_12` = 1.829: radius of the house (12-foot ring).
pub const HOUSE_RADIUS_12_BITS: u32 = 0x3fea_1cac;

/// `HOUSE_RADIUS_12 + STONE_RADIUS` = 1.974: a stone whose centre is no
/// farther than this from the tee is biting the house.
pub const BITING_DISTANCE_BITS: u32 = 0x3ffc_ac08;

/// `SHEET_WIDTH * 0.5 - STONE_RADIUS` = 2.23: side limit of AI targets.
pub const TARGET_HALF_WIDTH_BITS: u32 = 0x400e_b852;

/// `tee_line_far() + BACK_FROM_TEE - STONE_RADIUS` = 19.059: farthest AI target.
pub const TARGET_BACK_BITS: u32 = 0x4198_78d5;

/// `-TEE_FROM_CENTER - BACK_FROM_TEE` = -19.204: where delivery starts.
pub const DELIVERY_START_Y_BITS: u32 = 0xc199_a1cb;

/// Default weight of a draw (4.0).
pub const DRAW_WEIGHT_BITS: u32 = 0x4080_0000;

/// Default weight of a guard (3.5).
pub const GUARD_WEIGHT_BITS: u32 = 0x4060_0000;

/// Default weight of a takeout (8.5).
pub const TAKEOUT_WEIGHT_BITS: u32 = 0x4108_0000;

/// Default weight of a freeze (4.5).
pub const FREEZE_WEIGHT_BITS: u32 = 0x4090_0000;

/// Default weight of a hit and roll (7.0).
pub const HIT_AND_ROLL_WEIGHT_BITS: u32 = 0x40e0_0000;

/// `CURL_ANGULAR_VELOCITY` = 1.5 rad/s.
pub const CURL_ANGULAR_VELOCITY_BITS: u32 = 0x3fc0_0000;

/// `VISUAL_ROTATION_SPEED` = 0.7 rad/s.
pub const VISUAL_ROTATION_SPEED_BITS: u32 = 0x3f33_3333;

/// `MOBILE_BREAKPOINT` = 768 logical pixels.
pub const MOBILE_BREAKPOINT_BITS: u32 = 0x4440_0000;

/// `TABLET_BREAKPOINT` = 1024 logical pixels.
pub const TABLET_BREAKPOINT_BITS: u32 = 0x4480_0000;

/// Radius of the button (0.15).
pub const HOUSE_RADIUS_BUTTON_BITS: u32 = 0x3e19_999a;

/// Radius of the 4-foot ring (0.610).
pub const HOUSE_RADIUS_4_BITS: u32 = 0x3f1c_28f6;

/// Radius of the 8-foot ring (1.219).
pub const HOUSE_RADIUS_8_BITS: u32 = 0x3f9c_0831;

/// Radius of a stone (0.145).
pub const STONE_RADIUS_BITS: u32 = 0x3e14_7ae1;

/// Height of a stone (0.114).
pub const STONE_HEIGHT_BITS: u32 = 0x3de9_78d5;

/// Release speed of the lightest weight (2.0 m/s).
pub const WEIGHT_MIN_SPEED_BITS: u32 = 0x4000_0000;

/// Release speed of the heaviest weight (3.5 m/s).
pub const WEIGHT_MAX_SPEED_BITS: u32 = 0x4060_0000;

/// Constant deceleration of a sliding stone (0.115 m/s²).
pub const ICE_FRICTION_DECEL_BITS: u32 = 0x3deb_851f;

/// Sideways drift per unit of spin (0.008).
pub const CURL_COEFFICIENT_BITS: u32 = 0x3c03_126f;

} // verus!
