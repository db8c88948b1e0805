use curling_game::components::{CurlDirection, Phase, ShotType, Team};
use curling_game::constants::{DELIVERY_START_Y_BITS, TOTAL_SHOTS};
use curling_game::helpers::{
    back_line_far, back_line_near, far_hog_line_reached, hog_line_far, hog_line_near,
    hog_line_reached, is_in_free_guard_zone, is_out_of_bounds, tee_line_far, tee_line_near,
};
use curling_game::resources::{snapshot_stones, GameState, StoneOnIce};
use curling_game::scalar::{Position, Scalar};

const SHEET_WIDTH: f32 = 4.75;
const STONE_RADIUS: f32 = 0.145;
const HOUSE_RADIUS_12: f32 = 1.829;
const TEE_FROM_CENTER: f32 = 17.375;
const WEIGHT_MIN: f32 = 1.0;
const WEIGHT_MAX: f32 = 10.0;

fn s(x: f32) -> Scalar {
    Scalar { bits: x.to_bits() }
}

fn f(v: Scalar) -> f32 {
    f32::from_bits(v.bits)
}

fn pos(x: f32, y: f32) -> Position {
    Position { x: s(x), y: s(y) }
}

fn out_of_bounds(x: f32, y: f32) -> bool {
    is_out_of_bounds(pos(x, y))
}

/// The Free Guard Zone test on a position, with the distance to the tee
/// computed the way the game computes it.
fn in_fgz(x: f32, y: f32) -> bool {
    let dx = x - 0.0;
    let dy = y - f(tee_line_far());
    let dist = (dx * dx + dy * dy).sqrt();
    is_in_free_guard_zone(s(y), s(dist))
}

fn stone(entity: u64, team: Team, x: f32, y: f32) -> StoneOnIce {
    let dx = x;
    let dy = y - f(tee_line_far());
    StoneOnIce {
        entity,
        team,
        position: pos(x, y),
        dist_to_tee: s((dx * dx + dy * dy).sqrt()),
    }
}

// ============ TEAM TESTS ============

#[test]
fn team_alternates_by_shot_index() {
    assert_eq!(Team::from_shot_index(0), Team::One);
    assert_eq!(Team::from_shot_index(1), Team::Two);
    assert_eq!(Team::from_shot_index(2), Team::One);
}

#[test]
fn team_alternates_all_16_shots() {
    for i in 0..16u8 {
        let expected = if i % 2 == 0 { Team::One } else { Team::Two };
        assert_eq!(Team::from_shot_index(i), expected, "Shot {} should be {:?}", i, expected);
    }
}

#[test]
fn team_names_are_correct() {
    assert_eq!(Team::One.name(), "Team 1");
    assert_eq!(Team::Two.name(), "Team 2");
}

#[test]
fn team_opponent_is_the_other_team() {
    assert_eq!(Team::One.opponent(), Team::Two);
    assert_eq!(Team::Two.opponent(), Team::One);
    assert_eq!(Team::One.opponent().opponent(), Team::One);
}

// ============ SHOT TYPE TESTS ============

#[test]
fn shot_type_default_weights_in_valid_range() {
    for shot_type in [
        ShotType::Draw,
        ShotType::Guard,
        ShotType::Takeout,
        ShotType::Freeze,
        ShotType::HitAndRoll,
    ] {
        let weight = f(shot_type.default_weight());
        assert!(
            weight >= WEIGHT_MIN && weight <= WEIGHT_MAX,
            "{:?} default weight {} out of range [{}, {}]",
            shot_type,
            weight,
            WEIGHT_MIN,
            WEIGHT_MAX
        );
    }
}

#[test]
fn shot_type_default_weight_values() {
    assert_eq!(f(ShotType::Draw.default_weight()), 4.0);
    assert_eq!(f(ShotType::Guard.default_weight()), 3.5);
    assert_eq!(f(ShotType::Takeout.default_weight()), 8.5);
    assert_eq!(f(ShotType::Freeze.default_weight()), 4.5);
    assert_eq!(f(ShotType::HitAndRoll.default_weight()), 7.0);
}

#[test]
fn shot_type_names_are_not_empty() {
    for shot_type in [
        ShotType::Draw,
        ShotType::Guard,
        ShotType::Takeout,
        ShotType::Freeze,
        ShotType::HitAndRoll,
    ] {
        assert!(!shot_type.name().is_empty(), "{:?} has empty name", shot_type);
    }
    assert_eq!(ShotType::HitAndRoll.name(), "Hit & Roll");
}

#[test]
fn shot_type_weight_ordering() {
    assert!(f(ShotType::Guard.default_weight()) <= f(ShotType::Draw.default_weight()));
    assert!(f(ShotType::Draw.default_weight()) < f(ShotType::Takeout.default_weight()));
}

#[test]
fn shot_type_takeout_is_heavy() {
    assert!(f(ShotType::Takeout.default_weight()) >= 7.0);
}

// ============ CURL DIRECTION TESTS ============

#[test]
fn curl_directions_opposite_angular_velocity() {
    let in_turn = f(CurlDirection::InTurn.angular_velocity());
    let out_turn = f(CurlDirection::OutTurn.angular_velocity());
    assert!(in_turn > 0.0, "InTurn should have positive angular velocity");
    assert!(out_turn < 0.0, "OutTurn should have negative angular velocity");
    assert!(
        (in_turn.abs() - out_turn.abs()).abs() < 0.001,
        "Angular velocities should have equal magnitude"
    );
}

#[test]
fn curl_direction_names() {
    assert_eq!(CurlDirection::InTurn.name(), "IN");
    assert_eq!(CurlDirection::OutTurn.name(), "OUT");
}

// ============ GAME STATE TESTS ============

#[test]
fn game_state_default_values() {
    let state = GameState::default();
    assert_eq!(state.phase, Phase::CallingShot);
    assert_eq!(state.shot_index, 0);
    assert_eq!(state.shot_type, ShotType::Draw);
    assert_eq!(f(state.called_angle_deg), 0.0);
    assert!(state.thrown_stone.is_none());
    assert!(state.snapshot.is_none());
}

#[test]
fn game_state_current_team_matches_shot_index() {
    let mut state = GameState::default();
    for i in 0..16u8 {
        state.shot_index = i;
        assert_eq!(
            state.current_team(),
            Team::from_shot_index(i),
            "current_team() mismatch at shot {}",
            i
        );
    }
}

#[test]
fn game_state_current_team_follows_first_thrower() {
    let mut state = GameState::default();
    state.first_throw_team = Team::Two;
    state.shot_index = 0;
    assert_eq!(state.current_team(), Team::Two);
    state.shot_index = 15;
    assert_eq!(state.current_team(), Team::One);
}

#[test]
fn game_state_broom_position_default() {
    let state = GameState::default();
    assert_eq!(f(state.broom_position.x), 0.0);
    assert_eq!(f(state.broom_position.y), TEE_FROM_CENTER);
}

#[test]
fn game_state_reset_for_new_end_keeps_scores() {
    let mut state = GameState::default();
    state.shot_index = 16;
    state.phase = Phase::ShowingScore;
    state.team1_score = 3;
    state.team2_score = 2;
    state.current_end = 4;
    state.curl_direction = CurlDirection::OutTurn;
    state.aim_weight = s(9.0);
    state.reset_for_new_end();
    assert_eq!(state.phase, Phase::CallingShot);
    assert_eq!(state.shot_index, 0);
    assert_eq!(state.curl_direction, CurlDirection::InTurn);
    assert_eq!(f(state.aim_weight), 4.0);
    assert_eq!((state.team1_score, state.team2_score, state.current_end), (3, 2, 4));
}

// ============ COORDINATE/LINE TESTS ============

#[test]
fn hog_lines_are_symmetric() {
    assert!(f(hog_line_far()) > 0.0);
    assert!(f(hog_line_near()) < 0.0);
    let sum = f(hog_line_far()) + f(hog_line_near());
    assert!(sum.abs() < 0.001);
}

#[test]
fn back_lines_are_symmetric() {
    assert!(f(back_line_far()) > 0.0);
    assert!(f(back_line_near()) < 0.0);
    let sum = f(back_line_far()) + f(back_line_near());
    assert!(sum.abs() < 0.001);
}

#[test]
fn tee_lines_are_symmetric() {
    assert!(f(tee_line_far()) > 0.0);
    assert!(f(tee_line_near()) < 0.0);
    let sum = f(tee_line_far()) + f(tee_line_near());
    assert!(sum.abs() < 0.001);
}

#[test]
fn line_positions_match_sheet_dimensions() {
    assert_eq!(f(tee_line_far()), TEE_FROM_CENTER);
    assert_eq!(f(hog_line_far()), TEE_FROM_CENTER - 6.40);
    assert_eq!(f(back_line_far()), TEE_FROM_CENTER + 1.829);
    assert_eq!(f(hog_line_near()), -(TEE_FROM_CENTER - 6.40));
}

#[test]
fn line_ordering_far_end() {
    assert!(f(back_line_far()) > f(tee_line_far()));
    assert!(f(tee_line_far()) > f(hog_line_far()));
    assert!(f(hog_line_far()) > 0.0);
}

#[test]
fn line_ordering_near_end() {
    assert!(f(back_line_near()) < f(tee_line_near()));
    assert!(f(tee_line_near()) < f(hog_line_near()));
    assert!(f(hog_line_near()) < 0.0);
}

#[test]
fn delivery_start_is_behind_near_hog() {
    let delivery_start_y = f32::from_bits(DELIVERY_START_Y_BITS);
    assert_eq!(delivery_start_y, -TEE_FROM_CENTER - 1.829);
    assert!(
        delivery_start_y < f(hog_line_near()),
        "Delivery start {} should be behind near hog line {}",
        delivery_start_y,
        f(hog_line_near())
    );
}

// ============ BOUNDARY DETECTION TESTS ============

#[test]
fn hog_line_reached_when_crossing_delivery_hog_line() {
    assert!(!hog_line_reached(s(f(hog_line_near()) - 0.01)));
    assert!(hog_line_reached(hog_line_near()));
    assert!(hog_line_reached(s(f(hog_line_near()) + 0.5)));
}

#[test]
fn out_of_bounds_checks_edges() {
    assert!(!out_of_bounds(0.0, 0.0));
    assert!(out_of_bounds(SHEET_WIDTH * 0.5 + STONE_RADIUS + 0.01, 0.0));
    assert!(out_of_bounds(0.0, f(back_line_far()) + STONE_RADIUS + 0.01));
    assert!(out_of_bounds(0.0, f(back_line_near()) - STONE_RADIUS - 0.01));
}

#[test]
fn out_of_bounds_left_edge() {
    assert!(out_of_bounds(-(SHEET_WIDTH * 0.5 + STONE_RADIUS + 0.01), 0.0));
    assert!(!out_of_bounds(-(SHEET_WIDTH * 0.5), 0.0));
}

#[test]
fn out_of_bounds_sheet_center_inbounds() {
    assert!(!out_of_bounds(0.0, 0.0));
}

#[test]
fn out_of_bounds_corners() {
    assert!(out_of_bounds(SHEET_WIDTH * 0.5 + STONE_RADIUS + 0.01, f(back_line_far())));
    assert!(out_of_bounds(-(SHEET_WIDTH * 0.5 + STONE_RADIUS + 0.01), f(back_line_near())));
}

#[test]
fn out_of_bounds_just_inside_all_edges() {
    assert!(!out_of_bounds(SHEET_WIDTH * 0.5 - 0.01, 0.0));
    assert!(!out_of_bounds(-(SHEET_WIDTH * 0.5 - 0.01), 0.0));
    assert!(!out_of_bounds(0.0, f(back_line_far()) - 0.01));
    assert!(!out_of_bounds(0.0, f(back_line_near()) + 0.01));
}

#[test]
fn out_of_bounds_exactly_at_limit_is_in_play() {
    assert!(!out_of_bounds(SHEET_WIDTH * 0.5 + STONE_RADIUS, 0.0));
    assert!(!out_of_bounds(-0.0, f(back_line_far()) + STONE_RADIUS));
}

// ============ FREE GUARD ZONE TESTS ============

#[test]
fn free_guard_zone_detection() {
    assert!(in_fgz(0.0, (f(hog_line_far()) + f(tee_line_far())) * 0.5));
    assert!(!in_fgz(0.0, f(tee_line_far())));
    assert!(!in_fgz(0.0, f(hog_line_far()) - 0.2));
}

#[test]
fn fgz_boundary_at_hog_line() {
    assert!(in_fgz(0.0, f(hog_line_far()) + 0.01));
    assert!(!in_fgz(0.0, f(hog_line_far())));
    assert!(!in_fgz(0.0, f(hog_line_far()) - 0.01));
}

#[test]
fn fgz_boundary_at_tee_line() {
    assert!(in_fgz(HOUSE_RADIUS_12 + 0.5, f(tee_line_far()) - 0.01));
    assert!(!in_fgz(0.0, f(tee_line_far())));
}

#[test]
fn fgz_excludes_house() {
    assert!(!in_fgz(0.0, f(tee_line_far())));
    assert!(!in_fgz(0.0, f(tee_line_far()) - HOUSE_RADIUS_12 + 0.01));
}

#[test]
fn fgz_just_outside_house() {
    let y = f(tee_line_far()) - HOUSE_RADIUS_12 - 0.01;
    if y > f(hog_line_far()) {
        assert!(in_fgz(0.0, y));
    }
}

#[test]
fn fgz_horizontal_positions() {
    let mid_y = (f(hog_line_far()) + f(tee_line_far())) * 0.5;
    assert!(in_fgz(-1.0, mid_y));
    assert!(in_fgz(1.0, mid_y));
}

// ============ HOG LINE RULE TESTS ============

#[test]
fn near_hog_line_boundary() {
    assert!(!hog_line_reached(s(f(hog_line_near()) - 0.001)));
    assert!(hog_line_reached(hog_line_near()));
    assert!(hog_line_reached(s(f(hog_line_near()) + 1.0)));
}

#[test]
fn far_hog_line_boundary() {
    let just_before = f(hog_line_far()) + STONE_RADIUS - 0.001;
    assert!(!far_hog_line_reached(s(just_before)));

    let at_line = f(hog_line_far()) + STONE_RADIUS;
    assert!(!far_hog_line_reached(s(at_line)));

    let just_past = f(hog_line_far()) + STONE_RADIUS + 0.001;
    assert!(far_hog_line_reached(s(just_past)));
}

#[test]
fn far_hog_considers_stone_radius() {
    assert!(!far_hog_line_reached(hog_line_far()));
}

// ============ SNAPSHOT TESTS ============

#[test]
fn test_stone_snapshot_creation() {
    let stones = vec![
        stone(7, Team::One, 0.0, f(hog_line_far()) + 1.0),
        stone(8, Team::Two, 0.0, f(tee_line_far())),
    ];
    let snapshot = snapshot_stones(&stones, 3);
    let snap = snapshot.stones[0];
    assert_eq!(snap.team, Team::One);
    assert_eq!(f(snap.position.x), 0.0);
    assert!(snap.in_fgz);

    let snap_in_house = snapshot.stones[1];
    assert_eq!(snap_in_house.team, Team::Two);
    assert!(!snap_in_house.in_fgz);
    assert!(snapshot.fgz_active);
    assert!(!snapshot_stones(&stones, 5).fgz_active);
}

// ============ TOTAL SHOTS TEST ============

#[test]
fn total_shots_is_16() {
    assert_eq!(TOTAL_SHOTS, 16);
}

#[test]
fn total_shots_evenly_divisible_by_teams() {
    assert!(TOTAL_SHOTS % 2 == 0, "Total shots should be even for fair team alternation");
}

#[test]
fn each_team_throws_eight_stones() {
    for first in [Team::One, Team::Two] {
        let mut state = GameState::default();
        state.first_throw_team = first;
        let mut team_one = 0;
        for shot in 0..TOTAL_SHOTS {
            state.shot_index = shot;
            if state.current_team() == Team::One {
                team_one += 1;
            }
        }
        assert_eq!(team_one, 8);
        assert_eq!(TOTAL_SHOTS - team_one, 8);
    }
}
