use curling_game::ai_strategy::{
    analyze_board, calculate_score_diff, clamp_target_to_playing_area, decide_shot,
    find_closest_to_tee, run_if_human_turn, select_curl_toward_center, select_shot_type,
    setup_ai_game, BoardAnalysis,
};
use curling_game::components::{CurlDirection, ShotType, Team};
use curling_game::helpers::{hog_line_far, tee_line_far};
use curling_game::resources::{GameState, StoneOnIce};
use curling_game::scalar::{Position, Scalar};

const SHEET_WIDTH: f32 = 4.75;
const STONE_RADIUS: f32 = 0.145;
const HOUSE_RADIUS_12: f32 = 1.829;
const BACK_FROM_TEE: f32 = 1.829;

fn s(x: f32) -> Scalar {
    Scalar { bits: x.to_bits() }
}

fn f(v: Scalar) -> f32 {
    f32::from_bits(v.bits)
}

fn tee() -> (f32, f32) {
    (0.0, f(tee_line_far()))
}

/// A stone at `tee + (dx, dy)` with its distance to the tee.
fn stone(team: Team, dx: f32, dy: f32) -> StoneOnIce {
    let (tx, ty) = tee();
    let x = tx + dx;
    let y = ty + dy;
    let ex = x - tx;
    let ey = y - ty;
    StoneOnIce {
        entity: 0,
        team,
        position: Position { x: s(x), y: s(y) },
        dist_to_tee: s((ex * ex + ey * ey).sqrt()),
    }
}

fn at(dx: f32, dy: f32, dist: f32) -> Option<(Position, Scalar)> {
    let (tx, ty) = tee();
    Some((Position { x: s(tx + dx), y: s(ty + dy) }, s(dist)))
}

/// Stands in for the game's target calculation: the button for a draw, the
/// opponent's closest stone for a takeout.
fn target_for(shot: ShotType, analysis: BoardAnalysis) -> Position {
    let (tx, ty) = tee();
    match (shot, analysis.their_closest) {
        (ShotType::Takeout, Some((p, _))) | (ShotType::HitAndRoll, Some((p, _))) => p,
        _ => Position { x: s(tx), y: s(ty) },
    }
}

// ============ FIND CLOSEST TESTS ============

#[test]
fn find_closest_empty_house() {
    let stones: Vec<StoneOnIce> = vec![];
    assert!(find_closest_to_tee(&stones, Team::One).is_none());
}

#[test]
fn find_closest_single_stone() {
    let stones = vec![stone(Team::One, 0.0, 0.0)];
    let closest = find_closest_to_tee(&stones, Team::One);
    assert!(closest.is_some());
    let (pos, dist) = closest.unwrap();
    assert_eq!((f(pos.x), f(pos.y)), tee());
    assert!(f(dist) < 0.01);
}

#[test]
fn find_closest_ignores_other_team() {
    let stones = vec![stone(Team::Two, 0.0, 0.0)];
    assert!(find_closest_to_tee(&stones, Team::One).is_none());
}

#[test]
fn find_closest_selects_nearest() {
    let stones = vec![stone(Team::One, 0.5, 0.0), stone(Team::One, 0.2, 0.0)];
    let (pos, _) = find_closest_to_tee(&stones, Team::One).unwrap();
    assert!((f(pos.x) - 0.2).abs() < 0.01);
}

#[test]
fn find_closest_ignores_outside_house() {
    let stones = vec![stone(Team::One, HOUSE_RADIUS_12 + STONE_RADIUS + 0.5, 0.0)];
    assert!(find_closest_to_tee(&stones, Team::One).is_none());
}

#[test]
fn find_closest_prefers_first_of_equal_stones() {
    let mut a = stone(Team::One, 0.3, 0.0);
    let mut b = stone(Team::One, -0.3, 0.0);
    a.entity = 1;
    b.entity = 2;
    let (pos, _) = find_closest_to_tee(&vec![a, b], Team::One).unwrap();
    assert!(f(pos.x) > 0.0);
    let (pos, _) = find_closest_to_tee(&vec![b, a], Team::One).unwrap();
    assert!(f(pos.x) < 0.0);
}

// ============ BOARD ANALYSIS TESTS ============

#[test]
fn analyze_empty_house() {
    let stones: Vec<StoneOnIce> = vec![];
    let analysis = analyze_board(&stones, Team::One);
    assert!(analysis.house_empty);
    assert!(!analysis.we_have_shot);
}

#[test]
fn analyze_we_have_shot() {
    let stones = vec![stone(Team::One, 0.1, 0.0), stone(Team::Two, 0.5, 0.0)];
    let analysis = analyze_board(&stones, Team::One);
    assert!(analysis.we_have_shot);
    assert!(!analysis.house_empty);
}

#[test]
fn analyze_they_have_shot() {
    let stones = vec![stone(Team::One, 0.5, 0.0), stone(Team::Two, 0.1, 0.0)];
    let analysis = analyze_board(&stones, Team::One);
    assert!(!analysis.we_have_shot);
}

// ============ SHOT SELECTION TESTS ============

#[test]
fn empty_house_draws_to_button() {
    let analysis = BoardAnalysis {
        our_closest: None,
        their_closest: None,
        we_have_shot: false,
        house_empty: true,
    };
    for coin in [true, false] {
        let shot = select_shot_type(&analysis, 0, 0, false, coin);
        assert_eq!(shot, ShotType::Draw);
    }
}

#[test]
fn opponent_shot_triggers_takeout() {
    let analysis = BoardAnalysis {
        our_closest: at(0.5, 0.0, 0.5),
        their_closest: at(0.1, 0.0, 0.1),
        we_have_shot: false,
        house_empty: false,
    };
    let shot = select_shot_type(&analysis, 0, 10, false, true);
    assert_eq!(shot, ShotType::Takeout);
}

#[test]
fn early_game_prefers_guards_over_takeout() {
    let analysis = BoardAnalysis {
        our_closest: None,
        their_closest: at(0.0, -HOUSE_RADIUS_12 - 0.5, HOUSE_RADIUS_12 + 0.5),
        we_have_shot: false,
        house_empty: false,
    };
    let shot = select_shot_type(&analysis, 0, 2, false, true);
    assert_eq!(shot, ShotType::Guard);
    // A mistake, or the same position after the Free Guard Zone shots, is a takeout.
    assert_eq!(select_shot_type(&analysis, 0, 2, true, true), ShotType::Takeout);
    assert_eq!(select_shot_type(&analysis, 0, 5, false, true), ShotType::Takeout);
}

#[test]
fn behind_plays_aggressively() {
    let analysis = BoardAnalysis {
        our_closest: at(0.1, 0.0, 0.1),
        their_closest: at(0.5, 0.0, 0.5),
        we_have_shot: true,
        house_empty: false,
    };
    let shot = select_shot_type(&analysis, -3, 10, false, true);
    assert_eq!(shot, ShotType::Draw);
}

#[test]
fn ahead_plays_conservatively() {
    let analysis = BoardAnalysis {
        our_closest: at(0.1, 0.0, 0.1),
        their_closest: at(0.5, 0.0, 0.5),
        we_have_shot: true,
        house_empty: false,
    };
    for coin in [true, false] {
        let shot = select_shot_type(&analysis, 3, 10, false, coin);
        assert!(shot == ShotType::Guard || shot == ShotType::Freeze);
    }
    assert_eq!(select_shot_type(&analysis, 3, 10, false, true), ShotType::Guard);
    assert_eq!(select_shot_type(&analysis, 0, 10, false, false), ShotType::Freeze);
    assert_eq!(select_shot_type(&analysis, 3, 10, true, true), ShotType::Draw);
}

// ============ TARGET POSITION TESTS ============

#[test]
fn target_clamped_to_valid_area() {
    let clamped = clamp_target_to_playing_area(Position { x: s(100.0), y: s(100.0) });
    let half_width = SHEET_WIDTH * 0.5 - STONE_RADIUS;
    assert!(f(clamped.x) <= half_width);
    assert!(f(clamped.y) <= f(tee_line_far()) + BACK_FROM_TEE - STONE_RADIUS);
}

#[test]
fn target_clamp_matches_f32_clamp() {
    let half_width = SHEET_WIDTH * 0.5 - STONE_RADIUS;
    let back_y = f(tee_line_far()) + BACK_FROM_TEE - STONE_RADIUS;
    for (x, y) in [(100.0f32, 100.0f32), (-100.0, -100.0), (0.3, 18.0), (-2.0, 5.0), (2.23, 19.0)] {
        let clamped = clamp_target_to_playing_area(Position { x: s(x), y: s(y) });
        assert_eq!(f(clamped.x), x.clamp(-half_width, half_width));
        assert_eq!(f(clamped.y), y.clamp(f(hog_line_far()), back_y));
    }
}

// ============ CURL DIRECTION TESTS ============

#[test]
fn left_target_uses_outturn() {
    assert_eq!(select_curl_toward_center(s(-1.0)), CurlDirection::OutTurn);
}

#[test]
fn right_target_uses_inturn() {
    assert_eq!(select_curl_toward_center(s(1.0)), CurlDirection::InTurn);
}

#[test]
fn center_target_uses_inturn() {
    assert_eq!(select_curl_toward_center(s(0.0)), CurlDirection::InTurn);
    assert_eq!(select_curl_toward_center(s(-0.0)), CurlDirection::InTurn);
}

#[test]
fn curl_directions_curl_toward_center() {
    assert!(
        f(CurlDirection::OutTurn.angular_velocity()) < 0.0,
        "OutTurn should curl right (toward center from left)"
    );
    assert!(
        f(CurlDirection::InTurn.angular_velocity()) > 0.0,
        "InTurn should curl left (toward center from right)"
    );
}

#[test]
fn ai_curl_toward_center_when_target_left() {
    let curl = select_curl_toward_center(s(-1.0));
    assert_eq!(curl, CurlDirection::OutTurn);
    assert!(
        f(curl.angular_velocity()) < 0.0,
        "OutTurn should have negative angular velocity (curls right)"
    );
}

#[test]
fn ai_curl_toward_center_when_target_right() {
    let curl = select_curl_toward_center(s(1.0));
    assert_eq!(curl, CurlDirection::InTurn);
    assert!(
        f(curl.angular_velocity()) > 0.0,
        "InTurn should have positive angular velocity (curls left)"
    );
}

#[test]
fn ai_curl_toward_center_when_target_on_centerline() {
    assert_eq!(select_curl_toward_center(s(0.0)), CurlDirection::InTurn);
}

#[test]
fn ai_curl_directions_consistent_with_physics() {
    let left_curl = select_curl_toward_center(s(-2.0));
    assert!(
        f(left_curl.angular_velocity()) < 0.0,
        "Left target should use curl that goes right (negative angular vel)"
    );
    let right_curl = select_curl_toward_center(s(2.0));
    assert!(
        f(right_curl.angular_velocity()) > 0.0,
        "Right target should use curl that goes left (positive angular vel)"
    );
}

// ============ COMPLETE DECISION TESTS ============

#[test]
fn decide_shot_returns_valid_decision() {
    let stones: Vec<StoneOnIce> = vec![];
    let (target, shot_type, curl) = decide_shot(&stones, Team::One, 0, 0, false, target_for);
    assert_eq!(shot_type, ShotType::Draw);
    let half_width = SHEET_WIDTH * 0.5 - STONE_RADIUS;
    assert!(f(target.x) >= -half_width && f(target.x) <= half_width);
    assert!(curl == CurlDirection::InTurn || curl == CurlDirection::OutTurn);
}

#[test]
fn decide_shot_with_existing_stones() {
    let stones = vec![stone(Team::Two, 0.1, 0.0)];
    let (target, shot_type, curl) = decide_shot(&stones, Team::One, 0, 10, false, target_for);
    assert_eq!(shot_type, ShotType::Takeout);
    let (tx, ty) = tee();
    let dx = f(target.x) - (tx + 0.1);
    let dy = f(target.y) - ty;
    assert!((dx * dx + dy * dy).sqrt() < 0.01);
    assert_eq!(curl, CurlDirection::InTurn);
}

#[test]
fn decide_shot_clamps_target_and_curls_inward() {
    let stones: Vec<StoneOnIce> = vec![];
    let far_left = |_: ShotType, _: BoardAnalysis| Position { x: s(-9.0), y: s(30.0) };
    let (target, _, curl) = decide_shot(&stones, Team::Two, 0, 0, false, far_left);
    assert_eq!(f(target.x), -(SHEET_WIDTH * 0.5 - STONE_RADIUS));
    assert_eq!(f(target.y), f(tee_line_far()) + BACK_FROM_TEE - STONE_RADIUS);
    assert_eq!(curl, CurlDirection::OutTurn);
}

// ============ TURN HELPERS ============

#[test]
fn score_diff_from_ai_side() {
    let mut state = GameState::default();
    state.team1_score = 5;
    state.team2_score = 2;
    assert_eq!(calculate_score_diff(Team::One, &state), 3);
    assert_eq!(calculate_score_diff(Team::Two, &state), -3);
}

#[test]
fn human_turn_depends_on_ai_team() {
    let mut state = GameState::default();
    assert!(run_if_human_turn(&state));
    setup_ai_game(&mut state);
    assert_eq!(state.ai_team, Some(Team::Two));
    state.shot_index = 0;
    assert!(run_if_human_turn(&state));
    state.shot_index = 1;
    assert!(!run_if_human_turn(&state));
}
