use curling_game::ai_strategy::closest_candidate;
use curling_game::components::{CurlDirection, Phase, ShotType, Team};
use curling_game::game_logic::{
    check_out_of_bounds, collision_hit, handle_debug_quick_sim, debug_quick_sim_teams, handle_debug_skip_to_8th,
    detect_shot_end, first_team_for_coin, randomize_first_team, record_throw, stones_still,
};
use curling_game::ai_strategy::{ai_call_shot, ai_record_throw, ai_turn_gate, setup_ai_game};
use curling_game::input::{
    choose_curl, clamp_aim, clamp_broom_position, clamp_called_shot, confirm_button_action,
    confirm_called_shot, place_broom, reset_aim, ConfirmAction,
};
use curling_game::resources::{GameState, ShotSnapshot, StoneOnIce};
use curling_game::scalar::{Position, Scalar};

fn s(x: f32) -> Scalar {
    Scalar { bits: x.to_bits() }
}

fn f(v: Scalar) -> f32 {
    f32::from_bits(v.bits)
}

fn pos(x: f32, y: f32) -> Position {
    Position { x: s(x), y: s(y) }
}

fn empty_snapshot() -> ShotSnapshot {
    ShotSnapshot { stones: Vec::new(), fgz_active: true }
}

#[test]
fn broom_is_clamped_to_playable_area() {
    let half_width = 4.75f32 * 0.5 - 0.2;
    let hog_far = 17.375f32 - 6.40;
    let back_far = 17.375f32 + 1.829;
    let p = clamp_broom_position(pos(5.0, 30.0));
    assert_eq!(f(p.x), half_width);
    assert_eq!(f(p.y), back_far);
    let p = clamp_broom_position(pos(-5.0, 0.0));
    assert_eq!(f(p.x), -half_width);
    assert_eq!(f(p.y), hog_far);
    let p = clamp_broom_position(pos(0.5, 17.0));
    assert_eq!((f(p.x), f(p.y)), (0.5, 17.0));
}

#[test]
fn called_and_aimed_values_are_clamped() {
    let mut state = GameState::default();
    state.called_angle_deg = s(12.0);
    state.called_weight = s(0.2);
    clamp_called_shot(&mut state);
    assert_eq!((f(state.called_angle_deg), f(state.called_weight)), (8.0, 1.0));
    state.aim_angle_deg = s(-9.5);
    state.aim_weight = s(11.0);
    clamp_aim(&mut state);
    assert_eq!((f(state.aim_angle_deg), f(state.aim_weight)), (-8.0, 10.0));
    state.aim_angle_deg = s(3.0);
    state.aim_weight = s(5.5);
    clamp_aim(&mut state);
    assert_eq!((f(state.aim_angle_deg), f(state.aim_weight)), (3.0, 5.5));
}

#[test]
fn confirming_the_call_starts_aiming() {
    let mut state = GameState::default();
    state.called_weight = s(6.5);
    assert!(confirm_called_shot(&mut state, s(2.5)));
    assert_eq!(state.phase, Phase::Aiming);
    assert_eq!(f(state.aim_angle_deg), 2.5);
    assert_eq!(f(state.aim_weight), 6.5);
    // A second confirmation does nothing.
    assert!(!confirm_called_shot(&mut state, s(1.0)));
    assert_eq!(f(state.aim_angle_deg), 2.5);
}

#[test]
fn reset_aim_only_while_aiming() {
    let mut state = GameState::default();
    state.called_angle_deg = s(1.5);
    state.called_weight = s(5.0);
    state.aim_angle_deg = s(-3.0);
    state.aim_weight = s(7.0);
    reset_aim(&mut state);
    assert_eq!(f(state.aim_angle_deg), -3.0);
    state.phase = Phase::Aiming;
    reset_aim(&mut state);
    assert_eq!((f(state.aim_angle_deg), f(state.aim_weight)), (1.5, 5.0));
}

#[test]
fn curl_can_change_only_before_the_throw() {
    let mut state = GameState::default();
    assert!(choose_curl(&mut state, CurlDirection::OutTurn));
    assert_eq!(state.curl_direction, CurlDirection::OutTurn);
    state.phase = Phase::StoneMoving;
    assert!(!choose_curl(&mut state, CurlDirection::InTurn));
    assert_eq!(state.curl_direction, CurlDirection::OutTurn);
}

#[test]
fn broom_placement_sets_the_call() {
    let mut state = GameState::default();
    assert!(place_broom(&mut state, pos(0.4, 18.0), s(1.2), s(7.0)));
    assert_eq!(state.broom_position, pos(0.4, 18.0));
    assert_eq!((f(state.called_angle_deg), f(state.called_weight)), (1.2, 7.0));
    state.phase = Phase::Aiming;
    assert!(!place_broom(&mut state, pos(0.0, 12.0), s(0.0), s(1.0)));
    assert_eq!(state.broom_position, pos(0.4, 18.0));
}

#[test]
fn confirm_button_follows_phase() {
    assert_eq!(confirm_button_action(Phase::CallingShot), ConfirmAction::ConfirmShot);
    assert_eq!(confirm_button_action(Phase::Aiming), ConfirmAction::Throw);
    assert_eq!(confirm_button_action(Phase::StoneMoving), ConfirmAction::Wait);
    assert_eq!(confirm_button_action(Phase::ShowingScore), ConfirmAction::Wait);
}

#[test]
fn shot_ends_after_stones_stay_still() {
    let mut state = GameState::default();
    record_throw(&mut state, empty_snapshot(), 42);
    assert_eq!(state.thrown_stone, Some(42));
    let moving = vec![s(0.01), s(0.5)];
    let still = vec![s(0.01), s(0.02), s(0.0)];
    assert!(!stones_still(&moving));
    assert!(stones_still(&still));
    assert!(!detect_shot_end(&mut state, &still, s(0.3)));
    assert_eq!(f(state.still_time), 0.3);
    assert_eq!(state.phase, Phase::StoneMoving);
    assert!(!detect_shot_end(&mut state, &moving, s(0.6)));
    assert_eq!(f(state.still_time), 0.0);
    assert!(!detect_shot_end(&mut state, &still, s(0.5)));
    assert!(detect_shot_end(&mut state, &still, s(0.51)));
    assert_eq!(state.phase, Phase::Resolve);
    // Outside the moving phase nothing happens.
    assert!(!detect_shot_end(&mut state, &still, s(2.0)));
    assert_eq!(f(state.still_time), 0.51);
}

#[test]
fn stones_off_the_sheet_are_listed() {
    let stones = vec![
        StoneOnIce { entity: 1, team: Team::One, position: pos(0.0, 17.0), dist_to_tee: s(0.375) },
        StoneOnIce { entity: 2, team: Team::Two, position: pos(3.0, 10.0), dist_to_tee: s(7.9) },
        StoneOnIce { entity: 3, team: Team::One, position: pos(0.0, 25.0), dist_to_tee: s(7.6) },
    ];
    assert_eq!(check_out_of_bounds(&stones), vec![2, 3]);
    assert_eq!(check_out_of_bounds(&Vec::new()), Vec::<u64>::new());
}

#[test]
fn skip_to_eighth_end_records_sample_scores() {
    let mut state = GameState::default();
    assert!(handle_debug_skip_to_8th(&mut state));
    assert_eq!(state.current_end, 8);
    assert_eq!(state.end_scores, vec![(2, 0), (0, 1), (0, 3), (1, 0), (0, 2), (3, 0), (0, 1)]);
    assert_eq!((state.team1_score, state.team2_score), (6, 7));
    state.phase = Phase::Aiming;
    state.current_end = 3;
    assert!(!handle_debug_skip_to_8th(&mut state));
    assert_eq!(state.current_end, 3);
}

#[test]
fn quick_sim_leaves_the_hammer_throw() {
    let mut state = GameState::default();
    assert!(handle_debug_quick_sim(&mut state));
    assert_eq!(state.shot_index, 15);
    assert_eq!(state.phase, Phase::CallingShot);
    let teams = debug_quick_sim_teams(Team::Two);
    assert_eq!(teams.len(), 15);
    assert_eq!(teams[0], Team::Two);
    assert_eq!(teams[1], Team::One);
    assert_eq!(teams[14], Team::Two);
}

#[test]
fn first_team_is_drawn_fairly() {
    let mut seen_one = false;
    let mut seen_two = false;
    for _ in 0..200 {
        let mut state = GameState::default();
        state.team1_score = 3;
        let coin = randomize_first_team(&mut state);
        assert_eq!(state.team1_score, 3);
        assert_eq!(state.first_throw_team, first_team_for_coin(coin));
        match state.first_throw_team {
            Team::One => seen_one = true,
            Team::Two => seen_two = true,
        }
    }
    assert!(seen_one && seen_two);
}

#[test]
fn coin_picks_the_first_team() {
    assert_eq!(first_team_for_coin(true), Team::One);
    assert_eq!(first_team_for_coin(false), Team::Two);
}

#[test]
fn computer_acts_only_on_its_own_shot() {
    let mut state = GameState::default();
    assert!(!ai_turn_gate(&mut state));
    setup_ai_game(&mut state);
    assert_eq!(state.ai_team, Some(Team::Two));
    state.ai_think_timer = s(0.7);
    // Shot 0 belongs to Team 1: the computer waits and its timer restarts.
    assert!(!ai_turn_gate(&mut state));
    assert_eq!(f(state.ai_think_timer), 0.0);
    state.shot_index = 1;
    state.ai_think_timer = s(0.7);
    assert!(ai_turn_gate(&mut state));
    assert_eq!(f(state.ai_think_timer), 0.7);
    state.phase = Phase::StoneMoving;
    assert!(!ai_turn_gate(&mut state));
    assert_eq!(f(state.ai_think_timer), 0.7);
}

#[test]
fn computer_calls_then_throws() {
    let mut state = GameState::default();
    setup_ai_game(&mut state);
    state.shot_index = 1;
    state.ai_think_timer = s(1.5);
    ai_call_shot(&mut state, pos(-0.3, 17.2), ShotType::Guard, CurlDirection::OutTurn, s(-0.8), s(3.5));
    assert_eq!(state.phase, Phase::Aiming);
    assert_eq!(state.shot_type, ShotType::Guard);
    assert_eq!(state.curl_direction, CurlDirection::OutTurn);
    assert_eq!((f(state.called_angle_deg), f(state.aim_angle_deg)), (-0.8, -0.8));
    assert_eq!((f(state.called_weight), f(state.aim_weight)), (3.5, 3.5));
    assert_eq!(f(state.ai_think_timer), 0.0);
    state.ai_think_timer = s(1.2);
    ai_record_throw(&mut state, empty_snapshot(), 9);
    assert_eq!(state.phase, Phase::StoneMoving);
    assert_eq!(state.thrown_stone, Some(9));
    assert_eq!(f(state.ai_think_timer), 0.0);
    assert!(state.snapshot.is_some());
}

#[test]
fn clamping_twice_changes_nothing() {
    let once = clamp_broom_position(pos(-7.0, 40.0));
    assert_eq!(clamp_broom_position(once), once);
    let mut state = GameState::default();
    state.called_angle_deg = s(-20.0);
    state.called_weight = s(15.0);
    clamp_called_shot(&mut state);
    let (a, w) = (state.called_angle_deg, state.called_weight);
    clamp_called_shot(&mut state);
    assert_eq!((state.called_angle_deg, state.called_weight), (a, w));
}

#[test]
fn finished_game_stays_finished() {
    let mut state = GameState::default();
    state.phase = Phase::Ended;
    assert!(!confirm_called_shot(&mut state, s(1.0)));
    assert!(!detect_shot_end(&mut state, &vec![s(0.0)], s(1.0)));
    assert_eq!(
        curling_game::game_logic::handle_score_confirmation(&mut state, true),
        curling_game::game_logic::EndTransition::Unchanged
    );
    let actions = curling_game::game_logic::resolve_shot(&mut state, None, &Vec::new());
    assert!(!actions.resolved);
    assert_eq!(state.phase, Phase::Ended);
}

#[test]
fn broom_search_keeps_first_strictly_closest() {
    let target = pos(0.0, 17.375);
    let candidates = vec![pos(1.0, 12.0), pos(2.0, 13.0), pos(3.0, 14.0), pos(4.0, 15.0)];
    let distances = vec![s(0.8), s(0.3), s(f32::NAN), s(0.3)];
    assert_eq!(closest_candidate(&candidates, &distances, target), pos(2.0, 13.0));
    let far = vec![s(f32::MAX), s(f32::INFINITY), s(f32::NAN), s(f32::MAX)];
    assert_eq!(closest_candidate(&candidates, &far, target), target);
    assert_eq!(closest_candidate(&Vec::new(), &Vec::new(), target), target);
}

#[test]
fn only_the_delivered_stone_records_a_hit() {
    let throwing = vec![5];
    let stones = vec![1, 2, 5];
    assert_eq!(collision_hit(5, 2, &throwing, &stones), Some(5));
    assert_eq!(collision_hit(2, 5, &throwing, &stones), Some(5));
    assert_eq!(collision_hit(1, 2, &throwing, &stones), None);
    // A delivered stone touching something that is not a stone.
    assert_eq!(collision_hit(5, 99, &throwing, &stones), None);
}
