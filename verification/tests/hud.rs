use curling_game::components::{CurlDirection, Phase, Team};
use curling_game::hud::{
    confirm_button_label, curl_button_selected, end_info_label, game_over_winner, hammer_label,
    hud_phase_name, score_breakdown, score_label, score_summary, shot_info_label,
    shots_remaining_label, status_line, thrower_info, turn_indicator, window_title, TurnColor,
};
use curling_game::personality::{AimSkill, PlayerPersonalities, PlayerPosition, WeightSkill};
use curling_game::resources::GameState;
use curling_game::text::{append_column, decimal_string};

#[test]
fn decimal_strings_have_no_leading_zeros() {
    assert_eq!(decimal_string(0), "0");
    assert_eq!(decimal_string(7), "7");
    assert_eq!(decimal_string(10), "10");
    assert_eq!(decimal_string(305), "305");
    assert_eq!(decimal_string(u64::MAX), u64::MAX.to_string());
}

#[test]
fn columns_are_right_aligned() {
    let mut s = String::from("x");
    append_column(&mut s, 5, 3);
    assert_eq!(s, "x  5");
    let mut s = String::new();
    append_column(&mut s, 12, 2);
    assert_eq!(s, "12");
    let mut s = String::new();
    append_column(&mut s, 1234, 3);
    assert_eq!(s, "1234");
}

#[test]
fn window_title_during_play() {
    let mut state = GameState::default();
    state.current_end = 3;
    state.team1_score = 2;
    state.team2_score = 1;
    state.shot_index = 4;
    state.first_throw_team = Team::Two;
    state.phase = Phase::Aiming;
    assert_eq!(
        window_title(&state),
        "Curling - End 3/8 | Team 1 2 - Team 2 1 | Shot 5/16 | Team 2 | Aiming (Space to throw)"
    );
}

#[test]
fn window_title_when_game_over() {
    let mut state = GameState::default();
    state.phase = Phase::Ended;
    state.team1_score = 7;
    state.team2_score = 5;
    assert_eq!(window_title(&state), "Curling - FINAL: Team 1 7 - Team 2 5");
}

#[test]
fn status_line_shows_call_and_result() {
    let mut state = GameState::default();
    state.shot_index = 1;
    assert_eq!(
        status_line(&state, "4.0"),
        "End 1/8 | Shot 2/16 Team 2 | Weight: 4.0 | Drag broom to aim"
    );
    state.phase = Phase::Ended;
    state.team1_score = 3;
    state.team2_score = 3;
    assert_eq!(status_line(&state, "4.0"), "FINAL: Team 1 3 - Team 2 3 | Tie Game!");
}

#[test]
fn hud_labels_during_play() {
    let mut state = GameState::default();
    state.current_end = 2;
    state.shot_index = 5;
    assert_eq!(score_label(12), "12");
    assert_eq!(end_info_label(&state), "END 2/8");
    assert_eq!(shot_info_label(&state), "Shot: 6/16");
    assert_eq!(shots_remaining_label(&state), "Remaining: 11");
    let (turn, color) = turn_indicator(&state);
    assert_eq!(turn, "Team 2's Turn");
    assert_eq!(color, TurnColor::TeamColor(Team::Two));
    assert_eq!(hud_phase_name(state.phase), "Calling Shot");
    assert_eq!(confirm_button_label(Phase::CallingShot), "Confirm Shot");
    assert_eq!(confirm_button_label(Phase::Aiming), "THROW!");
    assert_eq!(confirm_button_label(Phase::Resolve), "Wait...");
}

#[test]
fn hud_labels_when_game_over() {
    let mut state = GameState::default();
    state.phase = Phase::Ended;
    state.team1_score = 4;
    state.team2_score = 6;
    assert_eq!(end_info_label(&state), "FINAL");
    assert_eq!(shot_info_label(&state), "Game Over");
    assert_eq!(shots_remaining_label(&state), "");
    assert_eq!(turn_indicator(&state), (String::from("Team 2 Wins!"), TurnColor::TeamColor(Team::Two)));
    state.team2_score = 4;
    assert_eq!(turn_indicator(&state), (String::from("Tie Game!"), TurnColor::White));
    assert_eq!(hud_phase_name(Phase::Ended), "");
}

#[test]
fn shots_remaining_never_negative() {
    let mut state = GameState::default();
    state.shot_index = 16;
    assert_eq!(shots_remaining_label(&state), "Remaining: 0");
    state.shot_index = 20;
    assert_eq!(shots_remaining_label(&state), "Remaining: 0");
}

#[test]
fn hammer_belongs_to_second_thrower() {
    assert_eq!(hammer_label(Team::One), "TEAM 2 HAMMER");
    assert_eq!(hammer_label(Team::Two), "TEAM 1 HAMMER");
}

#[test]
fn curl_button_highlights_chosen_curl() {
    let mut state = GameState::default();
    state.curl_direction = CurlDirection::OutTurn;
    assert!(curl_button_selected(&state, CurlDirection::OutTurn));
    assert!(!curl_button_selected(&state, CurlDirection::InTurn));
}

#[test]
fn thrower_info_only_while_calling_or_aiming() {
    let mut roster = PlayerPersonalities::default();
    roster.team2[1] = curling_game::personality::PlayerPersonality::new(
        PlayerPosition::Second,
        WeightSkill::TendsHeavy,
        AimSkill::Poor,
    );
    let mut state = GameState::default();
    state.shot_index = 5;
    assert_eq!(
        thrower_info(&state, &roster),
        Some(String::from("Second: Tends heavy, Poor aim"))
    );
    state.phase = Phase::Aiming;
    state.shot_index = 0;
    assert_eq!(thrower_info(&state, &roster), Some(String::from("Lead: Average weight, Average aim")));
    state.phase = Phase::StoneMoving;
    assert_eq!(thrower_info(&state, &roster), None);
}

#[test]
fn score_summary_texts() {
    let mut state = GameState::default();
    state.phase = Phase::ShowingScore;
    state.pending_end_score = Some((1, 0));
    assert_eq!(score_summary(&state), Some(String::from("Team 1 scores 1 point!")));
    state.pending_end_score = Some((0, 3));
    assert_eq!(score_summary(&state), Some(String::from("Team 2 scores 3 points!")));
    state.pending_end_score = Some((0, 0));
    assert_eq!(score_summary(&state), Some(String::from("Blank end - no score")));
    state.pending_end_score = None;
    assert_eq!(score_summary(&state), None);
    state.phase = Phase::CallingShot;
    state.pending_end_score = Some((2, 0));
    assert_eq!(score_summary(&state), None);
}

#[test]
fn game_over_headline_puts_winner_first() {
    assert_eq!(game_over_winner(7, 5), "Team 1 Wins 7 - 5!");
    assert_eq!(game_over_winner(5, 7), "Team 2 Wins 7 - 5!");
    assert_eq!(game_over_winner(4, 4), "Tie Game 4 - 4!");
}

#[test]
fn score_breakdown_table() {
    let ends = vec![(2, 0), (0, 1), (0, 12)];
    let expected = String::from("  1        2        0\n")
        + "  2        0        1\n"
        + "  3        0       12\n"
        + "────────────────────\n"
        + "TOT       2       13";
    assert_eq!(score_breakdown(&ends), expected);
    let empty: Vec<(u32, u32)> = Vec::new();
    assert_eq!(score_breakdown(&empty), "────────────────────\nTOT       0        0");
}
