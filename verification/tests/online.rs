use curling_game::app_state::{
    local_team_for_role, resume_target, toggle_pause, AppState, NetworkRole,
};
use curling_game::components::Team;
use curling_game::online::{
    generate_room_code, is_local_turn, last_throwing_team, resolution_sender_team, OnlineState,
};
use curling_game::resources::GameState;

fn as_team(team: Option<Team>) -> OnlineState {
    let mut online = OnlineState::default();
    online.local_team = team;
    online
}

const ALPHABET: &str = "ABCDEFGHJKLMNPQRSTUVWXYZ23456789";

#[test]
fn room_code_is_4_chars() {
    let code = generate_room_code();
    assert_eq!(code.len(), 4, "Room code should be 4 characters");
}

#[test]
fn room_code_is_alphanumeric() {
    let code = generate_room_code();
    assert!(code.chars().all(|c| c.is_ascii_alphanumeric()), "Room code should be alphanumeric");
}

#[test]
fn room_codes_are_unique() {
    let codes: std::collections::HashSet<_> = (0..100).map(|_| generate_room_code()).collect();
    assert!(codes.len() > 90, "Room codes should be mostly unique");
}

#[test]
fn room_code_uses_unambiguous_alphabet() {
    for _ in 0..50 {
        let code = generate_room_code();
        assert!(code.chars().all(|c| ALPHABET.contains(c)));
        assert!(!code.contains('O') && !code.contains('I') && !code.contains('0') && !code.contains('1'));
    }
}

#[test]
fn local_turn_follows_team() {
    let mut state = GameState::default();
    state.first_throw_team = Team::Two;
    state.shot_index = 0;
    assert!(is_local_turn(&state, &as_team(Some(Team::Two))));
    assert!(!is_local_turn(&state, &as_team(Some(Team::One))));
    assert!(is_local_turn(&state, &as_team(None)));
    state.shot_index = 3;
    assert!(is_local_turn(&state, &as_team(Some(Team::One))));
}

#[test]
fn last_thrower_after_resolution() {
    let mut state = GameState::default();
    state.first_throw_team = Team::One;
    state.shot_index = 1;
    assert_eq!(resolution_sender_team(&state), Team::One);
    assert_eq!(last_throwing_team(&state), Team::One);
    state.shot_index = 0;
    assert_eq!(resolution_sender_team(&state), Team::One);
    assert_eq!(last_throwing_team(&state), Team::Two);
    state.shot_index = 16;
    assert_eq!(resolution_sender_team(&state), Team::Two);
    assert_eq!(last_throwing_team(&state), Team::Two);
}

#[test]
fn host_plays_team_one() {
    assert_eq!(local_team_for_role(NetworkRole::Host), Team::One);
    assert_eq!(local_team_for_role(NetworkRole::Guest), Team::Two);
    assert_eq!(local_team_for_role(NetworkRole::Offline), Team::One);
}

#[test]
fn escape_pauses_and_resumes() {
    let paused = toggle_pause(AppState::VsAI, None);
    assert_eq!(paused.next, Some(AppState::Paused));
    assert_eq!(paused.previous, Some(AppState::VsAI));
    let resumed = toggle_pause(AppState::Paused, paused.previous);
    assert_eq!(resumed.next, Some(AppState::VsAI));
    let idle = toggle_pause(AppState::MainMenu, Some(AppState::OnlineGame));
    assert_eq!(idle.next, None);
    assert_eq!(idle.previous, Some(AppState::OnlineGame));
    assert_eq!(toggle_pause(AppState::Paused, None).next, Some(AppState::PassAndPlay));
    assert_eq!(resume_target(None), AppState::PassAndPlay);
    assert_eq!(resume_target(Some(AppState::OnlineGame)), AppState::OnlineGame);
}
