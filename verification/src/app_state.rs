//! Screens of the application and the role in an online game.
use vstd::prelude::*;

use crate::components::Team;

verus! {

/// The screens the application moves between.
#[derive(Clone, Copy, PartialEq, Eq, Debug, Structural)]
pub enum AppState {
    /// Splash screen.
    Splash,
    /// Main menu.
    MainMenu,
    /// Settings.
    Settings,
    /// Game paused.
    Paused,
    /// Local hot-seat game.
    PassAndPlay,
    /// Game against the computer.
    VsAI,
    /// Create or join an online game.
    OnlineMenu,
    /// Waiting for the opponent.
    OnlineLobby,
    /// Online game in progress.
    OnlineGame,
}

impl Default for AppState {
    fn default() -> (r: AppState)
        ensures
            r == AppState::Splash,
    {
        AppState::Splash
    }
}

/// Role in an online game.
#[derive(Clone, Copy, PartialEq, Eq, Debug, Structural)]
pub enum NetworkRole {
    /// Not online.
    Offline,
    /// Created the room (plays Team 1).
    Host,
    /// Joined the room (plays Team 2).
    Guest,
}

impl Default for NetworkRole {
    fn default() -> (r: NetworkRole)
        ensures
            r == NetworkRole::Offline,
    {
        NetworkRole::Offline
    }
}

/// A state in which a game is being played (and can be paused).
pub open spec fn is_game_screen(s: AppState) -> bool {
    s == AppState::PassAndPlay || s == AppState::VsAI || s == AppState::OnlineGame
}

/// The screen a paused game resumes to: the screen it was paused from, or
/// the hot-seat game when none was recorded.
pub open spec fn resume_target_of(previous: Option<AppState>) -> AppState {
    match previous {
        Some(s) => s,
        None => AppState::PassAndPlay,
    }
}

/// Where the Resume button returns to.
pub fn resume_target(previous: Option<AppState>) -> (r: AppState)
    ensures
        r == resume_target_of(previous),
{
    match previous {
        Some(s) => s,
        None => AppState::PassAndPlay,
    }
}

/// The effect of pressing Escape.
#[derive(Clone, Copy, PartialEq, Eq, Debug, Structural)]
pub struct PauseToggle {
    /// The screen to switch to, if any.
    pub next: Option<AppState>,
    /// The remembered screen to resume to afterwards.
    pub previous: Option<AppState>,
}

/// Escape pauses a game (remembering which one) and resumes a paused game;
/// on other screens it does nothing.
pub fn toggle_pause(current: AppState, previous: Option<AppState>) -> (r: PauseToggle)
    ensures
        is_game_screen(current) ==> r.next == Some(AppState::Paused) && r.previous == Some(current),
        current == AppState::Paused ==> r.next == Some(resume_target_of(previous)) && r.previous
            == previous,
        !is_game_screen(current) && current != AppState::Paused ==> r.next is None && r.previous
            == previous,
{
    match current {
        AppState::PassAndPlay | AppState::VsAI | AppState::OnlineGame => PauseToggle {
            next: Some(AppState::Paused),
            previous: Some(current),
        },
        AppState::Paused => PauseToggle { next: Some(resume_target(previous)), previous },
        _ => PauseToggle { next: None, previous },
    }
}

/// Pausing and then resuming returns to the game that was paused.
pub proof fn law_pause_round_trip(game: AppState, previous: Option<AppState>)
    requires
        is_game_screen(game),
    ensures
        resume_target_of(Some(game)) == game,
{
}

/// The team a player controls online: the host plays Team 1, the guest
/// Team 2 (and Team 1 when no role was set).
pub fn local_team_for_role(role: NetworkRole) -> (r: Team)
    ensures
        r == (if role == NetworkRole::Guest {
            Team::Two
        } else {
            Team::One
        }),
{
    match role {
        NetworkRole::Host => Team::One,
        NetworkRole::Guest => Team::Two,
        NetworkRole::Offline => Team::One,
    }
}

/// A navigation button of the menus, the pause screen, the online screens
/// and the disconnection overlay.
#[derive(Clone, Copy, PartialEq, Eq, Debug, Structural)]
pub enum MenuButton {
    /// Main menu: local hot-seat game.
    PassAndPlay,
    /// Main menu: online game.
    OnlineMultiplayer,
    /// Pause screen: back to the game.
    Resume,
    /// Pause screen: leave the game.
    QuitToMenu,
    /// Settings: back.
    SettingsBack,
    /// Online menu: back.
    OnlineBack,
    /// Lobby: stop waiting (closes the connection).
    CancelLobby,
    /// Disconnection overlay: leave the game (closes the connection).
    ReturnToMenu,
}

/// Where a button leads and, for the buttons that end an online session,
/// the network role it sets (none otherwise: the role is kept).
pub open spec fn destination(button: MenuButton, previous: Option<AppState>) -> (AppState, Option<NetworkRole>) {
    match button {
        MenuButton::PassAndPlay => (AppState::PassAndPlay, None),
        MenuButton::OnlineMultiplayer => (AppState::OnlineMenu, None),
        MenuButton::Resume => (resume_target_of(previous), None),
        MenuButton::QuitToMenu => (AppState::MainMenu, None),
        MenuButton::SettingsBack => (AppState::MainMenu, None),
        MenuButton::OnlineBack => (AppState::MainMenu, None),
        MenuButton::CancelLobby => (AppState::OnlineMenu, Some(NetworkRole::Offline)),
        MenuButton::ReturnToMenu => (AppState::MainMenu, Some(NetworkRole::Offline)),
    }
}

/// The screen a pressed button leads to (`previous` is the game a paused
/// game resumes to) and the network role it sets, if any.
pub fn button_destination(button: MenuButton, previous: Option<AppState>) -> (r: (AppState, Option<NetworkRole>))
    ensures
        r == destination(button, previous),
{
    match button {
        MenuButton::PassAndPlay => (AppState::PassAndPlay, None),
        MenuButton::OnlineMultiplayer => (AppState::OnlineMenu, None),
        MenuButton::Resume => (resume_target(previous), None),
        MenuButton::QuitToMenu => (AppState::MainMenu, None),
        MenuButton::SettingsBack => (AppState::MainMenu, None),
        MenuButton::OnlineBack => (AppState::MainMenu, None),
        MenuButton::CancelLobby => (AppState::OnlineMenu, Some(NetworkRole::Offline)),
        MenuButton::ReturnToMenu => (AppState::MainMenu, Some(NetworkRole::Offline)),
    }
}

/// Leaving an online session by a button always drops the network role, and
/// no button leads into a game screen except starting or resuming one.
pub proof fn law_navigation(button: MenuButton, previous: Option<AppState>)
    ensures
        (button == MenuButton::CancelLobby || button == MenuButton::ReturnToMenu) ==> destination(
            button,
            previous,
        ).1 == Some(NetworkRole::Offline),
        is_game_screen(destination(button, previous).0) ==> button == MenuButton::PassAndPlay
            || button == MenuButton::Resume,
{
}

} // verus!
