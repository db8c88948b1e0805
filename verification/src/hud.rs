//! The texts the game shows: window title, heads-up display, thrower,
//! end-score and game-over panels.
use vstd::prelude::*;

use crate::components::{other_team, CurlDirection, Phase, Team};
use crate::constants::TOTAL_SHOTS;
use crate::game_logic::{history_total_one, history_total_two};
use crate::personality::{
    aim_label, position_label, thrower_slot, weight_label, PlayerPersonalities,
};
use crate::resources::{thrower, GameState};
use crate::text::{append_column, append_decimal, column, decimal, decimal_string};

verus! {

// ============================================================================
// LABELS
// ============================================================================

/// A team's display name.
pub open spec fn team_label(t: Team) -> Seq<char> {
    match t {
        Team::One => "Team 1"@,
        Team::Two => "Team 2"@,
    }
}

/// A team's name in capitals.
pub open spec fn team_label_upper(t: Team) -> Seq<char> {
    match t {
        Team::One => "TEAM 1"@,
        Team::Two => "TEAM 2"@,
    }
}

/// The phase as the window title names it.
pub open spec fn title_phase_label(p: Phase) -> Seq<char> {
    match p {
        Phase::CallingShot => "Calling shot (Enter)"@,
        Phase::Aiming => "Aiming (Space to throw)"@,
        Phase::StoneMoving => "Stones moving"@,
        Phase::Resolve => "Resolving shot"@,
        Phase::ShowingScore => "End Score"@,
        Phase::Ended => "Game Over"@,
    }
}

/// The phase as the heads-up display names it.
pub open spec fn hud_phase_label(p: Phase) -> Seq<char> {
    match p {
        Phase::CallingShot => "Calling Shot"@,
        Phase::Aiming => "Ready to Throw"@,
        Phase::StoneMoving => "Stone Moving..."@,
        Phase::Resolve => "Resolving..."@,
        Phase::ShowingScore => "End Score"@,
        Phase::Ended => ""@,
    }
}

/// The phase as the status line names it.
pub open spec fn status_phase_label(p: Phase) -> Seq<char> {
    match p {
        Phase::CallingShot => "Drag broom to aim"@,
        Phase::Aiming => "Ready to Throw"@,
        Phase::StoneMoving => "Stone Moving"@,
        Phase::Resolve => "Resolving"@,
        Phase::ShowingScore => "End Score"@,
        Phase::Ended => "Game Over"@,
    }
}

/// What the winner line says at the end of a game.
pub open spec fn result_label(team1_score: u32, team2_score: u32) -> Seq<char> {
    if team1_score > team2_score {
        "Team 1 Wins!"@
    } else if team2_score > team1_score {
        "Team 2 Wins!"@
    } else {
        "Tie Game!"@
    }
}

/// What the confirm button says in each phase.
pub open spec fn confirm_label(p: Phase) -> Seq<char> {
    match p {
        Phase::CallingShot => "Confirm Shot"@,
        Phase::Aiming => "THROW!"@,
        _ => "Wait..."@,
    }
}

fn team_name_upper(t: Team) -> (r: &'static str)
    ensures
        r@ == team_label_upper(t),
{
    match t {
        Team::One => "TEAM 1",
        Team::Two => "TEAM 2",
    }
}

/// The phase as the window title names it.
pub fn title_phase_name(p: Phase) -> (r: &'static str)
    ensures
        r@ == title_phase_label(p),
{
    match p {
        Phase::CallingShot => "Calling shot (Enter)",
        Phase::Aiming => "Aiming (Space to throw)",
        Phase::StoneMoving => "Stones moving",
        Phase::Resolve => "Resolving shot",
        Phase::ShowingScore => "End Score",
        Phase::Ended => "Game Over",
    }
}

/// The phase indicator of the heads-up display (empty once the game is over).
pub fn hud_phase_name(p: Phase) -> (r: &'static str)
    ensures
        r@ == hud_phase_label(p),
{
    match p {
        Phase::CallingShot => "Calling Shot",
        Phase::Aiming => "Ready to Throw",
        Phase::StoneMoving => "Stone Moving...",
        Phase::Resolve => "Resolving...",
        Phase::ShowingScore => "End Score",
        Phase::Ended => "",
    }
}

/// The phase as the status line names it.
pub fn status_phase_name(p: Phase) -> (r: &'static str)
    ensures
        r@ == status_phase_label(p),
{
    match p {
        Phase::CallingShot => "Drag broom to aim",
        Phase::Aiming => "Ready to Throw",
        Phase::StoneMoving => "Stone Moving",
        Phase::Resolve => "Resolving",
        Phase::ShowingScore => "End Score",
        Phase::Ended => "Game Over",
    }
}

/// The winner line and the game-over headline name the team with the
/// strictly larger total, the one that `winner` picks, and announce a tie
/// when the totals are equal.
pub proof fn law_result_names_winner(team1_score: u32, team2_score: u32)
    ensures
        crate::rules::winner(team1_score, team2_score) == Some(Team::One) ==> result_label(
            team1_score,
            team2_score,
        ) == "Team 1 Wins!"@,
        crate::rules::winner(team1_score, team2_score) == Some(Team::Two) ==> result_label(
            team1_score,
            team2_score,
        ) == "Team 2 Wins!"@,
        crate::rules::winner(team1_score, team2_score) is None ==> result_label(team1_score, team2_score)
            == "Tie Game!"@,
        crate::rules::winner(team1_score, team2_score) == Some(Team::One) ==> winner_text(
            team1_score,
            team2_score,
        ) == "Team 1 Wins "@ + decimal(team1_score as nat) + " - "@ + decimal(
            team2_score as nat,
        ) + "!"@,
        crate::rules::winner(team1_score, team2_score) == Some(Team::Two) ==> winner_text(
            team1_score,
            team2_score,
        ) == "Team 2 Wins "@ + decimal(team2_score as nat) + " - "@ + decimal(
            team1_score as nat,
        ) + "!"@,
        crate::rules::winner(team1_score, team2_score) is None ==> winner_text(team1_score, team2_score)
            == "Tie Game "@ + decimal(team1_score as nat) + " - "@ + decimal(
            team2_score as nat,
        ) + "!"@,
{
}

/// The winner line: which team won, or a tie.
pub fn result_name(team1_score: u32, team2_score: u32) -> (r: &'static str)
    ensures
        r@ == result_label(team1_score, team2_score),
        crate::rules::winner(team1_score, team2_score) == Some(Team::One) ==> r@ == "Team 1 Wins!"@,
        crate::rules::winner(team1_score, team2_score) == Some(Team::Two) ==> r@ == "Team 2 Wins!"@,
        crate::rules::winner(team1_score, team2_score) is None ==> r@ == "Tie Game!"@,
{
    proof {
        law_result_names_winner(team1_score, team2_score);
    }
    if team1_score > team2_score {
        "Team 1 Wins!"
    } else if team2_score > team1_score {
        "Team 2 Wins!"
    } else {
        "Tie Game!"
    }
}

/// The confirm button: "Confirm Shot" while calling, "THROW!" while aiming,
/// "Wait..." otherwise.
pub fn confirm_button_label(p: Phase) -> (r: &'static str)
    ensures
        r@ == confirm_label(p),
{
    match p {
        Phase::CallingShot => "Confirm Shot",
        Phase::Aiming => "THROW!",
        _ => "Wait...",
    }
}

// ============================================================================
// WINDOW TITLE AND STATUS LINE
// ============================================================================

/// The window title: the final score once the game is over, otherwise the
/// end, the score, the shot, the throwing team and the phase.
pub open spec fn window_title_text(s: GameState) -> Seq<char> {
    if s.phase == Phase::Ended {
        "Curling - FINAL: Team 1 "@ + decimal(s.team1_score as nat) + " - Team 2 "@ + decimal(
            s.team2_score as nat,
        )
    } else {
        "Curling - End "@ + decimal(s.current_end as nat) + "/"@ + decimal(s.total_ends as nat)
            + " | Team 1 "@ + decimal(s.team1_score as nat) + " - Team 2 "@ + decimal(
            s.team2_score as nat,
        ) + " | Shot "@ + decimal((s.shot_index + 1) as nat) + "/"@ + decimal(
            TOTAL_SHOTS as nat,
        ) + " | "@ + team_label(thrower(s.first_throw_team, s.shot_index as int)) + " | "@
            + title_phase_label(s.phase)
    }
}

/// The window title for the current state.
pub fn window_title(state: &GameState) -> (r: String)
    ensures
        r@ == window_title_text(*state),
{
    if state.phase == Phase::Ended {
        let mut t = String::from_str("Curling - FINAL: Team 1 ");
        append_decimal(&mut t, state.team1_score as u64);
        t.append(" - Team 2 ");
        append_decimal(&mut t, state.team2_score as u64);
        t
    } else {
        let mut t = String::from_str("Curling - End ");
        append_decimal(&mut t, state.current_end as u64);
        t.append("/");
        append_decimal(&mut t, state.total_ends as u64);
        t.append(" | Team 1 ");
        append_decimal(&mut t, state.team1_score as u64);
        t.append(" - Team 2 ");
        append_decimal(&mut t, state.team2_score as u64);
        t.append(" | Shot ");
        append_decimal(&mut t, state.shot_index as u64 + 1);
        t.append("/");
        append_decimal(&mut t, TOTAL_SHOTS as u64);
        t.append(" | ");
        t.append(state.current_team().name());
        t.append(" | ");
        t.append(title_phase_name(state.phase));
        t
    }
}

/// The status line: the final score and result once the game is over,
/// otherwise end, shot, throwing team, called weight (as written by the
/// caller, one decimal) and phase.
pub open spec fn status_line_text(s: GameState, weight_text: Seq<char>) -> Seq<char> {
    if s.phase == Phase::Ended {
        "FINAL: Team 1 "@ + decimal(s.team1_score as nat) + " - Team 2 "@ + decimal(
            s.team2_score as nat,
        ) + " | "@ + result_label(s.team1_score, s.team2_score)
    } else {
        "End "@ + decimal(s.current_end as nat) + "/"@ + decimal(s.total_ends as nat) + " | Shot "@
            + decimal((s.shot_index + 1) as nat) + "/"@ + decimal(TOTAL_SHOTS as nat) + " "@
            + team_label(thrower(s.first_throw_team, s.shot_index as int)) + " | Weight: "@
            + weight_text + " | "@ + status_phase_label(s.phase)
    }
}

/// The status line for the current state; `weight_text` is the called
/// weight written with one decimal.
pub fn status_line(state: &GameState, weight_text: &str) -> (r: String)
    ensures
        r@ == status_line_text(*state, weight_text@),
{
    if state.phase == Phase::Ended {
        let mut t = String::from_str("FINAL: Team 1 ");
        append_decimal(&mut t, state.team1_score as u64);
        t.append(" - Team 2 ");
        append_decimal(&mut t, state.team2_score as u64);
        t.append(" | ");
        t.append(result_name(state.team1_score, state.team2_score));
        t
    } else {
        let mut t = String::from_str("End ");
        append_decimal(&mut t, state.current_end as u64);
        t.append("/");
        append_decimal(&mut t, state.total_ends as u64);
        t.append(" | Shot ");
        append_decimal(&mut t, state.shot_index as u64 + 1);
        t.append("/");
        append_decimal(&mut t, TOTAL_SHOTS as u64);
        t.append(" ");
        t.append(state.current_team().name());
        t.append(" | Weight: ");
        t.append(weight_text);
        t.append(" | ");
        t.append(status_phase_name(state.phase));
        t
    }
}

// ============================================================================
// HEADS-UP DISPLAY
// ============================================================================

/// A score in the heads-up display.
pub fn score_label(score: u32) -> (r: String)
    ensures
        r@ == decimal(score as nat),
{
    decimal_string(score as u64)
}

/// "FINAL" once the game is over, otherwise "END current/total".
pub fn end_info_label(state: &GameState) -> (r: String)
    ensures
        state.phase == Phase::Ended ==> r@ == "FINAL"@,
        state.phase != Phase::Ended ==> r@ == "END "@ + decimal(state.current_end as nat) + "/"@
            + decimal(state.total_ends as nat),
{
    if state.phase == Phase::Ended {
        String::from_str("FINAL")
    } else {
        let mut t = String::from_str("END ");
        append_decimal(&mut t, state.current_end as u64);
        t.append("/");
        append_decimal(&mut t, state.total_ends as u64);
        t
    }
}

/// "Game Over" once the game is over, otherwise "Shot: n/16" for the
/// 1-based shot number.
pub fn shot_info_label(state: &GameState) -> (r: String)
    ensures
        state.phase == Phase::Ended ==> r@ == "Game Over"@,
        state.phase != Phase::Ended ==> r@ == "Shot: "@ + decimal((state.shot_index + 1) as nat)
            + "/"@ + decimal(TOTAL_SHOTS as nat),
{
    if state.phase == Phase::Ended {
        String::from_str("Game Over")
    } else {
        let mut t = String::from_str("Shot: ");
        append_decimal(&mut t, state.shot_index as u64 + 1);
        t.append("/");
        append_decimal(&mut t, TOTAL_SHOTS as u64);
        t
    }
}

/// Shots left in the end (none past the last one).
pub open spec fn shots_left(shot_index: u8) -> nat {
    if shot_index >= TOTAL_SHOTS {
        0
    } else {
        (TOTAL_SHOTS - shot_index) as nat
    }
}

/// Empty once the game is over, otherwise "Remaining: n" with the shots left
/// in the end.
pub fn shots_remaining_label(state: &GameState) -> (r: String)
    ensures
        state.phase == Phase::Ended ==> r@ == ""@,
        state.phase != Phase::Ended ==> r@ == "Remaining: "@ + decimal(shots_left(state.shot_index)),
{
    if state.phase == Phase::Ended {
        String::from_str("")
    } else {
        let remaining: u8 = TOTAL_SHOTS.saturating_sub(state.shot_index);
        let mut t = String::from_str("Remaining: ");
        append_decimal(&mut t, remaining as u64);
        t
    }
}

/// The colour of the turn indicator: a team's colour, or white for a tie.
#[derive(Clone, Copy, PartialEq, Eq, Debug, Structural)]
pub enum TurnColor {
    /// The colour of this team.
    TeamColor(Team),
    /// White.
    White,
}

/// The turn indicator: once the game is over the winner (in its colour) or
/// a tie (white); otherwise "<team>'s Turn" in the throwing team's colour.
pub fn turn_indicator(state: &GameState) -> (r: (String, TurnColor))
    ensures
        state.phase == Phase::Ended ==> {
            &&& r.0@ == result_label(state.team1_score, state.team2_score)
            &&& r.1 == (if state.team1_score > state.team2_score {
                TurnColor::TeamColor(Team::One)
            } else if state.team2_score > state.team1_score {
                TurnColor::TeamColor(Team::Two)
            } else {
                TurnColor::White
            })
        },
        state.phase != Phase::Ended ==> {
            &&& r.0@ == team_label(thrower(state.first_throw_team, state.shot_index as int))
                + "'s Turn"@
            &&& r.1 == TurnColor::TeamColor(thrower(state.first_throw_team, state.shot_index as int))
        },
{
    if state.phase == Phase::Ended {
        let color = if state.team1_score > state.team2_score {
            TurnColor::TeamColor(Team::One)
        } else if state.team2_score > state.team1_score {
            TurnColor::TeamColor(Team::Two)
        } else {
            TurnColor::White
        };
        (String::from_str(result_name(state.team1_score, state.team2_score)), color)
    } else {
        let team = state.current_team();
        let mut t = String::from_str(team.name());
        t.append("'s Turn");
        (t, TurnColor::TeamColor(team))
    }
}

/// "<TEAM> HAMMER" for the team with the last stone: the team that does not
/// throw first.
pub fn hammer_label(first_throw_team: Team) -> (r: String)
    ensures
        r@ == team_label_upper(other_team(first_throw_team)) + " HAMMER"@,
{
    let mut t = String::from_str(team_name_upper(first_throw_team.opponent()));
    t.append(" HAMMER");
    t
}

/// Whether a curl button shows as selected: it is the chosen curl.
pub fn curl_button_selected(state: &GameState, button: CurlDirection) -> (r: bool)
    ensures
        r == (state.curl_direction == button),
{
    state.curl_direction == button
}

// ============================================================================
// THROWER, END SCORE AND GAME OVER PANELS
// ============================================================================

/// The thrower line while the shot is called or aimed ("Position: weight
/// skill, aim skill" of the player throwing); `None` (hidden, empty) in the
/// other phases.
pub fn thrower_info(state: &GameState, personalities: &PlayerPersonalities) -> (r: Option<String>)
    ensures
        (state.phase == Phase::CallingShot || state.phase == Phase::Aiming) <==> r is Some,
        r matches Some(t) ==> {
            let team = thrower(state.first_throw_team, state.shot_index as int);
            let p = if team == Team::One {
                personalities.team1@[thrower_slot(state.shot_index as int)]
            } else {
                personalities.team2@[thrower_slot(state.shot_index as int)]
            };
            t@ == position_label(p.position) + ": "@ + weight_label(p.weight_skill) + ", "@
                + aim_label(p.aim_skill)
        },
{
    if state.phase == Phase::CallingShot || state.phase == Phase::Aiming {
        let p = personalities.current_thrower(state.shot_index, state.first_throw_team);
        Some(p.description())
    } else {
        None
    }
}

/// "point" or "points".
pub open spec fn points_word(n: u32) -> Seq<char> {
    if n == 1 {
        " point!"@
    } else {
        " points!"@
    }
}

/// What the end-score panel says about an end's points.
pub open spec fn end_score_text(team1_points: u32, team2_points: u32) -> Seq<char> {
    if team1_points > 0 {
        "Team 1 scores "@ + decimal(team1_points as nat) + points_word(team1_points)
    } else if team2_points > 0 {
        "Team 2 scores "@ + decimal(team2_points as nat) + points_word(team2_points)
    } else {
        "Blank end - no score"@
    }
}

fn points_suffix(n: u32) -> (r: &'static str)
    ensures
        r@ == points_word(n),
{
    if n == 1 {
        " point!"
    } else {
        " points!"
    }
}

/// The end-score panel's text while an end's score is shown; `None` (text
/// left as it was) in the other phases or when no score is pending.
pub fn score_summary(state: &GameState) -> (r: Option<String>)
    ensures
        state.phase != Phase::ShowingScore ==> r is None,
        state.phase == Phase::ShowingScore ==> match state.pending_end_score {
            Some(p) => r matches Some(t) && t@ == end_score_text(p.0, p.1),
            None => r is None,
        },
{
    if state.phase != Phase::ShowingScore {
        return None;
    }
    match state.pending_end_score {
        Some((team1_points, team2_points)) => {
            if team1_points > 0 {
                let mut t = String::from_str("Team 1 scores ");
                append_decimal(&mut t, team1_points as u64);
                t.append(points_suffix(team1_points));
                Some(t)
            } else if team2_points > 0 {
                let mut t = String::from_str("Team 2 scores ");
                append_decimal(&mut t, team2_points as u64);
                t.append(points_suffix(team2_points));
                Some(t)
            } else {
                Some(String::from_str("Blank end - no score"))
            }
        },
        None => None,
    }
}

/// The game-over headline: the winner with the winner's score first, or a
/// tie.
pub open spec fn winner_text(team1_score: u32, team2_score: u32) -> Seq<char> {
    if team1_score > team2_score {
        "Team 1 Wins "@ + decimal(team1_score as nat) + " - "@ + decimal(team2_score as nat) + "!"@
    } else if team2_score > team1_score {
        "Team 2 Wins "@ + decimal(team2_score as nat) + " - "@ + decimal(team1_score as nat) + "!"@
    } else {
        "Tie Game "@ + decimal(team1_score as nat) + " - "@ + decimal(team2_score as nat) + "!"@
    }
}

/// The game-over headline for the final score.
pub fn game_over_winner(team1_score: u32, team2_score: u32) -> (r: String)
    ensures
        r@ == winner_text(team1_score, team2_score),
{
    let (mut t, first, second) = if team1_score > team2_score {
        (String::from_str("Team 1 Wins "), team1_score, team2_score)
    } else if team2_score > team1_score {
        (String::from_str("Team 2 Wins "), team2_score, team1_score)
    } else {
        (String::from_str("Tie Game "), team1_score, team2_score)
    };
    append_decimal(&mut t, first as u64);
    t.append(" - ");
    append_decimal(&mut t, second as u64);
    t.append("!");
    t
}

/// One row of the score table: end number (width 2) and both teams' points
/// (width 3).
pub open spec fn breakdown_row(end_number: nat, points: (u32, u32)) -> Seq<char> {
    " "@ + column(end_number, 2) + "      "@ + column(points.0 as nat, 3) + "      "@ + column(
        points.1 as nat,
        3,
    ) + "\n"@
}

/// The rows of the score table, one per end in order.
pub open spec fn breakdown_rows(ends: Seq<(u32, u32)>) -> Seq<char>
    decreases ends.len(),
{
    if ends.len() == 0 {
        Seq::empty()
    } else {
        breakdown_rows(ends.drop_last()) + breakdown_row(ends.len(), ends.last())
    }
}

/// The score table: a row per end, a rule, and the totals.
pub open spec fn breakdown_text(ends: Seq<(u32, u32)>) -> Seq<char> {
    breakdown_rows(ends) + "────────────────────\n"@ + "TOT     "@ + column(
        history_total_one(ends) as nat,
        3,
    ) + "      "@ + column(history_total_two(ends) as nat, 3)
}

/// A prefix of the ends scores no more than all of them.
pub proof fn lemma_prefix_totals(ends: Seq<(u32, u32)>, i: int)
    requires
        0 <= i <= ends.len(),
    ensures
        0 <= history_total_one(ends.subrange(0, i)) <= history_total_one(ends),
        0 <= history_total_two(ends.subrange(0, i)) <= history_total_two(ends),
    decreases ends.len(),
{
    if ends.len() > 0 {
        if i == ends.len() {
            assert(ends.subrange(0, i) =~= ends);
            lemma_prefix_totals(ends.drop_last(), i - 1);
            assert(ends.drop_last().subrange(0, i - 1) =~= ends.drop_last());
        } else {
            lemma_prefix_totals(ends.drop_last(), i);
            assert(ends.drop_last().subrange(0, i) =~= ends.subrange(0, i));
            lemma_prefix_totals(ends.drop_last(), ends.len() - 1);
            assert(ends.drop_last().subrange(0, ends.len() - 1) =~= ends.drop_last());
        }
    }
}

/// The game-over score table for the recorded ends.  The totals must fit in
/// a `u32`, as the sums are kept in one.
pub fn score_breakdown(end_scores: &Vec<(u32, u32)>) -> (r: String)
    requires
        history_total_one(end_scores@) <= u32::MAX,
        history_total_two(end_scores@) <= u32::MAX,
    ensures
        r@ == breakdown_text(end_scores@),
{
    let mut text = String::new();
    let mut team1_total: u32 = 0;
    let mut team2_total: u32 = 0;
    let mut i: usize = 0;
    while i < end_scores.len()
        invariant
            i <= end_scores.len(),
            history_total_one(end_scores@) <= u32::MAX,
            history_total_two(end_scores@) <= u32::MAX,
            text@ == breakdown_rows(end_scores@.subrange(0, i as int)),
            team1_total == history_total_one(end_scores@.subrange(0, i as int)),
            team2_total == history_total_two(end_scores@.subrange(0, i as int)),
        decreases end_scores.len() - i,
    {
        let (t1, t2) = end_scores[i];
        proof {
            let next = end_scores@.subrange(0, i + 1);
            assert(next.drop_last() =~= end_scores@.subrange(0, i as int));
            lemma_prefix_totals(end_scores@, i + 1);
        }
        text.append(" ");
        append_column(&mut text, i as u64 + 1, 2);
        text.append("      ");
        append_column(&mut text, t1 as u64, 3);
        text.append("      ");
        append_column(&mut text, t2 as u64, 3);
        text.append("\n");
        team1_total = team1_total + t1;
        team2_total = team2_total + t2;
        i = i + 1;
    }
    proof {
        assert(end_scores@.subrange(0, i as int) =~= end_scores@);
    }
    text.append("────────────────────\n");
    text.append("TOT     ");
    append_column(&mut text, team1_total as u64, 3);
    text.append("      ");
    append_column(&mut text, team2_total as u64, 3);
    text
}

} // verus!
