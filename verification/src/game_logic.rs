//! Shot resolution and end scoring: the decisions the game takes when every
//! stone has stopped and when the players confirm an end's score.
use vstd::prelude::*;

use crate::components::{phase_follows, Phase, ShotType, Team, ThrowingStone};
use crate::constants::{DRAW_WEIGHT_BITS, TEE_LINE_FAR_BITS, TOTAL_SHOTS};
use crate::helpers::{
    end_points, is_out_of_bounds, out_of_bounds, score_end, scoring_entities,
    scoring_entities_closest_first,
};
use crate::resources::{
    entities_of, thrower, GameState, ShotSnapshot, StoneOnIce, StoneSnapshot,
};
use crate::random::random_bool;
use crate::rules::{
    check_far_hog_violation, check_near_hog_violation, contains_entity,
    detect_opponent_fgz_violations, far_hog_violation, near_hog_violation, next_first_throw,
    opponent_fgz_violations,
};
use crate::scalar::{of_bits, real_lt, Position, Scalar};

verus! {

/// The entity ids of a sequence of stones.
pub open spec fn entity_ids(stones: Seq<StoneOnIce>) -> Seq<u64> {
    stones.map_values(|s: StoneOnIce| s.entity)
}

/// The thrown stone breaks a hog line rule.
pub open spec fn hog_violation(marker: ThrowingStone) -> bool {
    near_hog_violation(marker.max_y) || far_hog_violation(marker.max_y, marker.hit_stone)
}

/// Whether delivery tracking is present and shows a hog line violation.
pub open spec fn marker_violates(marker: Option<ThrowingStone>) -> bool {
    match marker {
        Some(m) => hog_violation(m),
        None => false,
    }
}

/// Whether the delivered stone must come off the ice for breaking the near
/// or the far hog line rule.
pub fn apply_hog_line_rules(throw_marker: ThrowingStone) -> (r: bool)
    ensures
        r == hog_violation(throw_marker),
{
    if check_near_hog_violation(throw_marker.max_y) {
        return true;
    }
    if check_far_hog_violation(throw_marker.max_y, throw_marker.hit_stone) {
        return true;
    }
    false
}

/// The guards to put back after a shot of `thrower`: the other team's Free
/// Guard Zone guards of the snapshot that are no longer among `stones` (the
/// rule protects the opponent's guards only).  When this is not empty the
/// thrown stone comes off the ice.
pub fn apply_fgz_rules(snapshot: &ShotSnapshot, stones: &Vec<StoneOnIce>, thrower: Team) -> (r: Vec<StoneSnapshot>)
    ensures
        r@ == opponent_fgz_violations(*snapshot, entity_ids(stones@), thrower),
{
    let ids = entities_of(stones);
    proof {
        assert(ids@ =~= entity_ids(stones@));
    }
    detect_opponent_fgz_violations(snapshot, &ids, thrower)
}

/// The end's points for each team and the entities of the stones that count.
pub fn calculate_end_score(stones: &Vec<StoneOnIce>) -> (r: (u32, u32, Vec<u64>))
    requires
        stones@.len() <= u32::MAX,
    ensures
        r.0 == end_points(stones@, Team::One),
        r.1 == end_points(stones@, Team::Two),
        r.0 == 0 || r.1 == 0,
        scoring_entities_closest_first(stones@, r.2@),
{
    let (team1_points, team2_points) = score_end(stones);
    let entities = scoring_entities(stones);
    (team1_points, team2_points, entities)
}

/// Sets up the next shot of the same end: calling a draw with the broom on
/// the far tee, angle 0 and draw weight, aim equal to the call.
pub fn reset_for_next_shot(state: &mut GameState)
    ensures
        *final(state) == (GameState {
            phase: Phase::CallingShot,
            shot_type: ShotType::Draw,
            broom_position: Position { x: of_bits(0), y: of_bits(TEE_LINE_FAR_BITS) },
            called_angle_deg: of_bits(0),
            called_weight: of_bits(DRAW_WEIGHT_BITS),
            aim_angle_deg: of_bits(0),
            aim_weight: of_bits(DRAW_WEIGHT_BITS),
            ..*old(state)
        }),
{
    state.phase = Phase::CallingShot;
    state.shot_type = ShotType::Draw;
    state.broom_position = Position { x: Scalar { bits: 0 }, y: Scalar { bits: TEE_LINE_FAR_BITS } };
    state.called_angle_deg = Scalar { bits: 0 };
    state.called_weight = ShotType::Draw.default_weight();
    state.aim_angle_deg = state.called_angle_deg;
    state.aim_weight = state.called_weight;
}

/// The match-level fields (scores, ends, hammer, history, computer players)
/// are the same in both states.
pub open spec fn unchanged_outside_shot(a: GameState, b: GameState) -> bool {
    &&& b.current_end == a.current_end
    &&& b.team1_score == a.team1_score
    &&& b.team2_score == a.team2_score
    &&& b.first_throw_team == a.first_throw_team
    &&& b.total_ends == a.total_ends
    &&& b.end_scores@ == a.end_scores@
    &&& b.ai_team == a.ai_team
    &&& b.ai_think_timer == a.ai_think_timer
    &&& b.ai_vs_ai == a.ai_vs_ai
}

/// Records a throw: the pre-throw snapshot, the stone in play, and the start
/// of the stone-moving phase.
pub fn record_throw(state: &mut GameState, snapshot: ShotSnapshot, thrown: u64)
    ensures
        *final(state) == (GameState {
            snapshot: Some(snapshot),
            thrown_stone: Some(thrown),
            still_time: of_bits(0),
            phase: Phase::StoneMoving,
            ..*old(state)
        }),
{
    state.snapshot = Some(snapshot);
    state.thrown_stone = Some(thrown);
    state.still_time = Scalar { bits: 0 };
    state.phase = Phase::StoneMoving;
}

/// What the caller must do to the ice after a shot is resolved.
#[derive(Debug)]
pub struct ResolveActions {
    /// Whether the rules were applied (the game was in the resolve phase).
    pub resolved: bool,
    /// The thrown stone, when a hog line or Free Guard Zone violation takes it
    /// off the ice.
    pub remove_thrown: Option<u64>,
    /// Guards removed against the Free Guard Zone rule, to be put back where
    /// they were.
    pub restore_guards: Vec<StoneSnapshot>,
    /// The stone whose delivery tracking ends.
    pub release_marker: Option<u64>,
    /// The end is complete and its score is being shown.
    pub end_complete: bool,
}

/// The guards a resolved shot of `thrower` must restore.
pub open spec fn guards_to_restore(snapshot: Option<ShotSnapshot>, stones: Seq<StoneOnIce>, thrower: Team) -> Seq<
    StoneSnapshot,
> {
    match snapshot {
        Some(s) => opponent_fgz_violations(s, entity_ids(stones), thrower),
        None => Seq::empty(),
    }
}

/// Applies the rules once every stone has stopped.  `throw_marker` is the
/// delivery tracking of the thrown stone (if it is still tracked) and `stones`
/// are the stones on the ice.  The thrown stone comes off for a hog line
/// violation or when it removed the other team's Free Guard Zone guards
/// (which are then restored; the thrower's own guards are not protected);
/// the shot counter advances; after the sixteenth shot the end is scored and
/// shown, otherwise the next shot is set up.  Outside the resolve phase
/// nothing happens.
pub fn resolve_shot(
    state: &mut GameState,
    throw_marker: Option<ThrowingStone>,
    stones: &Vec<StoneOnIce>,
) -> (r: ResolveActions)
    requires
        stones@.len() <= u32::MAX,
    ensures
        phase_follows(old(state).phase, final(state).phase),
        old(state).phase != Phase::Resolve ==> {
            &&& !r.resolved
            &&& r.remove_thrown is None
            &&& r.restore_guards@.len() == 0
            &&& r.release_marker is None
            &&& !r.end_complete
            &&& *final(state) == *old(state)
        },
        old(state).phase == Phase::Resolve ==> {
            let hog = old(state).thrown_stone is Some && marker_violates(throw_marker);
            let guards = guards_to_restore(
                old(state).snapshot,
                stones@,
                thrower(old(state).first_throw_team, old(state).shot_index as int),
            );
            let shot = if old(state).shot_index == 255 {
                255
            } else {
                old(state).shot_index + 1
            };
            &&& r.resolved
            &&& r.restore_guards@ == guards
            &&& r.remove_thrown == (if hog || guards.len() > 0 {
                old(state).thrown_stone
            } else {
                None
            })
            &&& r.release_marker == old(state).thrown_stone
            &&& final(state).shot_index == shot
            &&& final(state).thrown_stone is None
            &&& final(state).snapshot is None
            &&& final(state).still_time == of_bits(0)
            &&& unchanged_outside_shot(*old(state), *final(state))
            &&& final(state).curl_direction == old(state).curl_direction
            &&& r.end_complete == (shot >= TOTAL_SHOTS)
            &&& shot >= TOTAL_SHOTS ==> {
                &&& final(state).phase == Phase::ShowingScore
                &&& final(state).pending_end_score == Some(
                    (
                        end_points(stones@, Team::One) as u32,
                        end_points(stones@, Team::Two) as u32,
                    ),
                )
                &&& scoring_entities_closest_first(stones@, final(state).scoring_entities@)
                &&& final(state).shot_type == old(state).shot_type
                &&& final(state).broom_position == old(state).broom_position
                &&& final(state).called_angle_deg == old(state).called_angle_deg
                &&& final(state).called_weight == old(state).called_weight
                &&& final(state).aim_angle_deg == old(state).aim_angle_deg
                &&& final(state).aim_weight == old(state).aim_weight
            }
            &&& shot < TOTAL_SHOTS ==> {
                &&& final(state).phase == Phase::CallingShot
                &&& final(state).shot_type == ShotType::Draw
                &&& final(state).broom_position == (Position {
                    x: of_bits(0),
                    y: of_bits(TEE_LINE_FAR_BITS),
                })
                &&& final(state).called_angle_deg == of_bits(0)
                &&& final(state).called_weight == of_bits(DRAW_WEIGHT_BITS)
                &&& final(state).aim_angle_deg == of_bits(0)
                &&& final(state).aim_weight == of_bits(DRAW_WEIGHT_BITS)
                &&& final(state).pending_end_score == old(state).pending_end_score
                &&& final(state).scoring_entities@ == old(state).scoring_entities@
            }
        },
{
    if state.phase != Phase::Resolve {
        return ResolveActions {
            resolved: false,
            remove_thrown: None,
            restore_guards: Vec::new(),
            release_marker: None,
            end_complete: false,
        };
    }
    let thrown = state.thrown_stone;
    let shooter = state.current_team();

    // Hog line rules for the thrown stone.
    let mut remove = false;
    if thrown.is_some() {
        if let Some(marker) = throw_marker {
            if apply_hog_line_rules(marker) {
                remove = true;
            }
        }
    }

    // Free Guard Zone rule.
    let restore = match &state.snapshot {
        Some(snapshot) => apply_fgz_rules(snapshot, stones, shooter),
        None => Vec::new(),
    };
    if restore.len() > 0 {
        remove = true;
    }

    state.thrown_stone = None;
    state.snapshot = None;
    state.still_time = Scalar { bits: 0 };
    state.shot_index = if state.shot_index == 255 {
        255
    } else {
        state.shot_index + 1
    };

    let end_complete = state.shot_index >= TOTAL_SHOTS;
    if end_complete {
        let (team1_points, team2_points, entities) = calculate_end_score(stones);
        state.pending_end_score = Some((team1_points, team2_points));
        state.scoring_entities = entities;
        state.phase = Phase::ShowingScore;
    } else {
        reset_for_next_shot(state);
    }

    ResolveActions {
        resolved: true,
        remove_thrown: if remove {
            thrown
        } else {
            None
        },
        restore_guards: restore,
        release_marker: thrown,
        end_complete,
    }
}

// ============================================================================
// STONES IN MOTION
// ============================================================================

/// Speed below which a stone counts as still (0.02).
pub const STOP_SPEED_BITS: u32 = 0x3ca3_d70a;

/// Seconds every stone must stay still before the shot is resolved (0.5).
pub const STOP_HOLD_BITS: u32 = 0x3f00_0000;

/// The stone is outside the sheet.
pub open spec fn off_sheet(s: StoneOnIce) -> bool {
    out_of_bounds(s.position)
}

/// The stones that have left the sheet and come off the ice, in order.
pub fn check_out_of_bounds(stones: &Vec<StoneOnIce>) -> (r: Vec<u64>)
    ensures
        r@ == entity_ids(stones@.filter(|s: StoneOnIce| off_sheet(s))),
{
    let ghost pred = |s: StoneOnIce| off_sheet(s);
    let mut removed: Vec<u64> = Vec::new();
    let mut i: usize = 0;
    while i < stones.len()
        invariant
            i <= stones.len(),
            pred == (|s: StoneOnIce| off_sheet(s)),
            removed@ == entity_ids(stones@.take(i as int).filter(pred)),
        decreases stones.len() - i,
    {
        let s = stones[i];
        proof {
            reveal_with_fuel(Seq::<_>::filter, 1);
            assert(stones@.take(i + 1).drop_last() =~= stones@.take(i as int));
        }
        let ghost before = stones@.take(i as int).filter(pred);
        if is_out_of_bounds(s.position) {
            removed.push(s.entity);
            proof {
                assert(stones@.take(i + 1).filter(pred) == before.push(s));
                assert(entity_ids(before.push(s)) =~= entity_ids(before).push(s.entity));
            }
        }
        i = i + 1;
    }
    proof {
        assert(stones@.take(stones@.len() as int) =~= stones@);
    }
    removed
}

/// A collision that starts between `e1` and `e2`: when one of them is a
/// stone being delivered (among `throwing`, checked for `e1` first) and the
/// other is a stone (among `stones`), the delivered stone records the hit.
/// Returns the stone that records it.
pub fn collision_hit(e1: u64, e2: u64, throwing: &Vec<u64>, stones: &Vec<u64>) -> (r: Option<u64>)
    ensures
        r == (if throwing@.contains(e1) {
            if stones@.contains(e2) {
                Some(e1)
            } else {
                None
            }
        } else if throwing@.contains(e2) {
            if stones@.contains(e1) {
                Some(e2)
            } else {
                None
            }
        } else {
            None
        }),
{
    let (thrown, other) = if contains_entity(throwing, e1) {
        (e1, e2)
    } else if contains_entity(throwing, e2) {
        (e2, e1)
    } else {
        return None;
    };
    if contains_entity(stones, other) {
        Some(thrown)
    } else {
        None
    }
}

/// No stone moves faster than the stop speed.
pub open spec fn all_still(speeds: Seq<Scalar>) -> bool {
    forall|i: int| 0 <= i < speeds.len() ==> !real_lt(of_bits(STOP_SPEED_BITS), #[trigger] speeds[i])
}

/// Whether every stone is still, given the stones' speeds.
pub fn stones_still(speeds: &Vec<Scalar>) -> (r: bool)
    ensures
        r == all_still(speeds@),
{
    let stop = Scalar { bits: STOP_SPEED_BITS };
    let mut i: usize = 0;
    while i < speeds.len()
        invariant
            i <= speeds.len(),
            stop == of_bits(STOP_SPEED_BITS),
            forall|j: int| 0 <= j < i ==> !real_lt(of_bits(STOP_SPEED_BITS), #[trigger] speeds@[j]),
        decreases speeds.len() - i,
    {
        if speeds[i].gt(stop) {
            return false;
        }
        i = i + 1;
    }
    true
}

/// One step of waiting for the stones to stop while they move: when every
/// stone is still the still time becomes `still_time_after` (the still time
/// plus the step, added by the caller) and once that passes the hold time
/// the shot is resolved; when a stone moves the still time restarts at
/// zero.  In other phases nothing changes.  Returns whether the shot is now
/// to be resolved.
pub fn detect_shot_end(state: &mut GameState, speeds: &Vec<Scalar>, still_time_after: Scalar) -> (resolve: bool)
    ensures
        phase_follows(old(state).phase, final(state).phase),
        old(state).phase != Phase::StoneMoving ==> !resolve && *final(state) == *old(state),
        old(state).phase == Phase::StoneMoving ==> {
            if all_still(speeds@) {
                &&& resolve == real_lt(of_bits(STOP_HOLD_BITS), still_time_after)
                &&& *final(state) == (GameState {
                    still_time: still_time_after,
                    phase: if resolve { Phase::Resolve } else { Phase::StoneMoving },
                    ..*old(state)
                })
            } else {
                &&& !resolve
                &&& *final(state) == (GameState { still_time: of_bits(0), ..*old(state) })
            }
        },
{
    if state.phase != Phase::StoneMoving {
        return false;
    }
    if stones_still(speeds) {
        state.still_time = still_time_after;
        if still_time_after.gt(Scalar { bits: STOP_HOLD_BITS }) {
            state.phase = Phase::Resolve;
            return true;
        }
        false
    } else {
        state.still_time = Scalar { bits: 0 };
        false
    }
}

// ============================================================================
// END OF AN END
// ============================================================================

/// Team 1's points over a history of ends.
pub open spec fn history_total_one(h: Seq<(u32, u32)>) -> int
    decreases h.len(),
{
    if h.len() == 0 {
        0
    } else {
        history_total_one(h.drop_last()) + h.last().0
    }
}

/// Team 2's points over a history of ends.
pub open spec fn history_total_two(h: Seq<(u32, u32)>) -> int
    decreases h.len(),
{
    if h.len() == 0 {
        0
    } else {
        history_total_two(h.drop_last()) + h.last().1
    }
}

/// The totals are the sums of the recorded ends.
pub open spec fn totals_match_history(s: GameState) -> bool {
    &&& s.team1_score == history_total_one(s.end_scores@)
    &&& s.team2_score == history_total_two(s.end_scores@)
}

/// What the caller must do after the players confirm an end's score.
#[derive(Clone, Copy, PartialEq, Eq, Debug, Structural)]
pub enum EndTransition {
    /// Nothing happened (no score was being shown or it was not confirmed).
    Unchanged,
    /// Clear the ice; the next end starts.
    NextEnd,
    /// The game is over; the stones stay on the ice.
    GameOver,
}

/// Confirms the end's score shown to the players: the points are added to
/// the totals and recorded, the team that scored throws first next end (a
/// blank end keeps the order), and the game moves to the next end or ends.
pub fn handle_score_confirmation(state: &mut GameState, confirmed: bool) -> (r: EndTransition)
    requires
        old(state).phase == Phase::ShowingScore && confirmed ==> {
            &&& old(state).current_end < 255
            &&& old(state).pending_end_score matches Some(p) ==> old(state).team1_score + p.0
                <= u32::MAX && old(state).team2_score + p.1 <= u32::MAX
        },
    ensures
        phase_follows(old(state).phase, final(state).phase),
        !(old(state).phase == Phase::ShowingScore && confirmed) ==> r == EndTransition::Unchanged
            && *final(state) == *old(state),
        old(state).phase == Phase::ShowingScore && confirmed ==> {
            &&& final(state).pending_end_score is None
            &&& final(state).scoring_entities@.len() == 0
            &&& final(state).current_end == old(state).current_end + 1
            &&& final(state).total_ends == old(state).total_ends
            &&& final(state).ai_team == old(state).ai_team
            &&& final(state).ai_vs_ai == old(state).ai_vs_ai
            &&& (match old(state).pending_end_score {
                Some(p) => {
                    &&& final(state).team1_score == old(state).team1_score + p.0
                    &&& final(state).team2_score == old(state).team2_score + p.1
                    &&& final(state).end_scores@ == old(state).end_scores@.push(p)
                    &&& final(state).first_throw_team == next_first_throw(
                        p.0,
                        p.1,
                        old(state).first_throw_team,
                    )
                },
                None => {
                    &&& final(state).team1_score == old(state).team1_score
                    &&& final(state).team2_score == old(state).team2_score
                    &&& final(state).end_scores@ == old(state).end_scores@
                    &&& final(state).first_throw_team == old(state).first_throw_team
                },
            })
            &&& totals_match_history(*old(state)) ==> totals_match_history(*final(state))
            &&& if old(state).current_end + 1 > old(state).total_ends {
                &&& r == EndTransition::GameOver
                &&& *final(state) == (GameState {
                    phase: Phase::Ended,
                    current_end: final(state).current_end,
                    team1_score: final(state).team1_score,
                    team2_score: final(state).team2_score,
                    first_throw_team: final(state).first_throw_team,
                    pending_end_score: None,
                    scoring_entities: final(state).scoring_entities,
                    end_scores: final(state).end_scores,
                    ..*old(state)
                })
            } else {
                &&& r == EndTransition::NextEnd
                &&& final(state).fresh_shot_fields()
                &&& final(state).shot_index == 0
                &&& final(state).ai_think_timer == old(state).ai_think_timer
            }
        },
{
    if state.phase != Phase::ShowingScore || !confirmed {
        return EndTransition::Unchanged;
    }
    let ghost before = state.end_scores@;
    if let Some((team1_points, team2_points)) = state.pending_end_score {
        state.pending_end_score = None;
        state.end_scores.push((team1_points, team2_points));
        proof {
            assert(state.end_scores@.drop_last() =~= before);
        }
        state.team1_score = state.team1_score + team1_points;
        state.team2_score = state.team2_score + team2_points;
        if team1_points > 0 {
            state.first_throw_team = Team::One;
        } else if team2_points > 0 {
            state.first_throw_team = Team::Two;
        }
    }
    state.scoring_entities.clear();
    state.current_end = state.current_end + 1;
    if state.current_end > state.total_ends {
        state.phase = Phase::Ended;
        EndTransition::GameOver
    } else {
        state.reset_for_new_end();
        EndTransition::NextEnd
    }
}

/// Recording ends keeps the totals equal to the sums of the recorded ends:
/// a new game starts consistent, and confirming a score adds the same points
/// to the total and to the history.
pub proof fn law_totals_follow_history(h: Seq<(u32, u32)>, p: (u32, u32))
    ensures
        history_total_one(Seq::<(u32, u32)>::empty()) == 0,
        history_total_two(Seq::<(u32, u32)>::empty()) == 0,
        history_total_one(h.push(p)) == history_total_one(h) + p.0,
        history_total_two(h.push(p)) == history_total_two(h) + p.1,
{
    assert(h.push(p).drop_last() =~= h);
}

// ============================================================================
// START OF A GAME
// ============================================================================

/// The team a coin gives the first stone: Team 1 on heads (`true`), Team 2
/// on tails.
pub open spec fn team_for_coin(coin: bool) -> Team {
    if coin {
        Team::One
    } else {
        Team::Two
    }
}

/// The team a coin gives the first stone.
pub fn first_team_for_coin(coin: bool) -> (t: Team)
    ensures
        t == team_for_coin(coin),
{
    if coin {
        Team::One
    } else {
        Team::Two
    }
}

/// Draws which team throws first (the other has the hammer) with a fair
/// coin, and returns the coin: the first team is the coin's team
/// (`team_for_coin`); nothing else changes.
pub fn randomize_first_team(state: &mut GameState) -> (coin: bool)
    ensures
        *final(state) == (GameState { first_throw_team: team_for_coin(coin), ..*old(state) }),
{
    let coin = random_bool();
    state.first_throw_team = first_team_for_coin(coin);
    coin
}

// ============================================================================
// DEBUG SHORTCUTS
// ============================================================================

/// The made-up scores of ends 1 to 7 used to jump to the last end.
pub open spec fn sample_end_scores() -> Seq<(u32, u32)> {
    seq![(2u32, 0u32), (0, 1), (0, 3), (1, 0), (0, 2), (3, 0), (0, 1)]
}

/// Jumps to end 8 while a shot is called: seven made-up ends are recorded
/// (Team 1 6, Team 2 7 in total) and the totals follow them.  Returns
/// whether it jumped; in other phases nothing changes.
pub fn handle_debug_skip_to_8th(state: &mut GameState) -> (jumped: bool)
    ensures
        jumped == (old(state).phase == Phase::CallingShot),
        jumped ==> {
            &&& final(state).current_end == 8
            &&& final(state).end_scores@ == sample_end_scores()
            &&& final(state).team1_score == 6
            &&& final(state).team2_score == 7
            &&& totals_match_history(*final(state))
            &&& *final(state) == (GameState {
                current_end: 8,
                end_scores: final(state).end_scores,
                team1_score: 6,
                team2_score: 7,
                ..*old(state)
            })
        },
        !jumped ==> *final(state) == *old(state),
{
    if state.phase != Phase::CallingShot {
        return false;
    }
    state.current_end = 8;
    state.end_scores.clear();
    state.team1_score = 0;
    state.team2_score = 0;
    let scores: [(u32, u32); 7] = [(2, 0), (0, 1), (0, 3), (1, 0), (0, 2), (3, 0), (0, 1)];
    let mut i: usize = 0;
    while i < 7
        invariant
            i <= 7,
            scores@ == sample_end_scores(),
            state.end_scores@ == sample_end_scores().take(i as int),
            state.team1_score == history_total_one(sample_end_scores().take(i as int)),
            state.team2_score == history_total_two(sample_end_scores().take(i as int)),
            state.team1_score <= 6,
            state.team2_score <= 7,
            state.current_end == 8,
            state.phase == Phase::CallingShot,
            *state == (GameState {
                current_end: 8,
                end_scores: state.end_scores,
                team1_score: state.team1_score,
                team2_score: state.team2_score,
                ..*old(state)
            }),
        decreases 7 - i,
    {
        let (t1, t2) = scores[i];
        proof {
            assert(sample_end_scores().take(i + 1).drop_last() =~= sample_end_scores().take(i as int));
            reveal_with_fuel(history_total_one, 8);
            reveal_with_fuel(history_total_two, 8);
            assert(history_total_one(sample_end_scores()) == 6);
            assert(history_total_two(sample_end_scores()) == 7);
        }
        state.end_scores.push((t1, t2));
        state.team1_score = state.team1_score + t1;
        state.team2_score = state.team2_score + t2;
        i = i + 1;
    }
    proof {
        assert(sample_end_scores().take(7) =~= sample_end_scores());
        reveal_with_fuel(history_total_one, 8);
        reveal_with_fuel(history_total_two, 8);
    }
    true
}

/// Sets up the hammer throw after stones were placed while a shot is
/// called: shot 15, still calling.  Returns whether it did; in other phases
/// nothing changes.
pub fn handle_debug_quick_sim(state: &mut GameState) -> (done: bool)
    ensures
        done == (old(state).phase == Phase::CallingShot),
        done ==> *final(state) == (GameState { shot_index: 15, ..*old(state) }),
        !done ==> *final(state) == *old(state),
{
    if state.phase != Phase::CallingShot {
        return false;
    }
    state.shot_index = 15;
    true
}

/// The teams of the fifteen stones placed for the hammer throw: shot `i` is
/// thrown by the team that throws shot `i` of the end.
pub fn debug_quick_sim_teams(first_throw_team: Team) -> (r: Vec<Team>)
    ensures
        r@.len() == 15,
        forall|i: int| 0 <= i < 15 ==> #[trigger] r@[i] == thrower(first_throw_team, i),
{
    let mut teams: Vec<Team> = Vec::new();
    let mut i: u8 = 0;
    while i < 15
        invariant
            i <= 15,
            teams@.len() == i,
            forall|j: int| 0 <= j < i ==> #[trigger] teams@[j] == thrower(first_throw_team, j),
        decreases 15 - i,
    {
        let team = if i % 2 == 0 {
            first_throw_team
        } else {
            first_throw_team.opponent()
        };
        teams.push(team);
        i = i + 1;
    }
    teams
}

} // verus!
