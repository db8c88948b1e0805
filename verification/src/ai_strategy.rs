//! How the computer opponent reads the house and picks its shot.
use vstd::prelude::*;

use crate::components::{other_team, CurlDirection, Phase, ShotType, Team};
use crate::constants::{
    FGZ_SHOTS, HOG_LINE_FAR_BITS, HOUSE_RADIUS_12_BITS, TARGET_BACK_BITS, TARGET_HALF_WIDTH_BITS,
};
use crate::helpers::biting;
use crate::random::random_bool;
use crate::resources::{thrower, GameState, ShotSnapshot, StoneOnIce};
use crate::scalar::{clamped, negated, of_bits, real_le, real_lt, Position, Scalar};

verus! {

// ============================================================================
// BOARD ANALYSIS
// ============================================================================

/// A stone of `team` that bites the house.
pub open spec fn candidate(s: StoneOnIce, team: Team) -> bool {
    s.team == team && biting(s)
}

/// Stone `k` is the first of the team's biting stones at the smallest
/// distance from the tee.
pub open spec fn is_first_closest(stones: Seq<StoneOnIce>, team: Team, k: int) -> bool {
    &&& 0 <= k < stones.len()
    &&& candidate(stones[k], team)
    &&& forall|j: int|
        #![trigger stones[j]]
        0 <= j < stones.len() && candidate(stones[j], team) ==> real_le(
            stones[k].dist_to_tee,
            stones[j].dist_to_tee,
        )
    &&& forall|j: int|
        #![trigger stones[j]]
        0 <= j < k && candidate(stones[j], team) ==> real_lt(
            stones[k].dist_to_tee,
            stones[j].dist_to_tee,
        )
}

/// The team's closest biting stone (position and distance), the first one
/// in order when several are equally close; `None` when none bites.
pub open spec fn closest_to_tee(stones: Seq<StoneOnIce>, team: Team) -> Option<(Position, Scalar)> {
    if exists|k: int| is_first_closest(stones, team, k) {
        let k = choose|k: int| is_first_closest(stones, team, k);
        Some((stones[k].position, stones[k].dist_to_tee))
    } else {
        None
    }
}

/// At most one stone is the first closest.
pub proof fn lemma_first_closest_unique(stones: Seq<StoneOnIce>, team: Team, a: int, b: int)
    requires
        is_first_closest(stones, team, a),
        is_first_closest(stones, team, b),
    ensures
        a == b,
{
    if a < b {
        assert(real_lt(stones[b].dist_to_tee, stones[a].dist_to_tee));
        assert(real_le(stones[a].dist_to_tee, stones[b].dist_to_tee));
    } else if b < a {
        assert(real_lt(stones[a].dist_to_tee, stones[b].dist_to_tee));
        assert(real_le(stones[b].dist_to_tee, stones[a].dist_to_tee));
    }
}

/// Among the first `n` stones, when one of them is a biting stone of `team`,
/// some stone `k` is the first of them at the smallest distance.
proof fn lemma_first_closest_within(stones: Seq<StoneOnIce>, team: Team, n: int) -> (k: int)
    requires
        0 <= n <= stones.len(),
        exists|j: int| #![trigger stones[j]] 0 <= j < n && candidate(stones[j], team),
    ensures
        0 <= k < n,
        candidate(stones[k], team),
        forall|j: int|
            #![trigger stones[j]]
            0 <= j < n && candidate(stones[j], team) ==> real_le(
                stones[k].dist_to_tee,
                stones[j].dist_to_tee,
            ),
        forall|j: int|
            #![trigger stones[j]]
            0 <= j < k && candidate(stones[j], team) ==> real_lt(
                stones[k].dist_to_tee,
                stones[j].dist_to_tee,
            ),
    decreases n,
{
    let last = n - 1;
    if exists|j: int| #![trigger stones[j]] 0 <= j < last && candidate(stones[j], team) {
        let k0 = lemma_first_closest_within(stones, team, last);
        if candidate(stones[last], team) && real_lt(
            stones[last].dist_to_tee,
            stones[k0].dist_to_tee,
        ) {
            last
        } else {
            if candidate(stones[last], team) {
                assert(real_le(stones[k0].dist_to_tee, stones[last].dist_to_tee));
            }
            k0
        }
    } else {
        let w = choose|j: int| #![trigger stones[j]] 0 <= j < n && candidate(stones[j], team);
        assert(w == last);
        last
    }
}

/// A team with a stone biting the house has a first closest stone.
proof fn lemma_first_closest_exists(stones: Seq<StoneOnIce>, team: Team, i: int)
    requires
        0 <= i < stones.len(),
        candidate(stones[i], team),
    ensures
        exists|k: int| is_first_closest(stones, team, k),
{
    let k = lemma_first_closest_within(stones, team, stones.len() as int);
    assert(is_first_closest(stones, team, k));
}

/// The closest stone of `team` that bites the house, with its distance.
pub fn find_closest_to_tee(stones: &Vec<StoneOnIce>, team: Team) -> (r: Option<(Position, Scalar)>)
    ensures
        r == closest_to_tee(stones@, team),
        r is None <==> (forall|j: int|
            #![trigger stones@[j]]
            0 <= j < stones@.len() ==> !candidate(stones@[j], team)),
{
    let limit = Scalar { bits: crate::constants::BITING_DISTANCE_BITS };
    let mut best: Option<usize> = None;
    let mut i: usize = 0;
    while i < stones.len()
        invariant
            i <= stones.len(),
            limit == of_bits(crate::constants::BITING_DISTANCE_BITS),
            best is None <==> (forall|j: int|
                #![trigger stones@[j]]
                0 <= j < i ==> !candidate(stones@[j], team)),
            best matches Some(k) ==> k < i && is_first_closest(stones@.take(i as int), team, k as int),
        decreases stones.len() - i,
    {
        let s = stones[i];
        let ghost prefix = stones@.take(i as int);
        let ghost next = stones@.take(i + 1);
        proof {
            assert forall|j: int| 0 <= j < i implies next[j] == prefix[j] by {}
        }
        if s.team == team && s.dist_to_tee.le(limit) {
            match best {
                None => {
                    best = Some(i);
                },
                Some(k) => {
                    if s.dist_to_tee.lt(stones[k].dist_to_tee) {
                        best = Some(i);
                    }
                },
            }
        }
        proof {
            if let Some(k) = best {
                assert(next[k as int] == stones@[k as int]);
                assert(next[i as int] == stones@[i as int]);
                assert forall|j: int|
                    #![trigger next[j]]
                    0 <= j < next.len() && candidate(next[j], team) implies real_le(
                    next[k as int].dist_to_tee,
                    next[j].dist_to_tee,
                ) by {
                    if j < i {
                        assert(prefix[j] == next[j]);
                    }
                }
                assert forall|j: int|
                    #![trigger next[j]]
                    0 <= j < k && candidate(next[j], team) implies real_lt(
                    next[k as int].dist_to_tee,
                    next[j].dist_to_tee,
                ) by {
                    assert(prefix[j] == next[j]);
                }
            }
        }
        i = i + 1;
    }
    proof {
        assert(stones@.take(stones@.len() as int) =~= stones@);
    }
    match best {
        None => {
            proof {
                if exists|k: int| is_first_closest(stones@, team, k) {
                    let k = choose|k: int| is_first_closest(stones@, team, k);
                    assert(candidate(stones@[k], team));
                }
            }
            None
        },
        Some(k) => {
            proof {
                let c = choose|c: int| is_first_closest(stones@, team, c);
                lemma_first_closest_unique(stones@, team, c, k as int);
            }
            Some((stones[k].position, stones[k].dist_to_tee))
        },
    }
}

/// Result of reading the house for the computer player.
#[derive(Clone, Copy, Debug)]
pub struct BoardAnalysis {
    /// Our closest biting stone (position, distance to the tee).
    pub our_closest: Option<(Position, Scalar)>,
    /// The opponent's closest biting stone.
    pub their_closest: Option<(Position, Scalar)>,
    /// We hold shot rock (the closest stone).
    pub we_have_shot: bool,
    /// No stone bites the house.
    pub house_empty: bool,
}

/// Whether we hold shot rock given both teams' closest stones: ours is
/// strictly closer, or only we have a stone in the house.
pub open spec fn holds_shot(ours: Option<(Position, Scalar)>, theirs: Option<(Position, Scalar)>) -> bool {
    match (ours, theirs) {
        (Some(o), Some(t)) => real_lt(o.1, t.1),
        (Some(_), None) => true,
        _ => false,
    }
}

/// The analysis of `stones` for `ai_team`.
pub open spec fn analysis_of(stones: Seq<StoneOnIce>, ai_team: Team) -> BoardAnalysis {
    let ours = closest_to_tee(stones, ai_team);
    let theirs = closest_to_tee(stones, other_team(ai_team));
    BoardAnalysis {
        our_closest: ours,
        their_closest: theirs,
        we_have_shot: holds_shot(ours, theirs),
        house_empty: ours is None && theirs is None,
    }
}

/// The computer holds shot rock exactly when one of its biting stones is
/// strictly closer to the tee than every biting stone of the opponent (so
/// always when it has a biting stone and the opponent has none), and the
/// house is empty exactly when no stone of either team bites it.
pub proof fn law_shot_rock(stones: Seq<StoneOnIce>, ai_team: Team)
    ensures
        analysis_of(stones, ai_team).we_have_shot <==> exists|i: int|
            #![trigger stones[i]]
            0 <= i < stones.len() && candidate(stones[i], ai_team) && forall|j: int|
                #![trigger stones[j]]
                0 <= j < stones.len() && candidate(stones[j], other_team(ai_team)) ==> real_lt(
                    stones[i].dist_to_tee,
                    stones[j].dist_to_tee,
                ),
        analysis_of(stones, ai_team).house_empty <==> forall|j: int|
            #![trigger stones[j]]
            0 <= j < stones.len() ==> !candidate(stones[j], ai_team) && !candidate(
                stones[j],
                other_team(ai_team),
            ),
        analysis_of(stones, ai_team).our_closest is None <==> forall|j: int|
            #![trigger stones[j]]
            0 <= j < stones.len() ==> !candidate(stones[j], ai_team),
        analysis_of(stones, ai_team).their_closest is None <==> forall|j: int|
            #![trigger stones[j]]
            0 <= j < stones.len() ==> !candidate(stones[j], other_team(ai_team)),
{
    let us = ai_team;
    let them = other_team(ai_team);
    let a = analysis_of(stones, ai_team);
    if exists|i: int| #![trigger stones[i]] 0 <= i < stones.len() && candidate(stones[i], us) {
        let i = choose|i: int| #![trigger stones[i]] 0 <= i < stones.len() && candidate(stones[i], us);
        lemma_first_closest_exists(stones, us, i);
    }
    if exists|i: int| #![trigger stones[i]] 0 <= i < stones.len() && candidate(stones[i], them) {
        let i = choose|i: int| #![trigger stones[i]] 0 <= i < stones.len() && candidate(stones[i], them);
        lemma_first_closest_exists(stones, them, i);
    }
    if exists|k: int| is_first_closest(stones, us, k) {
        let k = choose|k: int| is_first_closest(stones, us, k);
        assert(candidate(stones[k], us));
    }
    if exists|k: int| is_first_closest(stones, them, k) {
        let m = choose|k: int| is_first_closest(stones, them, k);
        assert(candidate(stones[m], them));
    }
    if a.we_have_shot {
        let k = choose|k: int| is_first_closest(stones, us, k);
        assert(stones[k] == stones[k]);
        if exists|m: int| is_first_closest(stones, them, m) {
            let m = choose|m: int| is_first_closest(stones, them, m);
            assert forall|j: int|
                #![trigger stones[j]]
                0 <= j < stones.len() && candidate(stones[j], them) implies real_lt(
                stones[k].dist_to_tee,
                stones[j].dist_to_tee,
            ) by {
                assert(real_le(stones[m].dist_to_tee, stones[j].dist_to_tee));
            }
        }
    } else {
        assert forall|i: int|
            #![trigger stones[i]]
            0 <= i < stones.len() && candidate(stones[i], us) implies !(forall|j: int|
            #![trigger stones[j]]
            0 <= j < stones.len() && candidate(stones[j], them) ==> real_lt(
                stones[i].dist_to_tee,
                stones[j].dist_to_tee,
            )) by {
            let k = choose|k: int| is_first_closest(stones, us, k);
            let m = choose|m: int| is_first_closest(stones, them, m);
            assert(real_le(stones[k].dist_to_tee, stones[i].dist_to_tee));
            assert(stones[m] == stones[m]);
        }
    }
}

/// Reads the house: both teams' closest stones, who holds shot rock, and
/// whether the house is empty.
pub fn analyze_board(stones: &Vec<StoneOnIce>, ai_team: Team) -> (r: BoardAnalysis)
    ensures
        r == analysis_of(stones@, ai_team),
        r.we_have_shot <==> exists|i: int|
            #![trigger stones@[i]]
            0 <= i < stones@.len() && candidate(stones@[i], ai_team) && forall|j: int|
                #![trigger stones@[j]]
                0 <= j < stones@.len() && candidate(stones@[j], other_team(ai_team))
                    ==> real_lt(stones@[i].dist_to_tee, stones@[j].dist_to_tee),
        r.house_empty <==> forall|j: int|
            #![trigger stones@[j]]
            0 <= j < stones@.len() ==> !candidate(stones@[j], ai_team) && !candidate(
                stones@[j],
                other_team(ai_team),
            ),
{
    proof {
        law_shot_rock(stones@, ai_team);
    }
    let our_closest = find_closest_to_tee(stones, ai_team);
    let their_closest = find_closest_to_tee(stones, ai_team.opponent());
    let we_have_shot = match (our_closest, their_closest) {
        (Some(ours), Some(theirs)) => ours.1.lt(theirs.1),
        (Some(_), None) => true,
        _ => false,
    };
    BoardAnalysis {
        our_closest,
        their_closest,
        we_have_shot,
        house_empty: our_closest.is_none() && their_closest.is_none(),
    }
}

// ============================================================================
// SHOT SELECTION
// ============================================================================

/// The stone is farther from the tee than the 12-foot ring.
pub open spec fn outside_house(stone: Option<(Position, Scalar)>) -> bool {
    match stone {
        Some(s) => real_lt(of_bits(HOUSE_RADIUS_12_BITS), s.1),
        None => false,
    }
}

/// The shot the computer plays.  `conservative_guard` is the coin that picks
/// a guard (true) or a freeze (false) when protecting shot rock.
pub open spec fn shot_choice(
    a: BoardAnalysis,
    score_diff: i32,
    shot_index: u8,
    make_mistake: bool,
    conservative_guard: bool,
) -> ShotType {
    if a.house_empty {
        ShotType::Draw
    } else if !a.we_have_shot && a.their_closest is Some {
        // During the Free Guard Zone shots an opponent guard outside the house
        // is answered with a guard rather than a takeout.
        if shot_index < FGZ_SHOTS && outside_house(a.their_closest)
            && !make_mistake {
            ShotType::Guard
        } else {
            ShotType::Takeout
        }
    } else if a.we_have_shot {
        if make_mistake {
            ShotType::Draw
        } else if score_diff >= 0 {
            if conservative_guard {
                ShotType::Guard
            } else {
                ShotType::Freeze
            }
        } else {
            ShotType::Draw
        }
    } else {
        ShotType::Draw
    }
}

/// Picks the shot type: draw to an empty house; take out the opponent's shot
/// rock (or guard against an early guard); protect our shot rock with a guard
/// or freeze when ahead or level, or draw when behind; a mistake turns
/// protection into a risky draw and an early guard into a takeout.
pub fn select_shot_type(
    analysis: &BoardAnalysis,
    score_diff: i32,
    shot_index: u8,
    make_mistake: bool,
    conservative_guard: bool,
) -> (r: ShotType)
    ensures
        r == shot_choice(*analysis, score_diff, shot_index, make_mistake, conservative_guard),
        (!analysis.house_empty && !analysis.we_have_shot && (analysis.their_closest matches Some(
            t,
        ) && !real_lt(of_bits(HOUSE_RADIUS_12_BITS), t.1))) ==> r == ShotType::Takeout,
        r == ShotType::Guard ==> (analysis.we_have_shot && !make_mistake && score_diff >= 0
            && conservative_guard) || (!analysis.we_have_shot && shot_index < FGZ_SHOTS
            && !make_mistake && (analysis.their_closest matches Some(t) && real_lt(
            of_bits(HOUSE_RADIUS_12_BITS),
            t.1,
        ))),
{
    proof {
        law_guard_only_against_outside_stone(
            *analysis,
            score_diff,
            shot_index,
            make_mistake,
            conservative_guard,
        );
    }
    let early_game = shot_index < FGZ_SHOTS;
    if analysis.house_empty {
        return ShotType::Draw;
    }
    if !analysis.we_have_shot {
        if let Some((_, their_dist)) = analysis.their_closest {
            if early_game && their_dist.gt(Scalar { bits: HOUSE_RADIUS_12_BITS }) && !make_mistake {
                return ShotType::Guard;
            }
            return ShotType::Takeout;
        }
    }
    if analysis.we_have_shot {
        if make_mistake {
            return ShotType::Draw;
        }
        if score_diff >= 0 {
            if conservative_guard {
                return ShotType::Guard;
            } else {
                return ShotType::Freeze;
            }
        } else {
            return ShotType::Draw;
        }
    }
    ShotType::Draw
}

/// An opponent's shot rock on or inside the 12-foot ring is always taken out,
/// whatever the shot number and the score; a guard is chosen only to protect
/// our own shot rock (level or ahead, no mistake, the coin asking for a guard)
/// or, during the Free Guard Zone shots, against an opponent's shot rock that
/// lies strictly outside the 12-foot ring.
pub proof fn law_guard_only_against_outside_stone(
    a: BoardAnalysis,
    score_diff: i32,
    shot_index: u8,
    make_mistake: bool,
    conservative_guard: bool,
)
    ensures
        (!a.house_empty && !a.we_have_shot && (a.their_closest matches Some(t) && !real_lt(
            of_bits(HOUSE_RADIUS_12_BITS),
            t.1,
        ))) ==> shot_choice(a, score_diff, shot_index, make_mistake, conservative_guard)
            == ShotType::Takeout,
        shot_choice(a, score_diff, shot_index, make_mistake, conservative_guard) == ShotType::Guard
            ==> (a.we_have_shot && !make_mistake && score_diff >= 0 && conservative_guard) || (
        !a.we_have_shot && shot_index < FGZ_SHOTS && !make_mistake && (a.their_closest matches Some(
            t,
        ) && real_lt(of_bits(HOUSE_RADIUS_12_BITS), t.1))),
{
}

// ============================================================================
// TARGET AND CURL
// ============================================================================

/// The target moved into the playing area: across the sheet between the
/// side limits, along it between the far hog line and the back limit.
pub open spec fn clamped_target(t: Position) -> Position {
    Position {
        x: clamped(t.x, negated(of_bits(TARGET_HALF_WIDTH_BITS)), of_bits(TARGET_HALF_WIDTH_BITS)),
        y: clamped(t.y, of_bits(HOG_LINE_FAR_BITS), of_bits(TARGET_BACK_BITS)),
    }
}

/// Clamps a target position to the playing area.
pub fn clamp_target_to_playing_area(target: Position) -> (r: Position)
    ensures
        r == clamped_target(target),
{
    let half_width = Scalar { bits: TARGET_HALF_WIDTH_BITS };
    let back_y = Scalar { bits: TARGET_BACK_BITS };
    let hog_y = Scalar { bits: HOG_LINE_FAR_BITS };
    Position { x: target.x.clamp(half_width.neg(), half_width), y: target.y.clamp(hog_y, back_y) }
}

/// A clamped target lies in the playing area (for non-NaN coordinates) and
/// clamping twice changes nothing.
pub proof fn law_clamped_target_in_area(t: Position)
    ensures
        !t.x.nan() ==> real_le(negated(of_bits(TARGET_HALF_WIDTH_BITS)), clamped_target(t).x)
            && real_le(clamped_target(t).x, of_bits(TARGET_HALF_WIDTH_BITS)),
        !t.y.nan() ==> real_le(of_bits(HOG_LINE_FAR_BITS), clamped_target(t).y) && real_le(
            clamped_target(t).y,
            of_bits(TARGET_BACK_BITS),
        ),
        clamped_target(clamped_target(t)) == clamped_target(t),
{
}

/// The curl that bends toward the centre line from a target at `x`: an
/// out-turn (curling right) left of centre, an in-turn otherwise.
pub open spec fn curl_toward_center(x: Scalar) -> CurlDirection {
    if real_lt(x, of_bits(0)) {
        CurlDirection::OutTurn
    } else {
        CurlDirection::InTurn
    }
}

/// Selects the curl direction that curves toward the centre line.
pub fn select_curl_toward_center(target_x: Scalar) -> (r: CurlDirection)
    ensures
        r == curl_toward_center(target_x),
{
    if target_x.lt(Scalar { bits: 0 }) {
        CurlDirection::OutTurn
    } else {
        CurlDirection::InTurn
    }
}

// ============================================================================
// COMPLETE DECISION
// ============================================================================

/// The computer's full decision: reads the house, picks the shot type
/// (flipping a coin between guard and freeze when protecting), asks
/// `target_for` where that shot should end up, clamps the target to the
/// playing area and picks the curl toward the centre.
pub fn decide_shot<F: Fn(ShotType, BoardAnalysis) -> Position>(
    stones: &Vec<StoneOnIce>,
    ai_team: Team,
    score_diff: i32,
    shot_index: u8,
    make_mistake: bool,
    target_for: F,
) -> (r: (Position, ShotType, CurlDirection))
    requires
        forall|t: ShotType, a: BoardAnalysis| target_for.requires((t, a)),
    ensures
        ({
            let a = analysis_of(stones@, ai_team);
            &&& (r.1 == shot_choice(a, score_diff, shot_index, make_mistake, true) || r.1
                == shot_choice(a, score_diff, shot_index, make_mistake, false))
            &&& exists|raw: Position|
                target_for.ensures((r.1, a), raw) && r.0 == clamped_target(raw)
            &&& r.2 == curl_toward_center(r.0.x)
        }),
{
    let analysis = analyze_board(stones, ai_team);
    let coin = random_bool();
    let shot_type = select_shot_type(&analysis, score_diff, shot_index, make_mistake, coin);
    let raw_target = target_for(shot_type, analysis);
    let target = clamp_target_to_playing_area(raw_target);
    let curl = select_curl_toward_center(target.x);
    (target, shot_type, curl)
}

// ============================================================================
// TURN HELPERS
// ============================================================================

/// Our total minus the opponent's, from the computer team's side.
pub fn calculate_score_diff(ai_team: Team, state: &GameState) -> (r: i32)
    requires
        state.team1_score <= i32::MAX,
        state.team2_score <= i32::MAX,
    ensures
        ai_team == Team::One ==> r == state.team1_score - state.team2_score,
        ai_team == Team::Two ==> r == state.team2_score - state.team1_score,
{
    let team1 = state.team1_score as i32;
    let team2 = state.team2_score as i32;
    match ai_team {
        Team::One => team1 - team2,
        Team::Two => team2 - team1,
    }
}

/// Hands Team 2 to the computer and restarts its thinking time.
pub fn setup_ai_game(state: &mut GameState)
    ensures
        *final(state) == (GameState {
            ai_team: Some(Team::Two),
            ai_think_timer: of_bits(0),
            ..*old(state)
        }),
{
    state.ai_team = Some(Team::Two);
    state.ai_think_timer = Scalar { bits: 0 };
}

/// Whether the human may play: always without a computer player, otherwise
/// only when the computer's team is not throwing.
pub fn run_if_human_turn(state: &GameState) -> (r: bool)
    ensures
        r == match state.ai_team {
            Some(t) => crate::resources::thrower(state.first_throw_team, state.shot_index as int)
                != t,
            None => true,
        },
{
    match state.ai_team {
        Some(ai_team) => state.current_team() != ai_team,
        None => true,
    }
}

// ============================================================================
// BROOM SEARCH
// ============================================================================

/// The largest finite `f32` (`f32::MAX`), the distance the search starts from.
pub const FLOAT_MAX_BITS: u32 = 0x7f7f_ffff;

/// Candidate `k` is the search's pick: its distance is below `f32::MAX`,
/// every earlier distance is NaN or strictly larger, and no later distance
/// is strictly smaller (the first of the smallest distances).
pub open spec fn is_search_pick(distances: Seq<Scalar>, k: int) -> bool {
    &&& 0 <= k < distances.len()
    &&& real_lt(distances[k], of_bits(FLOAT_MAX_BITS))
    &&& forall|j: int| 0 <= j < k ==> !real_le(#[trigger] distances[j], distances[k])
    &&& forall|j: int| k < j < distances.len() ==> !real_lt(#[trigger] distances[j], distances[k])
}

/// The broom position among the candidates whose predicted landing is
/// closest to the target (`distances[i]` for `candidates[i]`, computed by
/// the caller): a candidate replaces the best so far only when strictly
/// closer, starting from `f32::MAX`; the target itself when no candidate
/// comes below that.
pub fn closest_candidate(candidates: &Vec<Position>, distances: &Vec<Scalar>, target: Position) -> (r: Position)
    requires
        candidates@.len() == distances@.len(),
    ensures
        (exists|k: int| #[trigger] is_search_pick(distances@, k) && r == candidates@[k]) || (r
            == target && forall|j: int|
            0 <= j < distances@.len() ==> !real_lt(#[trigger] distances@[j], of_bits(FLOAT_MAX_BITS))),
{
    let mut best = target;
    let mut best_distance = Scalar { bits: FLOAT_MAX_BITS };
    let ghost mut best_index: Option<int> = None;
    let mut i: usize = 0;
    while i < distances.len()
        invariant
            i <= distances.len(),
            candidates@.len() == distances@.len(),
            match best_index {
                None => {
                    &&& best == target
                    &&& best_distance == of_bits(FLOAT_MAX_BITS)
                    &&& forall|j: int|
                        0 <= j < i ==> !real_lt(#[trigger] distances@[j], of_bits(FLOAT_MAX_BITS))
                },
                Some(k) => {
                    &&& 0 <= k < i
                    &&& best == candidates@[k]
                    &&& best_distance == distances@[k]
                    &&& real_lt(distances@[k], of_bits(FLOAT_MAX_BITS))
                    &&& forall|j: int| 0 <= j < k ==> !real_le(#[trigger] distances@[j], distances@[k])
                    &&& forall|j: int| k < j < i ==> !real_lt(#[trigger] distances@[j], distances@[k])
                },
            },
        decreases distances.len() - i,
    {
        let d = distances[i];
        if d.lt(best_distance) {
            best = candidates[i];
            best_distance = d;
            proof {
                best_index = Some(i as int);
            }
        }
        i = i + 1;
    }
    proof {
        if let Some(k) = best_index {
            assert(is_search_pick(distances@, k));
        }
    }
    best
}

// ============================================================================
// THE COMPUTER'S TURN
// ============================================================================

/// Whether the computer acts this frame: it has a team, the shot is being
/// called or aimed, and it is the computer's shot.  While the human calls or
/// aims, the computer's thinking time is restarted; otherwise nothing
/// changes.
pub fn ai_turn_gate(state: &mut GameState) -> (acts: bool)
    ensures
        ({
            let calling = old(state).phase == Phase::CallingShot || old(state).phase
                == Phase::Aiming;
            match old(state).ai_team {
                None => !acts && *final(state) == *old(state),
                Some(t) => if !calling {
                    !acts && *final(state) == *old(state)
                } else if thrower(old(state).first_throw_team, old(state).shot_index as int) != t {
                    !acts && *final(state) == (GameState {
                        ai_think_timer: of_bits(0),
                        ..*old(state)
                    })
                } else {
                    acts && *final(state) == *old(state)
                },
            }
        }),
{
    let ai_team = match state.ai_team {
        Some(t) => t,
        None => {
            return false;
        },
    };
    if state.phase != Phase::CallingShot && state.phase != Phase::Aiming {
        return false;
    }
    if state.current_team() != ai_team {
        state.ai_think_timer = Scalar { bits: 0 };
        return false;
    }
    true
}

/// The computer calls its shot: the broom, shot type and curl it chose, the
/// angle and weight of that broom as the call and as the aim, and it starts
/// aiming with its thinking time restarted.
pub fn ai_call_shot(
    state: &mut GameState,
    broom: Position,
    shot_type: ShotType,
    curl: CurlDirection,
    angle_deg: Scalar,
    weight: Scalar,
)
    ensures
        *final(state) == (GameState {
            broom_position: broom,
            shot_type: shot_type,
            curl_direction: curl,
            called_angle_deg: angle_deg,
            called_weight: weight,
            aim_angle_deg: angle_deg,
            aim_weight: weight,
            phase: Phase::Aiming,
            ai_think_timer: of_bits(0),
            ..*old(state)
        }),
{
    state.broom_position = broom;
    state.shot_type = shot_type;
    state.curl_direction = curl;
    state.called_angle_deg = angle_deg;
    state.called_weight = weight;
    state.aim_angle_deg = angle_deg;
    state.aim_weight = weight;
    state.phase = Phase::Aiming;
    state.ai_think_timer = Scalar { bits: 0 };
}

/// The computer throws: the snapshot and the stone in play are recorded,
/// the stone moves and the thinking time restarts.
pub fn ai_record_throw(state: &mut GameState, snapshot: ShotSnapshot, thrown: u64)
    ensures
        *final(state) == (GameState {
            snapshot: Some(snapshot),
            thrown_stone: Some(thrown),
            phase: Phase::StoneMoving,
            still_time: of_bits(0),
            ai_think_timer: of_bits(0),
            ..*old(state)
        }),
{
    state.snapshot = Some(snapshot);
    state.thrown_stone = Some(thrown);
    state.phase = Phase::StoneMoving;
    state.still_time = Scalar { bits: 0 };
    state.ai_think_timer = Scalar { bits: 0 };
}

} // verus!
