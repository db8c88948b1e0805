//! Curling rules: hog lines, the Free Guard Zone, scoring team, hammer and
//! the end of the game.
use vstd::prelude::*;

use crate::components::{other_team, Team};
use crate::constants::{FAR_HOG_LIMIT_BITS, FGZ_SHOTS, HOG_LINE_FAR_BITS};
use crate::helpers::{far_hog_line_reached, hog_line_reached};
use crate::resources::{ShotSnapshot, StoneSnapshot};
use crate::scalar::{negated, of_bits, real_le, real_lt, Scalar};

verus! {

// ============================================================================
// HOG LINE RULES
// ============================================================================

/// A delivered stone that never reached the near hog line violates the rule.
pub open spec fn near_hog_violation(max_y: Scalar) -> bool {
    !real_le(negated(of_bits(HOG_LINE_FAR_BITS)), max_y)
}

/// A stone that hit no other stone must fully cross the far hog line.
pub open spec fn far_hog_violation(max_y: Scalar, hit_stone: bool) -> bool {
    !hit_stone && !real_lt(of_bits(FAR_HOG_LIMIT_BITS), max_y)
}

/// Whether a stone whose largest Y during delivery was `max_y` did NOT cross
/// the near hog line.
pub fn check_near_hog_violation(max_y: Scalar) -> (r: bool)
    ensures
        r == near_hog_violation(max_y),
{
    !hog_line_reached(max_y)
}

/// Whether a stone that reached `max_y` and did (`hit_stone`) or did not hit
/// another stone breaks the far hog line rule.
pub fn check_far_hog_violation(max_y: Scalar, hit_stone: bool) -> (r: bool)
    ensures
        r == far_hog_violation(max_y, hit_stone),
{
    !hit_stone && !far_hog_line_reached(max_y)
}

/// A stone that hit another stone never breaks the far hog line rule, and one
/// that fully crossed the far hog line did not break the near one.
pub proof fn law_hog_rules(max_y: Scalar, hit_stone: bool)
    ensures
        hit_stone ==> !far_hog_violation(max_y, hit_stone),
        !far_hog_violation(max_y, false) ==> !near_hog_violation(max_y),
{
}

// ============================================================================
// FREE GUARD ZONE RULES
// ============================================================================

/// A snapshot stone that sat in the Free Guard Zone and is no longer on the
/// ice (its entity is not among `current`).
pub open spec fn removed_guard(current: Seq<u64>) -> spec_fn(StoneSnapshot) -> bool {
    |s: StoneSnapshot| s.in_fgz && !current.contains(s.entity)
}

/// The Free Guard Zone guards of the snapshot, of either team, that are gone
/// while the rule is active.
pub open spec fn fgz_violations(snapshot: ShotSnapshot, current: Seq<u64>) -> Seq<StoneSnapshot> {
    if snapshot.fgz_active {
        snapshot.stones@.filter(removed_guard(current))
    } else {
        Seq::empty()
    }
}

/// Whether `entity` is among `entities`.
pub fn contains_entity(entities: &Vec<u64>, entity: u64) -> (r: bool)
    ensures
        r == entities@.contains(entity),
{
    let mut i: usize = 0;
    while i < entities.len()
        invariant
            i <= entities.len(),
            forall|j: int| 0 <= j < i ==> entities@[j] != entity,
        decreases entities.len() - i,
    {
        if entities[i] == entity {
            return true;
        }
        i = i + 1;
    }
    false
}

/// The Free Guard Zone guards of `snapshot` that are missing from
/// `current_entities`, in snapshot order; none when the rule was not active.
pub fn detect_fgz_violations(snapshot: &ShotSnapshot, current_entities: &Vec<u64>) -> (r: Vec<
    StoneSnapshot,
>)
    ensures
        r@ == fgz_violations(*snapshot, current_entities@),
{
    let mut result: Vec<StoneSnapshot> = Vec::new();
    if !snapshot.fgz_active {
        return result;
    }
    let ghost pred = removed_guard(current_entities@);
    let mut i: usize = 0;
    while i < snapshot.stones.len()
        invariant
            i <= snapshot.stones.len(),
            snapshot.fgz_active,
            pred == removed_guard(current_entities@),
            result@ == snapshot.stones@.take(i as int).filter(pred),
        decreases snapshot.stones.len() - i,
    {
        let snap = snapshot.stones[i];
        proof {
            reveal_with_fuel(Seq::<_>::filter, 1);
            assert(snapshot.stones@.take(i + 1).drop_last() =~= snapshot.stones@.take(i as int));
        }
        if snap.in_fgz && !contains_entity(current_entities, snap.entity) {
            result.push(snap);
        }
        i = i + 1;
    }
    proof {
        assert(snapshot.stones@.take(snapshot.stones@.len() as int) =~= snapshot.stones@);
    }
    result
}

/// Every reported violation is a Free Guard Zone stone of the snapshot that
/// is missing now, and every such stone is reported while the rule is active.
pub proof fn law_fgz_violations_exact(snapshot: ShotSnapshot, current: Seq<u64>, s: StoneSnapshot)
    ensures
        fgz_violations(snapshot, current).contains(s) <==> (snapshot.fgz_active
            && snapshot.stones@.contains(s) && s.in_fgz && !current.contains(s.entity)),
{
    broadcast use vstd::seq_lib::group_filter_ensures;

    if snapshot.fgz_active {
        let stones = snapshot.stones@;
        let f = stones.filter(removed_guard(current));
        if f.contains(s) {
            let k = choose|k: int| 0 <= k < f.len() && f[k] == s;
            stones.lemma_filter_pred(removed_guard(current), k);
            #[allow(deprecated)]
            stones.filter_lemma(removed_guard(current));
            assert(f.len() <= stones.len());
            lemma_filter_subset(stones, removed_guard(current), k);
        }
        if stones.contains(s) && s.in_fgz && !current.contains(s.entity) {
            let k = choose|k: int| 0 <= k < stones.len() && stones[k] == s;
            stones.lemma_filter_contains(removed_guard(current), k);
        }
    }
}

/// Not a guard of `thrower`: the rule protects the other team's guards only.
pub open spec fn not_thrown_by(thrower: Team) -> spec_fn(StoneSnapshot) -> bool {
    |g: StoneSnapshot| g.team != thrower
}

/// The guards whose removal breaks the Free Guard Zone rule on a shot of
/// `thrower`: the other team's Free Guard Zone guards that are gone.
pub open spec fn opponent_fgz_violations(snapshot: ShotSnapshot, current: Seq<u64>, thrower: Team) -> Seq<StoneSnapshot> {
    fgz_violations(snapshot, current).filter(not_thrown_by(thrower))
}

/// The guards a shot of `thrower` must not remove, among those the
/// snapshot's Free Guard Zone guards missing from `current_entities`: the
/// other team's, in snapshot order; none when the rule was not active.
pub fn detect_opponent_fgz_violations(snapshot: &ShotSnapshot, current_entities: &Vec<u64>, thrower: Team) -> (r: Vec<StoneSnapshot>)
    ensures
        r@ == opponent_fgz_violations(*snapshot, current_entities@, thrower),
{
    let all = detect_fgz_violations(snapshot, current_entities);
    let ghost pred = not_thrown_by(thrower);
    let mut result: Vec<StoneSnapshot> = Vec::new();
    let mut i: usize = 0;
    while i < all.len()
        invariant
            i <= all.len(),
            pred == not_thrown_by(thrower),
            result@ == all@.take(i as int).filter(pred),
        decreases all.len() - i,
    {
        let g = all[i];
        proof {
            reveal_with_fuel(Seq::<_>::filter, 1);
            assert(all@.take(i + 1).drop_last() =~= all@.take(i as int));
        }
        if g.team != thrower {
            result.push(g);
        }
        i = i + 1;
    }
    proof {
        assert(all@.take(all@.len() as int) =~= all@);
    }
    result
}

/// On a shot of `thrower`, a guard is restored exactly when it is one of the
/// other team's Free Guard Zone guards in the snapshot, the rule is active,
/// and the guard is gone; the thrower's own guards are never restored.
pub proof fn law_only_opponent_guards_protected(snapshot: ShotSnapshot, current: Seq<u64>, thrower: Team, s: StoneSnapshot)
    ensures
        opponent_fgz_violations(snapshot, current, thrower).contains(s) <==> (snapshot.fgz_active
            && snapshot.stones@.contains(s) && s.in_fgz && !current.contains(s.entity) && s.team
            != thrower),
{
    broadcast use vstd::seq_lib::group_filter_ensures;

    law_fgz_violations_exact(snapshot, current, s);
    let v = fgz_violations(snapshot, current);
    let f = v.filter(not_thrown_by(thrower));
    if f.contains(s) {
        let k = choose|k: int| 0 <= k < f.len() && f[k] == s;
        v.lemma_filter_pred(not_thrown_by(thrower), k);
        lemma_filter_subset(v, not_thrown_by(thrower), k);
    }
    if v.contains(s) && s.team != thrower {
        let k = choose|k: int| 0 <= k < v.len() && v[k] == s;
        v.lemma_filter_contains(not_thrown_by(thrower), k);
    }
}

/// Every element of a filtered sequence is an element of the sequence.
proof fn lemma_filter_subset<A>(s: Seq<A>, pred: spec_fn(A) -> bool, k: int)
    requires
        0 <= k < s.filter(pred).len(),
    ensures
        s.contains(s.filter(pred)[k]),
    decreases s.len(),
{
    reveal_with_fuel(Seq::<_>::filter, 1);
    if s.len() > 0 {
        let sub = s.drop_last().filter(pred);
        if pred(s.last()) && k == sub.len() {
            assert(s[s.len() - 1] == s.filter(pred)[k]);
        } else {
            assert(s.filter(pred)[k] == sub[k]);
            lemma_filter_subset(s.drop_last(), pred, k);
            let j = choose|j: int| 0 <= j < s.drop_last().len() && s.drop_last()[j] == sub[k];
            assert(s[j] == sub[k]);
        }
    }
}

/// Whether the Free Guard Zone rule applies to shot `shot_index` (the first
/// five shots of an end).
pub fn is_fgz_active(shot_index: u8) -> (r: bool)
    ensures
        r == (shot_index < FGZ_SHOTS),
{
    shot_index < FGZ_SHOTS
}

// ============================================================================
// SCORING RULES
// ============================================================================

/// The team that scored an end from its points; `None` for a blank end.
/// Only one team can score in an end, so at least one count must be zero.
pub fn determine_scoring_team(team1_points: u32, team2_points: u32) -> (r: Option<Team>)
    requires
        team1_points == 0 || team2_points == 0,
    ensures
        r == (if team1_points > 0 {
            Some(Team::One)
        } else if team2_points > 0 {
            Some(Team::Two)
        } else {
            None::<Team>
        }),
{
    if team1_points > 0 && team2_points == 0 {
        Some(Team::One)
    } else if team1_points == 0 && team2_points > 0 {
        Some(Team::Two)
    } else {
        None
    }
}

/// The team throwing first in the next end: the team that scored (so the
/// other team gets the hammer), or the same team after a blank end.
pub open spec fn next_first_throw(team1_points: u32, team2_points: u32, current: Team) -> Team {
    if team1_points > 0 {
        Team::One
    } else if team2_points > 0 {
        Team::Two
    } else {
        current
    }
}

/// Which team throws first in the next end.
pub fn determine_next_first_throw(team1_points: u32, team2_points: u32, current_first_throw: Team)
    -> (r: Team)
    ensures
        r == next_first_throw(team1_points, team2_points, current_first_throw),
{
    if team1_points > 0 {
        Team::One
    } else if team2_points > 0 {
        Team::Two
    } else {
        current_first_throw
    }
}

/// The team that scores an end gives up the hammer: it throws first next end,
/// so its opponent throws last; a blank end leaves the hammer where it was.
pub proof fn law_hammer(team1_points: u32, team2_points: u32, current: Team)
    requires
        team1_points == 0 || team2_points == 0,
    ensures
        team1_points > 0 ==> other_team(next_first_throw(team1_points, team2_points, current))
            == Team::Two,
        team2_points > 0 ==> other_team(next_first_throw(team1_points, team2_points, current))
            == Team::One,
        team1_points == 0 && team2_points == 0 ==> next_first_throw(
            team1_points,
            team2_points,
            current,
        ) == current,
{
}

/// The game is over once the current end is past the last end.
pub fn is_game_over(current_end: u8, total_ends: u8) -> (r: bool)
    ensures
        r == (current_end > total_ends),
{
    current_end > total_ends
}

/// The winner by total score; `None` for a tie.
pub open spec fn winner(team1_score: u32, team2_score: u32) -> Option<Team> {
    if team1_score > team2_score {
        Some(Team::One)
    } else if team1_score < team2_score {
        Some(Team::Two)
    } else {
        None
    }
}

/// The winner of the game by total score.
pub fn determine_winner(team1_score: u32, team2_score: u32) -> (r: Option<Team>)
    ensures
        r == winner(team1_score, team2_score),
{
    if team1_score > team2_score {
        Some(Team::One)
    } else if team1_score < team2_score {
        Some(Team::Two)
    } else {
        None
    }
}

/// Swapping the two scores swaps the winner; equal scores are a tie.
pub proof fn law_winner_symmetric(a: u32, b: u32)
    ensures
        winner(a, b) == Some(Team::One) <==> winner(b, a) == Some(Team::Two),
        winner(a, b) is None <==> a == b,
{
}

} // verus!
