//! Line positions on the sheet and the rule predicates built on them.
use vstd::prelude::*;

use crate::components::{other_team, Team};
use crate::constants::{
    BACK_LINE_FAR_BITS, BITING_DISTANCE_BITS, FAR_HOG_LIMIT_BITS, HOG_LINE_FAR_BITS, HOUSE_RADIUS_12_BITS,
    OUT_OF_BOUNDS_BACK_BITS, OUT_OF_BOUNDS_HALF_WIDTH_BITS, TEE_LINE_FAR_BITS,
};
use crate::resources::StoneOnIce;
use crate::scalar::{negated, of_bits, real_lt, real_le, Position, Scalar, SIGN_BIT};

verus! {

/// Y of the far back line.
pub fn back_line_far() -> (r: Scalar)
    ensures
        r == of_bits(BACK_LINE_FAR_BITS),
{
    Scalar { bits: BACK_LINE_FAR_BITS }
}

/// Y of the near back line: the far one mirrored.
pub fn back_line_near() -> (r: Scalar)
    ensures
        r == negated(of_bits(BACK_LINE_FAR_BITS)),
{
    back_line_far().neg()
}

/// Y of the far tee line.
pub fn tee_line_far() -> (r: Scalar)
    ensures
        r == of_bits(TEE_LINE_FAR_BITS),
{
    Scalar { bits: TEE_LINE_FAR_BITS }
}

/// Y of the near tee line: the far one mirrored.
pub fn tee_line_near() -> (r: Scalar)
    ensures
        r == negated(of_bits(TEE_LINE_FAR_BITS)),
{
    tee_line_far().neg()
}

/// Y of the far hog line.
pub fn hog_line_far() -> (r: Scalar)
    ensures
        r == of_bits(HOG_LINE_FAR_BITS),
{
    Scalar { bits: HOG_LINE_FAR_BITS }
}

/// Y of the near hog line: the far one mirrored.
pub fn hog_line_near() -> (r: Scalar)
    ensures
        r == negated(of_bits(HOG_LINE_FAR_BITS)),
{
    hog_line_far().neg()
}

/// The lines are symmetric about the centre line and ordered
/// back > tee > hog > 0 at the far end (mirrored at the near end).
pub proof fn law_line_layout()
    ensures
        real_lt(of_bits(0), of_bits(HOG_LINE_FAR_BITS)),
        real_lt(of_bits(HOG_LINE_FAR_BITS), of_bits(TEE_LINE_FAR_BITS)),
        real_lt(of_bits(TEE_LINE_FAR_BITS), of_bits(BACK_LINE_FAR_BITS)),
        real_lt(negated(of_bits(BACK_LINE_FAR_BITS)), negated(of_bits(TEE_LINE_FAR_BITS))),
        real_lt(negated(of_bits(TEE_LINE_FAR_BITS)), negated(of_bits(HOG_LINE_FAR_BITS))),
        real_lt(negated(of_bits(HOG_LINE_FAR_BITS)), of_bits(0)),
        negated(of_bits(HOG_LINE_FAR_BITS)).order_key() == -of_bits(HOG_LINE_FAR_BITS).order_key(),
        negated(of_bits(TEE_LINE_FAR_BITS)).order_key() == -of_bits(TEE_LINE_FAR_BITS).order_key(),
        negated(of_bits(BACK_LINE_FAR_BITS)).order_key() == -of_bits(
            BACK_LINE_FAR_BITS,
        ).order_key(),
{
}

/// Whether a stone at height `y` whose centre is `dist_to_tee` from the far
/// tee is in the Free Guard Zone: strictly between the far hog line and the
/// far tee line, and strictly outside the house.
pub open spec fn in_free_guard_zone(y: Scalar, dist_to_tee: Scalar) -> bool {
    &&& real_lt(of_bits(HOG_LINE_FAR_BITS), y)
    &&& real_lt(y, of_bits(TEE_LINE_FAR_BITS))
    &&& real_lt(of_bits(HOUSE_RADIUS_12_BITS), dist_to_tee)
}

/// Free Guard Zone test for a stone at height `y`, `dist_to_tee` from the
/// far tee (the distance is computed by the caller).
pub fn is_in_free_guard_zone(y: Scalar, dist_to_tee: Scalar) -> (r: bool)
    ensures
        r == in_free_guard_zone(y, dist_to_tee),
{
    let in_hog_to_tee = y.gt(hog_line_far()) && y.lt(tee_line_far());
    let outside_house = dist_to_tee.gt(Scalar { bits: HOUSE_RADIUS_12_BITS });
    in_hog_to_tee && outside_house
}

/// Whether a position is off the sheet: past a side wall by more than a stone
/// radius, or past either back line by more than a stone radius.
pub open spec fn out_of_bounds(p: Position) -> bool {
    ||| real_lt(of_bits(OUT_OF_BOUNDS_HALF_WIDTH_BITS), of_bits((p.x.bits % SIGN_BIT) as u32))
    ||| real_lt(of_bits(OUT_OF_BOUNDS_BACK_BITS), p.y)
    ||| real_lt(p.y, negated(of_bits(OUT_OF_BOUNDS_BACK_BITS)))
}

/// Out-of-bounds test for a stone position.
pub fn is_out_of_bounds(position: Position) -> (r: bool)
    ensures
        r == out_of_bounds(position),
{
    let half_width = Scalar { bits: OUT_OF_BOUNDS_HALF_WIDTH_BITS };
    let back = Scalar { bits: OUT_OF_BOUNDS_BACK_BITS };
    let near = back.neg();
    position.x.abs().gt(half_width) || position.y.gt(back) || position.y.lt(near)
}

/// The stone crossed the near hog line during delivery.
pub fn hog_line_reached(max_y: Scalar) -> (r: bool)
    ensures
        r == real_le(negated(of_bits(HOG_LINE_FAR_BITS)), max_y),
{
    max_y.ge(hog_line_near())
}

/// The stone fully crossed the far hog line (its trailing edge is past it).
pub fn far_hog_line_reached(max_y: Scalar) -> (r: bool)
    ensures
        r == real_lt(of_bits(FAR_HOG_LIMIT_BITS), max_y),
{
    max_y.gt(Scalar { bits: FAR_HOG_LIMIT_BITS })
}

/// Reaching the far hog line implies having reached the near one, and a
/// stone in the Free Guard Zone is on the sheet.
pub proof fn law_zones_nested(y: Scalar, dist_to_tee: Scalar)
    ensures
        real_lt(of_bits(FAR_HOG_LIMIT_BITS), y) ==> real_le(negated(of_bits(HOG_LINE_FAR_BITS)), y),
        in_free_guard_zone(y, dist_to_tee) ==> !real_lt(of_bits(OUT_OF_BOUNDS_BACK_BITS), y)
            && !real_lt(y, negated(of_bits(OUT_OF_BOUNDS_BACK_BITS))),
{
}

} // verus!

verus! {

// ============================================================================
// SCORING
// ============================================================================

/// A stone biting the house: its centre is within the 12-foot ring plus a
/// stone radius of the tee.
pub open spec fn biting(s: StoneOnIce) -> bool {
    real_le(s.dist_to_tee, of_bits(BITING_DISTANCE_BITS))
}

/// Stone `i` counts for its team: it bites the house and is strictly closer
/// to the tee than every biting stone of the other team.
pub open spec fn counts_for_score(stones: Seq<StoneOnIce>, i: int) -> bool {
    &&& biting(stones[i])
    &&& forall|j: int|
        #![trigger stones[j]]
        0 <= j < stones.len() && biting(stones[j]) && stones[j].team != stones[i].team
            ==> real_lt(stones[i].dist_to_tee, stones[j].dist_to_tee)
}

/// Points of `team` among the first `n` stones.
pub open spec fn points_in_prefix(stones: Seq<StoneOnIce>, team: Team, n: int) -> nat
    decreases n,
{
    if n <= 0 {
        0
    } else {
        points_in_prefix(stones, team, n - 1) + (if stones[n - 1].team == team
            && counts_for_score(stones, n - 1) {
            1nat
        } else {
            0nat
        })
    }
}

/// Points `team` scores in an end that finishes with `stones` on the ice.
pub open spec fn end_points(stones: Seq<StoneOnIce>, team: Team) -> nat {
    points_in_prefix(stones, team, stones.len() as int)
}

/// Indices of the stones among the first `n` that count for the score, in
/// the order they lie on the ice.
pub open spec fn counting_indices(stones: Seq<StoneOnIce>, n: int) -> Seq<usize>
    decreases n,
{
    if n <= 0 {
        Seq::empty()
    } else if counts_for_score(stones, n - 1) {
        counting_indices(stones, n - 1).push((n - 1) as usize)
    } else {
        counting_indices(stones, n - 1)
    }
}

/// Stone `a` comes before stone `b` when the scoring stones are listed
/// closest to the tee first: it is strictly closer, or as close and earlier
/// on the ice.
pub open spec fn closer_first(stones: Seq<StoneOnIce>, a: int, b: int) -> bool {
    let ka = stones[a].dist_to_tee.order_key();
    let kb = stones[b].dist_to_tee.order_key();
    ka < kb || (ka == kb && a < b)
}

/// `order` lists stones closest first.
pub open spec fn sorted_closest_first(stones: Seq<StoneOnIce>, order: Seq<usize>) -> bool {
    forall|a: int, b: int|
        0 <= a < b < order.len() ==> closer_first(stones, #[trigger] order[a] as int, #[trigger] order[b] as int)
}

/// `order` lists every stone that counts for the score once, closest to the
/// tee first (ties in the order they lie on the ice).
pub open spec fn scoring_order(stones: Seq<StoneOnIce>, order: Seq<usize>) -> bool {
    &&& forall|k: int|
        0 <= k < order.len() ==> (#[trigger] order[k]) < stones.len() && counts_for_score(
            stones,
            order[k] as int,
        )
    &&& forall|i: int|
        0 <= i < stones.len() && #[trigger] counts_for_score(stones, i) ==> order.contains(i as usize)
    &&& sorted_closest_first(stones, order)
}

/// `entities` are the entities of the stones that count for the score,
/// closest to the tee first.
pub open spec fn scoring_entities_closest_first(stones: Seq<StoneOnIce>, entities: Seq<u64>) -> bool {
    exists|order: Seq<usize>|
        #[trigger] scoring_order(stones, order) && entities == order.map_values(
            |i: usize| stones[i as int].entity,
        )
}

/// The closest biting stone of `team`: `None` when the team has no stone
/// biting the house, otherwise the distance of its closest one.
fn closest_distance(stones: &Vec<StoneOnIce>, team: Team) -> (r: Option<Scalar>)
    ensures
        r is None <==> (forall|j: int|
            #![trigger stones@[j]]
            0 <= j < stones@.len() && stones@[j].team == team ==> !biting(stones@[j])),
        r matches Some(d) ==> (exists|j: int|
            #![trigger stones@[j]]
            0 <= j < stones@.len() && stones@[j].team == team && biting(stones@[j])
                && stones@[j].dist_to_tee == d),
        r matches Some(d) ==> (forall|j: int|
            #![trigger stones@[j]]
            0 <= j < stones@.len() && stones@[j].team == team && biting(stones@[j]) ==> real_le(
                d,
                stones@[j].dist_to_tee,
            )),
{
    let limit = Scalar { bits: BITING_DISTANCE_BITS };
    let mut best: Option<Scalar> = None;
    let mut i: usize = 0;
    while i < stones.len()
        invariant
            i <= stones.len(),
            limit == of_bits(BITING_DISTANCE_BITS),
            best is None <==> (forall|j: int|
                #![trigger stones@[j]]
                0 <= j < i && stones@[j].team == team ==> !biting(stones@[j])),
            best matches Some(d) ==> (exists|j: int|
                #![trigger stones@[j]]
                0 <= j < i && stones@[j].team == team && biting(stones@[j])
                    && stones@[j].dist_to_tee == d),
            best matches Some(d) ==> (forall|j: int|
                #![trigger stones@[j]]
                0 <= j < i && stones@[j].team == team && biting(stones@[j]) ==> real_le(
                    d,
                    stones@[j].dist_to_tee,
                )),
        decreases stones.len() - i,
    {
        let s = stones[i];
        if s.team == team && s.dist_to_tee.le(limit) {
            match best {
                None => {
                    best = Some(s.dist_to_tee);
                },
                Some(d) => {
                    if s.dist_to_tee.lt(d) {
                        best = Some(s.dist_to_tee);
                    }
                },
            }
        }
        i = i + 1;
    }
    best
}

/// Counts the points of `team`: its biting stones closer than the other
/// team's closest biting stone (all of them when that team has none).
fn count_points(stones: &Vec<StoneOnIce>, team: Team) -> (r: u32)
    requires
        stones@.len() <= u32::MAX,
    ensures
        r == end_points(stones@, team),
{
    let limit = Scalar { bits: BITING_DISTANCE_BITS };
    let opponent_closest = closest_distance(stones, team.opponent());
    let mut count: u32 = 0;
    let mut i: usize = 0;
    while i < stones.len()
        invariant
            i <= stones.len(),
            stones@.len() <= u32::MAX,
            limit == of_bits(BITING_DISTANCE_BITS),
            count <= i,
            count == points_in_prefix(stones@, team, i as int),
            opponent_closest is None <==> (forall|j: int|
                #![trigger stones@[j]]
                0 <= j < stones@.len() && stones@[j].team == other_team(team) ==> !biting(
                    stones@[j],
                )),
            opponent_closest matches Some(d) ==> (exists|j: int|
                #![trigger stones@[j]]
                0 <= j < stones@.len() && stones@[j].team == other_team(team) && biting(stones@[j])
                    && stones@[j].dist_to_tee == d),
            opponent_closest matches Some(d) ==> (forall|j: int|
                #![trigger stones@[j]]
                0 <= j < stones@.len() && stones@[j].team == other_team(team) && biting(stones@[j])
                    ==> real_le(d, stones@[j].dist_to_tee)),
        decreases stones.len() - i,
    {
        let s = stones[i];
        let closer = match opponent_closest {
            None => true,
            Some(d) => s.dist_to_tee.lt(d),
        };
        proof {
            if s.team == team && biting(s) {
                if closer {
                    assert forall|j: int|
                        #![trigger stones@[j]]
                        0 <= j < stones@.len() && biting(stones@[j]) && stones@[j].team
                            != stones@[i as int].team implies real_lt(
                        stones@[i as int].dist_to_tee,
                        stones@[j].dist_to_tee,
                    ) by {
                        assert(stones@[j].team == other_team(team));
                    }
                    assert(counts_for_score(stones@, i as int));
                } else {
                    let d = opponent_closest->0;
                    let w = choose|j: int|
                        #![trigger stones@[j]]
                        0 <= j < stones@.len() && stones@[j].team == other_team(team) && biting(
                            stones@[j],
                        ) && stones@[j].dist_to_tee == d;
                    assert(stones@[w].team != stones@[i as int].team);
                    assert(!counts_for_score(stones@, i as int));
                }
            }
        }
        if s.team == team && s.dist_to_tee.le(limit) && closer {
            count = count + 1;
        }
        i = i + 1;
    }
    count
}

/// Scores an end from the stones left on the ice: each team scores one point
/// for every biting stone closer to the tee than all of the other team's
/// biting stones.  Only one team can score; an empty house or a tie for the
/// closest stone is a blank end `(0, 0)`.
pub fn score_end(stones: &Vec<StoneOnIce>) -> (r: (u32, u32))
    requires
        stones@.len() <= u32::MAX,
    ensures
        r.0 == end_points(stones@, Team::One),
        r.1 == end_points(stones@, Team::Two),
        r.0 == 0 || r.1 == 0,
{
    let team1 = count_points(stones, Team::One);
    let team2 = count_points(stones, Team::Two);
    proof {
        law_one_team_scores(stones@);
    }
    (team1, team2)
}

/// The indices of the stones that count for the score, in the order they
/// lie on the ice.
fn counting_stones(stones: &Vec<StoneOnIce>) -> (r: Vec<usize>)
    ensures
        r@ == counting_indices(stones@, stones@.len() as int),
{
    let limit = Scalar { bits: BITING_DISTANCE_BITS };
    let closest_one = closest_distance(stones, Team::One);
    let closest_two = closest_distance(stones, Team::Two);
    let mut ids: Vec<usize> = Vec::new();
    let mut i: usize = 0;
    while i < stones.len()
        invariant
            i <= stones.len(),
            limit == of_bits(BITING_DISTANCE_BITS),
            ids@ == counting_indices(stones@, i as int),
            closest_one is None <==> (forall|j: int|
                #![trigger stones@[j]]
                0 <= j < stones@.len() && stones@[j].team == Team::One ==> !biting(stones@[j])),
            closest_one matches Some(d) ==> (exists|j: int|
                #![trigger stones@[j]]
                0 <= j < stones@.len() && stones@[j].team == Team::One && biting(stones@[j])
                    && stones@[j].dist_to_tee == d),
            closest_one matches Some(d) ==> (forall|j: int|
                #![trigger stones@[j]]
                0 <= j < stones@.len() && stones@[j].team == Team::One && biting(stones@[j])
                    ==> real_le(d, stones@[j].dist_to_tee)),
            closest_two is None <==> (forall|j: int|
                #![trigger stones@[j]]
                0 <= j < stones@.len() && stones@[j].team == Team::Two ==> !biting(stones@[j])),
            closest_two matches Some(d) ==> (exists|j: int|
                #![trigger stones@[j]]
                0 <= j < stones@.len() && stones@[j].team == Team::Two && biting(stones@[j])
                    && stones@[j].dist_to_tee == d),
            closest_two matches Some(d) ==> (forall|j: int|
                #![trigger stones@[j]]
                0 <= j < stones@.len() && stones@[j].team == Team::Two && biting(stones@[j])
                    ==> real_le(d, stones@[j].dist_to_tee)),
        decreases stones.len() - i,
    {
        let s = stones[i];
        let opponent_closest = match s.team {
            Team::One => closest_two,
            Team::Two => closest_one,
        };
        let closer = match opponent_closest {
            None => true,
            Some(d) => s.dist_to_tee.lt(d),
        };
        proof {
            if biting(s) {
                if closer {
                    assert forall|j: int|
                        #![trigger stones@[j]]
                        0 <= j < stones@.len() && biting(stones@[j]) && stones@[j].team
                            != stones@[i as int].team implies real_lt(
                        stones@[i as int].dist_to_tee,
                        stones@[j].dist_to_tee,
                    ) by {
                        assert(stones@[j].team == other_team(s.team));
                    }
                } else {
                    let d = opponent_closest->0;
                    let w = choose|j: int|
                        #![trigger stones@[j]]
                        0 <= j < stones@.len() && stones@[j].team == other_team(s.team) && biting(
                            stones@[j],
                        ) && stones@[j].dist_to_tee == d;
                    assert(stones@[w].team != stones@[i as int].team);
                }
            }
        }
        if s.dist_to_tee.le(limit) && closer {
            ids.push(i);
        }
        i = i + 1;
    }
    ids
}

/// What the stones that count for the score are, read off their list in ice
/// order: each is a counting stone, each counting stone is listed, and the
/// indices increase.
proof fn lemma_counting_indices(stones: Seq<StoneOnIce>, n: int)
    requires
        0 <= n <= stones.len(),
        stones.len() <= usize::MAX,
    ensures
        forall|k: int|
            0 <= k < counting_indices(stones, n).len() ==> (#[trigger] counting_indices(stones, n)[k])
                < n && counts_for_score(stones, counting_indices(stones, n)[k] as int),
        forall|j: int|
            0 <= j < n && #[trigger] counts_for_score(stones, j) ==> counting_indices(
                stones,
                n,
            ).contains(j as usize),
        forall|a: int, b: int|
            0 <= a < b < counting_indices(stones, n).len() ==> #[trigger] counting_indices(
                stones,
                n,
            )[a] < #[trigger] counting_indices(stones, n)[b],
    decreases n,
{
    if n > 0 {
        lemma_counting_indices(stones, n - 1);
        let prev = counting_indices(stones, n - 1);
        if counts_for_score(stones, n - 1) {
            let cur = counting_indices(stones, n);
            assert(cur == prev.push((n - 1) as usize));
            assert forall|k: int| 0 <= k < prev.len() implies #[trigger] cur[k] == prev[k] by {}
            assert(cur[prev.len() as int] == (n - 1) as usize);
            assert forall|j: int|
                0 <= j < n && #[trigger] counts_for_score(stones, j) implies cur.contains(
                j as usize,
            ) by {
                if j < n - 1 {
                    let k = choose|k: int| 0 <= k < prev.len() && #[trigger] prev[k] == j as usize;
                    assert(cur[k] == j as usize);
                } else {
                    assert(cur[prev.len() as int] == j as usize);
                }
            }
        }
    }
}

/// Puts stone `i` into a closest-first list of stones that all lie before
/// it on the ice, after every stone at most as far from the tee and before
/// the first one farther away.
fn insert_closest_first(stones: &Vec<StoneOnIce>, order: &mut Vec<usize>, i: usize)
    requires
        i < stones@.len(),
        !stones@[i as int].dist_to_tee.nan(),
        forall|k: int|
            0 <= k < old(order)@.len() ==> (#[trigger] old(order)@[k]) < i && !stones@[old(
                order,
            )@[k] as int].dist_to_tee.nan(),
        sorted_closest_first(stones@, old(order)@),
    ensures
        final(order)@.len() == old(order)@.len() + 1,
        forall|x: usize| #[trigger] final(order)@.contains(x) <==> (old(order)@.contains(x) || x == i),
        forall|k: int| 0 <= k < final(order)@.len() ==> (#[trigger] final(order)@[k]) <= i,
        sorted_closest_first(stones@, final(order)@),
{
    let d = stones[i].dist_to_tee;
    let mut pos: usize = 0;
    while pos < order.len()
        invariant_except_break
            pos <= order@.len(),
            forall|k: int|
                0 <= k < pos ==> !real_lt(d, stones@[#[trigger] order@[k] as int].dist_to_tee),
        invariant
            forall|k: int| 0 <= k < order@.len() ==> (#[trigger] order@[k]) < stones@.len(),
        ensures
            pos <= order@.len(),
            forall|k: int|
                0 <= k < pos ==> !real_lt(d, stones@[#[trigger] order@[k] as int].dist_to_tee),
            pos < order@.len() ==> real_lt(d, stones@[order@[pos as int] as int].dist_to_tee),
        decreases order@.len() - pos,
    {
        let k = order[pos];
        if stones[k].dist_to_tee.gt(d) {
            break;
        }
        pos = pos + 1;
    }
    let ghost before = order@;
    order.insert(pos, i);
    proof {
        before.insert_ensures(pos as int, i);
        let after = order@;
        assert forall|a: int, b: int|
            0 <= a < b < after.len() implies closer_first(
            stones@,
            #[trigger] after[a] as int,
            #[trigger] after[b] as int,
        ) by {
            if b < pos {
                assert(after[a] == before[a] && after[b] == before[b]);
            } else if b == pos {
                assert(after[a] == before[a]);
            } else if a < pos {
                assert(after[a] == before[a] && after[b] == before[b - 1]);
            } else if a == pos {
                assert(after[b] == before[b - 1]);
                if pos < b - 1 {
                    assert(closer_first(stones@, before[pos as int] as int, before[b - 1] as int));
                }
            } else {
                assert(after[a] == before[a - 1] && after[b] == before[b - 1]);
            }
        }
        assert forall|x: usize| #[trigger] after.contains(x) <==> (before.contains(x) || x == i) by {
            if after.contains(x) {
                let k = choose|k: int| 0 <= k < after.len() && #[trigger] after[k] == x;
                if k < pos {
                    assert(before[k] == x);
                } else if k > pos {
                    assert(before[k - 1] == x);
                }
            }
            if before.contains(x) {
                let k = choose|k: int| 0 <= k < before.len() && #[trigger] before[k] == x;
                if k < pos {
                    assert(after[k] == x);
                } else {
                    assert(after[k + 1] == x);
                }
            }
            if x == i {
                assert(after[pos as int] == x);
            }
        }
        assert forall|k: int| 0 <= k < after.len() implies (#[trigger] after[k]) <= i by {
            if k < pos {
                assert(after[k] == before[k]);
            } else if k > pos {
                assert(after[k] == before[k - 1]);
            }
        }
    }
}

/// Two closest-first lists of the same stones are the same list.
proof fn lemma_sorted_same_elements(stones: Seq<StoneOnIce>, o1: Seq<usize>, o2: Seq<usize>)
    requires
        sorted_closest_first(stones, o1),
        sorted_closest_first(stones, o2),
        forall|x: usize| #[trigger] o1.contains(x) <==> o2.contains(x),
    ensures
        o1 == o2,
    decreases o1.len(),
{
    if o1.len() == 0 {
        if o2.len() > 0 {
            assert(o2.contains(o2[0]));
            assert(o1.contains(o2[0]));
        }
        assert(o1 =~= o2);
    } else {
        assert(o1.contains(o1[0]));
        assert(o2.contains(o1[0]));
        let p = choose|p: int| 0 <= p < o2.len() && #[trigger] o2[p] == o1[0];
        assert(o2.contains(o2[0]));
        assert(o1.contains(o2[0]));
        let q = choose|q: int| 0 <= q < o1.len() && #[trigger] o1[q] == o2[0];
        if p > 0 {
            assert(closer_first(stones, o2[0] as int, o2[p] as int));
            if q > 0 {
                assert(closer_first(stones, o1[0] as int, o1[q] as int));
            }
        }
        assert(o1[0] == o2[0]);
        let r1 = o1.drop_first();
        let r2 = o2.drop_first();
        assert(sorted_closest_first(stones, r1)) by {
            assert forall|a: int, b: int| 0 <= a < b < r1.len() implies closer_first(
                stones,
                #[trigger] r1[a] as int,
                #[trigger] r1[b] as int,
            ) by {
                assert(r1[a] == o1[a + 1] && r1[b] == o1[b + 1]);
            }
        }
        assert(sorted_closest_first(stones, r2)) by {
            assert forall|a: int, b: int| 0 <= a < b < r2.len() implies closer_first(
                stones,
                #[trigger] r2[a] as int,
                #[trigger] r2[b] as int,
            ) by {
                assert(r2[a] == o2[a + 1] && r2[b] == o2[b + 1]);
            }
        }
        assert forall|x: usize| #[trigger] r1.contains(x) <==> r2.contains(x) by {
            if r1.contains(x) {
                let k = choose|k: int| 0 <= k < r1.len() && #[trigger] r1[k] == x;
                assert(o1[k + 1] == x);
                assert(closer_first(stones, o1[0] as int, o1[k + 1] as int));
                assert(o1.contains(x));
                let j = choose|j: int| 0 <= j < o2.len() && #[trigger] o2[j] == x;
                assert(j != 0);
                assert(r2[j - 1] == x);
            }
            if r2.contains(x) {
                let k = choose|k: int| 0 <= k < r2.len() && #[trigger] r2[k] == x;
                assert(o2[k + 1] == x);
                assert(closer_first(stones, o2[0] as int, o2[k + 1] as int));
                assert(o2.contains(x));
                assert(o1.contains(x));
                let j = choose|j: int| 0 <= j < o1.len() && #[trigger] o1[j] == x;
                assert(j != 0);
                assert(r1[j - 1] == x);
            }
        }
        lemma_sorted_same_elements(stones, r1, r2);
        assert(o1 =~= o2) by {
            assert forall|k: int| 0 <= k < o1.len() implies o1[k] == o2[k] by {
                if k > 0 {
                    assert(o1[k] == r1[k - 1] && o2[k] == r2[k - 1]);
                }
            }
        }
    }
}

/// There is only one closest-first list of the scoring stones, so the
/// scoring entities are fixed by the stones on the ice.
pub proof fn law_scoring_order_unique(stones: Seq<StoneOnIce>, o1: Seq<usize>, o2: Seq<usize>)
    requires
        scoring_order(stones, o1),
        scoring_order(stones, o2),
    ensures
        o1 == o2,
{
    assert forall|x: usize| #[trigger] o1.contains(x) <==> o2.contains(x) by {
        if o1.contains(x) {
            let k = choose|k: int| 0 <= k < o1.len() && #[trigger] o1[k] == x;
            assert(counts_for_score(stones, x as int));
        }
        if o2.contains(x) {
            let k = choose|k: int| 0 <= k < o2.len() && #[trigger] o2[k] == x;
            assert(counts_for_score(stones, x as int));
        }
    }
    lemma_sorted_same_elements(stones, o1, o2);
}

/// The entities of the stones that count for the score, closest to the tee
/// first (as far as the tee, in the order they lie on the ice); empty for a
/// blank end.
pub fn scoring_entities(stones: &Vec<StoneOnIce>) -> (r: Vec<u64>)
    ensures
        scoring_entities_closest_first(stones@, r@),
{
    let counting = counting_stones(stones);
    let stone_count: usize = stones.len();
    proof {
        assert(stones@.len() == stone_count);
        lemma_counting_indices(stones@, stones@.len() as int);
    }
    let mut order: Vec<usize> = Vec::new();
    let mut k: usize = 0;
    while k < counting.len()
        invariant
            k <= counting@.len(),
            counting@ == counting_indices(stones@, stones@.len() as int),
            forall|a: int|
                0 <= a < counting@.len() ==> (#[trigger] counting@[a]) < stones@.len()
                    && counts_for_score(stones@, counting@[a] as int),
            forall|a: int, b: int|
                0 <= a < b < counting@.len() ==> #[trigger] counting@[a] < #[trigger] counting@[b],
            order@.len() == k,
            forall|x: usize| #[trigger] order@.contains(x) <==> counting@.take(k as int).contains(x),
            forall|a: int|
                0 <= a < order@.len() ==> (#[trigger] order@[a]) < stones@.len() && counts_for_score(
                    stones@,
                    order@[a] as int,
                ) && (k > 0 ==> order@[a] <= counting@[k - 1]),
            sorted_closest_first(stones@, order@),
        decreases counting@.len() - k,
    {
        let i = counting[k];
        proof {
            assert(biting(stones@[i as int]));
            assert forall|a: int| 0 <= a < order@.len() implies (#[trigger] order@[a]) < i
                && !stones@[order@[a] as int].dist_to_tee.nan() by {
                assert(biting(stones@[order@[a] as int]));
                if k > 0 {
                    assert(counting@[k - 1] < counting@[k as int]);
                }
            }
        }
        let ghost before = order@;
        insert_closest_first(stones, &mut order, i);
        proof {
            assert forall|x: usize| #[trigger] order@.contains(x) <==> counting@.take(k + 1).contains(x) by {
                if counting@.take(k + 1).contains(x) {
                    let j = choose|j: int| 0 <= j < k + 1 && #[trigger] counting@.take(k + 1)[j] == x;
                    if j < k {
                        assert(counting@.take(k as int)[j] == x);
                    }
                }
                if counting@.take(k as int).contains(x) {
                    let j = choose|j: int| 0 <= j < k && #[trigger] counting@.take(k as int)[j] == x;
                    assert(counting@.take(k + 1)[j] == x);
                }
                if x == i {
                    assert(counting@.take(k + 1)[k as int] == x);
                }
            }
            assert forall|a: int|
                0 <= a < order@.len() implies (#[trigger] order@[a]) < stones@.len() && counts_for_score(
                stones@,
                order@[a] as int,
            ) && order@[a] <= counting@[k as int] by {
                let x = order@[a];
                assert(order@.contains(x));
                if x != i {
                    let j = choose|j: int| 0 <= j < before.len() && #[trigger] before[j] == x;
                }
            }
        }
        k = k + 1;
    }
    proof {
        assert(counting@.take(counting@.len() as int) =~= counting@);
    }
    let mut entities: Vec<u64> = Vec::new();
    let mut m: usize = 0;
    while m < order.len()
        invariant
            m <= order@.len(),
            forall|a: int| 0 <= a < order@.len() ==> (#[trigger] order@[a]) < stones@.len(),
            entities@ == order@.take(m as int).map_values(|j: usize| stones@[j as int].entity),
        decreases order@.len() - m,
    {
        entities.push(stones[order[m]].entity);
        proof {
            assert(order@.take(m + 1).map_values(|j: usize| stones@[j as int].entity)
                =~= order@.take(m as int).map_values(|j: usize| stones@[j as int].entity).push(
                stones@[order@[m as int] as int].entity,
            ));
        }
        m = m + 1;
    }
    proof {
        assert(order@.take(order@.len() as int) =~= order@);
        assert forall|j: int|
            0 <= j < stones@.len() && #[trigger] counts_for_score(stones@, j) implies order@.contains(
            j as usize,
        ) by {
            assert(counting@.contains(j as usize));
        }
        assert(scoring_order(stones@, order@));
    }
    entities
}

proof fn lemma_points_witness(stones: Seq<StoneOnIce>, team: Team, n: int)
    requires
        points_in_prefix(stones, team, n) > 0,
    ensures
        exists|i: int|
            #![trigger stones[i]]
            0 <= i < n && i < n && stones[i].team == team && counts_for_score(stones, i),
    decreases n,
{
    if n > 0 {
        if !(stones[n - 1].team == team && counts_for_score(stones, n - 1)) {
            lemma_points_witness(stones, team, n - 1);
        }
    }
}

proof fn lemma_points_bounded(stones: Seq<StoneOnIce>, team: Team, n: int)
    requires
        n >= 0,
    ensures
        points_in_prefix(stones, team, n) <= n,
    decreases n,
{
    if n > 0 {
        lemma_points_bounded(stones, team, n - 1);
    }
}

/// Only one team can score in an end, and no team scores more points than
/// there are stones on the ice.
pub proof fn law_one_team_scores(stones: Seq<StoneOnIce>)
    ensures
        end_points(stones, Team::One) == 0 || end_points(stones, Team::Two) == 0,
        end_points(stones, Team::One) <= stones.len(),
        end_points(stones, Team::Two) <= stones.len(),
{
    lemma_points_bounded(stones, Team::One, stones.len() as int);
    lemma_points_bounded(stones, Team::Two, stones.len() as int);
    if end_points(stones, Team::One) > 0 && end_points(stones, Team::Two) > 0 {
        lemma_points_witness(stones, Team::One, stones.len() as int);
        lemma_points_witness(stones, Team::Two, stones.len() as int);
        let i = choose|i: int|
            #![trigger stones[i]]
            0 <= i < stones.len() && i < stones.len() && stones[i].team == Team::One
                && counts_for_score(stones, i);
        let j = choose|j: int|
            #![trigger stones[j]]
            0 <= j < stones.len() && j < stones.len() && stones[j].team == Team::Two
                && counts_for_score(stones, j);
        assert(real_lt(stones[i].dist_to_tee, stones[j].dist_to_tee));
        assert(real_lt(stones[j].dist_to_tee, stones[i].dist_to_tee));
    }
}

proof fn lemma_counting_stone_scores(stones: Seq<StoneOnIce>, team: Team, i: int, n: int)
    requires
        0 <= i < n <= stones.len(),
        stones[i].team == team,
        counts_for_score(stones, i),
    ensures
        points_in_prefix(stones, team, n) >= 1,
    decreases n,
{
    if i < n - 1 {
        lemma_counting_stone_scores(stones, team, i, n - 1);
    }
}

/// A biting stone that is closer to the tee than every biting stone of the
/// other team earns its team at least one point.
pub proof fn law_shot_rock_scores(stones: Seq<StoneOnIce>, i: int)
    requires
        0 <= i < stones.len(),
        counts_for_score(stones, i),
    ensures
        end_points(stones, stones[i].team) >= 1,
        end_points(stones, other_team(stones[i].team)) == 0,
{
    lemma_counting_stone_scores(stones, stones[i].team, i, stones.len() as int);
    law_one_team_scores(stones);
    if stones[i].team == Team::One {
    } else {
    }
}

} // verus!
