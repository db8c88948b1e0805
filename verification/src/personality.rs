//! Player personalities: each team's four players, their skills, and which
//! of them throws a given shot.
use vstd::prelude::*;

use crate::components::Team;
use crate::random::random_index;
use crate::resources::thrower;

verus! {

/// A player's position on the team, in throwing order.
#[derive(Clone, Copy, PartialEq, Eq, Debug, Structural)]
pub enum PlayerPosition {
    Lead,
    Second,
    Third,
    Skip,
}

/// How well a player controls weight.
#[derive(Clone, Copy, PartialEq, Eq, Debug, Structural)]
pub enum WeightSkill {
    Good,
    Average,
    Poor,
    TendsHeavy,
    TendsLight,
}

/// How well a player aims.
#[derive(Clone, Copy, PartialEq, Eq, Debug, Structural)]
pub enum AimSkill {
    Good,
    Average,
    Poor,
    TendsWide,
    TendsNarrow,
}

/// The position that throws the team's stones `2k` and `2k + 1`.
pub open spec fn position_at(k: int) -> PlayerPosition {
    if k == 0 {
        PlayerPosition::Lead
    } else if k == 1 {
        PlayerPosition::Second
    } else if k == 2 {
        PlayerPosition::Third
    } else {
        PlayerPosition::Skip
    }
}

/// Display name of a PlayerPosition.
pub open spec fn position_label(x: PlayerPosition) -> Seq<char> {
    match x {
        PlayerPosition::Lead => "Lead"@,
        PlayerPosition::Second => "Second"@,
        PlayerPosition::Third => "Third"@,
        PlayerPosition::Skip => "Skip"@,
    }
}

impl PlayerPosition {
    /// Display name.
    pub fn name(self) -> (r: &'static str)
        ensures
            r@ == position_label(self),
    {
        match self {
            PlayerPosition::Lead => "Lead",
            PlayerPosition::Second => "Second",
            PlayerPosition::Third => "Third",
            PlayerPosition::Skip => "Skip",
        }
    }

    /// The position with throwing-order index `k` (0 lead ... 3 skip).
    pub fn from_index(k: usize) -> (r: PlayerPosition)
        requires
            k < 4,
        ensures
            r == position_at(k as int),
    {
        if k == 0 {
            PlayerPosition::Lead
        } else if k == 1 {
            PlayerPosition::Second
        } else if k == 2 {
            PlayerPosition::Third
        } else {
            PlayerPosition::Skip
        }
    }
}

/// Skill score of a weight skill: 2 good, 1 average or biased, 0 poor.
pub open spec fn weight_score(w: WeightSkill) -> u8 {
    match w {
        WeightSkill::Good => 2,
        WeightSkill::Average => 1,
        WeightSkill::Poor => 0,
        WeightSkill::TendsHeavy => 1,
        WeightSkill::TendsLight => 1,
    }
}

/// Skill score of an aim skill: 2 good, 1 average or biased, 0 poor.
pub open spec fn aim_score(a: AimSkill) -> u8 {
    match a {
        AimSkill::Good => 2,
        AimSkill::Average => 1,
        AimSkill::Poor => 0,
        AimSkill::TendsWide => 1,
        AimSkill::TendsNarrow => 1,
    }
}

/// Display name of a WeightSkill.
pub open spec fn weight_label(x: WeightSkill) -> Seq<char> {
    match x {
        WeightSkill::Good => "Good weight"@,
        WeightSkill::Average => "Average weight"@,
        WeightSkill::Poor => "Poor weight"@,
        WeightSkill::TendsHeavy => "Tends heavy"@,
        WeightSkill::TendsLight => "Tends light"@,
    }
}

impl WeightSkill {
    /// Skill score (higher is better).
    pub fn score(self) -> (r: u8)
        ensures
            r == weight_score(self),
    {
        match self {
            WeightSkill::Good => 2,
            WeightSkill::Average => 1,
            WeightSkill::Poor => 0,
            WeightSkill::TendsHeavy => 1,
            WeightSkill::TendsLight => 1,
        }
    }

    /// Display name.
    pub fn name(self) -> (r: &'static str)
        ensures
            r@ == weight_label(self),
    {
        match self {
            WeightSkill::Good => "Good weight",
            WeightSkill::Average => "Average weight",
            WeightSkill::Poor => "Poor weight",
            WeightSkill::TendsHeavy => "Tends heavy",
            WeightSkill::TendsLight => "Tends light",
        }
    }
}

/// Display name of a AimSkill.
pub open spec fn aim_label(x: AimSkill) -> Seq<char> {
    match x {
        AimSkill::Good => "Good aim"@,
        AimSkill::Average => "Average aim"@,
        AimSkill::Poor => "Poor aim"@,
        AimSkill::TendsWide => "Tends wide"@,
        AimSkill::TendsNarrow => "Tends narrow"@,
    }
}

impl AimSkill {
    /// Skill score (higher is better).
    pub fn score(self) -> (r: u8)
        ensures
            r == aim_score(self),
    {
        match self {
            AimSkill::Good => 2,
            AimSkill::Average => 1,
            AimSkill::Poor => 0,
            AimSkill::TendsWide => 1,
            AimSkill::TendsNarrow => 1,
        }
    }

    /// Display name.
    pub fn name(self) -> (r: &'static str)
        ensures
            r@ == aim_label(self),
    {
        match self {
            AimSkill::Good => "Good aim",
            AimSkill::Average => "Average aim",
            AimSkill::Poor => "Poor aim",
            AimSkill::TendsWide => "Tends wide",
            AimSkill::TendsNarrow => "Tends narrow",
        }
    }
}

/// One player's position and skills.
#[derive(Clone, Copy, PartialEq, Eq, Debug, Structural)]
pub struct PlayerPersonality {
    /// Position on the team.
    pub position: PlayerPosition,
    /// Weight control.
    pub weight_skill: WeightSkill,
    /// Aim.
    pub aim_skill: AimSkill,
}

impl PlayerPersonality {
    /// A player with the given position and skills.
    pub fn new(position: PlayerPosition, weight_skill: WeightSkill, aim_skill: AimSkill) -> (r:
        PlayerPersonality)
        ensures
            r.position == position,
            r.weight_skill == weight_skill,
            r.aim_skill == aim_skill,
    {
        PlayerPersonality { position, weight_skill, aim_skill }
    }

    /// Total skill score: weight score plus aim score.
    pub fn total_score(&self) -> (r: u8)
        ensures
            r == weight_score(self.weight_skill) + aim_score(self.aim_skill),
    {
        self.weight_skill.score() + self.aim_skill.score()
    }

    /// "Position: weight skill, aim skill".
    pub fn description(&self) -> (r: String)
        ensures
            r@ == position_label(self.position) + ": "@ + weight_label(self.weight_skill) + ", "@
                + aim_label(self.aim_skill),
    {
        let mut text = String::from_str(self.position.name());
        text.append(": ");
        text.append(self.weight_skill.name());
        text.append(", ");
        text.append(self.aim_skill.name());
        text
    }
}

/// Both teams' players, lead first and skip last.
#[derive(Clone, Copy, Debug)]
pub struct PlayerPersonalities {
    pub team1: [PlayerPersonality; 4],
    pub team2: [PlayerPersonality; 4],
}

/// The default roster: three average players and a good skip.
pub open spec fn default_player(k: int) -> PlayerPersonality {
    if k < 3 {
        PlayerPersonality {
            position: position_at(k),
            weight_skill: WeightSkill::Average,
            aim_skill: AimSkill::Average,
        }
    } else {
        PlayerPersonality {
            position: PlayerPosition::Skip,
            weight_skill: WeightSkill::Good,
            aim_skill: AimSkill::Good,
        }
    }
}

/// Which of the four players (0 lead ... 3 skip) throws shot `shot_index`:
/// each player throws two consecutive stones of the team.
pub open spec fn thrower_slot(shot_index: int) -> int {
    if (shot_index / 2) / 2 < 3 {
        (shot_index / 2) / 2
    } else {
        3
    }
}

impl Default for PlayerPersonalities {
    fn default() -> (r: PlayerPersonalities)
        ensures
            forall|k: int| 0 <= k < 4 ==> r.team1@[k] == default_player(k),
            forall|k: int| 0 <= k < 4 ==> r.team2@[k] == default_player(k),
    {
        let roster = [
            PlayerPersonality::new(PlayerPosition::Lead, WeightSkill::Average, AimSkill::Average),
            PlayerPersonality::new(PlayerPosition::Second, WeightSkill::Average, AimSkill::Average),
            PlayerPersonality::new(PlayerPosition::Third, WeightSkill::Average, AimSkill::Average),
            PlayerPersonality::new(PlayerPosition::Skip, WeightSkill::Good, AimSkill::Good),
        ];
        PlayerPersonalities { team1: roster, team2: roster }
    }
}

impl PlayerPersonalities {
    /// The player throwing shot `shot_index` when `first_throw_team` throws
    /// first: the throwing team's player in slot `min(shot_index / 4, 3)`.
    pub fn current_thrower(&self, shot_index: u8, first_throw_team: Team) -> (r: &PlayerPersonality)
        ensures
            thrower(first_throw_team, shot_index as int) == Team::One ==> *r
                == self.team1@[thrower_slot(shot_index as int)],
            thrower(first_throw_team, shot_index as int) == Team::Two ==> *r
                == self.team2@[thrower_slot(shot_index as int)],
    {
        let throwing_team = if shot_index % 2 == 0 {
            first_throw_team
        } else {
            first_throw_team.opponent()
        };
        let team_stone_index = shot_index / 2;
        let position_index = (team_stone_index / 2) as usize;
        let position_index = if position_index < 3 {
            position_index
        } else {
            3
        };
        match throwing_team {
            Team::One => &self.team1[position_index],
            Team::Two => &self.team2[position_index],
        }
    }
}

/// Over an end each team's players throw in order, two stones each: the
/// lead the first two, the second the next two, the third the next two and
/// the skip the last two (and anything later).
pub proof fn law_thrower_order(shot_index: int)
    requires
        0 <= shot_index,
    ensures
        thrower_slot(shot_index) == thrower_slot(shot_index + 1) || shot_index % 2 == 1,
        0 <= shot_index < 16 ==> thrower_slot(shot_index) == shot_index / 4,
        0 <= thrower_slot(shot_index) < 4,
        thrower_slot(shot_index) <= thrower_slot(shot_index + 1),
{
}

// ============================================================================
// GENERATION
// ============================================================================

/// Draw `j` goes before draw `i` when sorting by skill score: lower score,
/// or equal score and earlier draw (a stable sort).
pub open spec fn goes_before(scores: Seq<u8>, j: int, i: int) -> bool {
    scores[j] < scores[i] || (scores[j] == scores[i] && j < i)
}

/// How many of the first `n` draws go before draw `i`.
pub open spec fn count_before(scores: Seq<u8>, i: int, n: int) -> nat
    decreases n,
{
    if n <= 0 {
        0
    } else {
        count_before(scores, i, n - 1) + (if goes_before(scores, n - 1, i) {
            1nat
        } else {
            0nat
        })
    }
}

/// The place of draw `i` after a stable sort by score (0 = weakest).
pub open spec fn sorted_place(scores: Seq<u8>, i: int) -> int {
    count_before(scores, i, scores.len() as int) as int
}

/// Scores of a sequence of skill draws.
pub open spec fn draw_scores(draws: Seq<(WeightSkill, AimSkill)>) -> Seq<u8> {
    draws.map_values(|d: (WeightSkill, AimSkill)| (weight_score(d.0) + aim_score(d.1)) as u8)
}

proof fn lemma_count_before_bounded(scores: Seq<u8>, i: int, n: int)
    requires
        0 <= n <= scores.len(),
        0 <= i < scores.len(),
    ensures
        count_before(scores, i, n) <= n,
        i < n ==> count_before(scores, i, n) < n,
    decreases n,
{
    if n > 0 {
        lemma_count_before_bounded(scores, i, n - 1);
    }
}

proof fn lemma_count_before_grows(scores: Seq<u8>, i: int, k: int, n: int)
    requires
        0 <= n <= scores.len(),
        0 <= i < scores.len(),
        0 <= k < scores.len(),
        goes_before(scores, i, k),
    ensures
        count_before(scores, i, n) + (if i < n {
            1int
        } else {
            0int
        }) <= count_before(scores, k, n),
    decreases n,
{
    if n > 0 {
        lemma_count_before_grows(scores, i, k, n - 1);
    }
}

/// Distinct draws get distinct places, all below the number of draws.
pub proof fn lemma_sorted_places_distinct(scores: Seq<u8>, i: int, k: int)
    requires
        0 <= i < scores.len(),
        0 <= k < scores.len(),
    ensures
        0 <= sorted_place(scores, i) < scores.len(),
        0 <= sorted_place(scores, k) < scores.len(),
        i != k ==> sorted_place(scores, i) != sorted_place(scores, k),
{
    lemma_count_before_bounded(scores, i, scores.len() as int);
    lemma_count_before_bounded(scores, k, scores.len() as int);
    if i != k {
        if goes_before(scores, i, k) {
            lemma_count_before_grows(scores, i, k, scores.len() as int);
        } else {
            lemma_count_before_grows(scores, k, i, scores.len() as int);
        }
    }
}

/// Draw `i` as a player in the slot of its sorted place.
pub open spec fn placed_player(draws: Seq<(WeightSkill, AimSkill)>, i: int) -> PlayerPersonality {
    PlayerPersonality {
        position: position_at(sorted_place(draw_scores(draws), i)),
        weight_skill: draws[i].0,
        aim_skill: draws[i].1,
    }
}

/// The place of draw `i` among the four draws.
fn place_of(scores: &[u8; 4], i: usize) -> (r: usize)
    requires
        i < 4,
    ensures
        r == sorted_place(scores@, i as int),
        r < 4,
{
    let mut count: usize = 0;
    let mut j: usize = 0;
    while j < 4
        invariant
            j <= 4,
            i < 4,
            scores@.len() == 4,
            count == count_before(scores@, i as int, j as int),
            count <= j,
        decreases 4 - j,
    {
        if scores[j] < scores[i] || (scores[j] == scores[i] && j < i) {
            count = count + 1;
        }
        j = j + 1;
    }
    proof {
        lemma_sorted_places_distinct(scores@, i as int, i as int);
    }
    count
}

/// A team from four skill draws: the draws sorted by total score, weakest
/// first (stable for equal scores), given the positions lead, second,
/// third and skip in that order.
pub fn team_from_draws(draws: [(WeightSkill, AimSkill); 4]) -> (r: [PlayerPersonality; 4])
    ensures
        forall|i: int|
            0 <= i < 4 ==> #[trigger] r@[sorted_place(draw_scores(draws@), i)] == placed_player(
                draws@,
                i,
            ),
{
    let scores: [u8; 4] = [
        draws[0].0.score() + draws[0].1.score(),
        draws[1].0.score() + draws[1].1.score(),
        draws[2].0.score() + draws[2].1.score(),
        draws[3].0.score() + draws[3].1.score(),
    ];
    proof {
        assert(scores@ =~= draw_scores(draws@));
    }
    let mut players: Vec<PlayerPersonality> = Vec::new();
    let mut k: usize = 0;
    while k < 4
        invariant
            k <= 4,
            players@.len() == k,
        decreases 4 - k,
    {
        players.push(PlayerPersonality::new(PlayerPosition::Lead, draws[0].0, draws[0].1));
        k = k + 1;
    }
    proof {
        assert forall|m: int| 0 <= m < 4 implies 0 <= #[trigger] sorted_place(scores@, m) < 4 by {
            lemma_sorted_places_distinct(scores@, m, m);
        }
    }
    let mut i: usize = 0;
    while i < 4
        invariant
            i <= 4,
            players@.len() == 4,
            scores@ == draw_scores(draws@),
            forall|m: int| 0 <= m < 4 ==> 0 <= #[trigger] sorted_place(scores@, m) < 4,
            forall|m: int|
                0 <= m < i ==> #[trigger] players@[sorted_place(scores@, m)] == placed_player(
                    draws@,
                    m,
                ),
        decreases 4 - i,
    {
        let place = place_of(&scores, i);
        proof {
            assert forall|m: int| 0 <= m < i implies sorted_place(scores@, m) != place by {
                lemma_sorted_places_distinct(scores@, m, i as int);
            }
        }
        let player = PlayerPersonality::new(
            PlayerPosition::from_index(place),
            draws[i].0,
            draws[i].1,
        );
        players.set(place, player);
        i = i + 1;
    }
    let team = [players[0], players[1], players[2], players[3]];
    proof {
        assert(team@ =~= players@);
    }
    team
}

/// Places after sorting are a permutation: every slot of a generated team
/// holds exactly one of the draws, and the team is ordered by skill score.
pub proof fn law_generated_team_sorted(scores: Seq<u8>, i: int, k: int)
    requires
        scores.len() == 4,
        0 <= i < 4,
        0 <= k < 4,
        sorted_place(scores, i) < sorted_place(scores, k),
    ensures
        scores[i] <= scores[k],
        i != k,
{
    lemma_sorted_places_distinct(scores, i, k);
    if scores[k] < scores[i] {
        lemma_count_before_grows(scores, k, i, 4);
    }
}

/// Four random skill draws for one team.
fn draw_skills() -> (r: [(WeightSkill, AimSkill); 4]) {
    let weight_skills = [
        WeightSkill::Good,
        WeightSkill::Average,
        WeightSkill::Poor,
        WeightSkill::TendsHeavy,
        WeightSkill::TendsLight,
    ];
    let aim_skills = [
        AimSkill::Good,
        AimSkill::Average,
        AimSkill::Poor,
        AimSkill::TendsWide,
        AimSkill::TendsNarrow,
    ];
    let mut draws: Vec<(WeightSkill, AimSkill)> = Vec::new();
    let mut k: usize = 0;
    while k < 4
        invariant
            k <= 4,
            draws@.len() == k,
        decreases 4 - k,
    {
        let w = weight_skills[random_index(5)];
        let a = aim_skills[random_index(5)];
        draws.push((w, a));
        k = k + 1;
    }
    [draws[0], draws[1], draws[2], draws[3]]
}

/// Random personalities for both teams; within each team the players are
/// sorted so the weakest throws first (lead) and the strongest last (skip).
pub fn generate_player_personalities() -> (r: PlayerPersonalities)
    ensures
        forall|k: int| 0 <= k < 4 ==> (#[trigger] r.team1@[k]).position == position_at(k),
        forall|k: int| 0 <= k < 4 ==> (#[trigger] r.team2@[k]).position == position_at(k),
        forall|j: int, k: int|
            0 <= j < k < 4 ==> weight_score(r.team1@[j].weight_skill) + aim_score(
                r.team1@[j].aim_skill,
            ) <= weight_score(r.team1@[k].weight_skill) + aim_score(r.team1@[k].aim_skill),
        forall|j: int, k: int|
            0 <= j < k < 4 ==> weight_score(r.team2@[j].weight_skill) + aim_score(
                r.team2@[j].aim_skill,
            ) <= weight_score(r.team2@[k].weight_skill) + aim_score(r.team2@[k].aim_skill),
{
    let team1 = sorted_team(draw_skills());
    let team2 = sorted_team(draw_skills());
    PlayerPersonalities { team1, team2 }
}

/// `team_from_draws` with its slot properties spelled out per slot.
fn sorted_team(draws: [(WeightSkill, AimSkill); 4]) -> (r: [PlayerPersonality; 4])
    ensures
        forall|k: int| 0 <= k < 4 ==> (#[trigger] r@[k]).position == position_at(k),
        forall|j: int, k: int|
            0 <= j < k < 4 ==> weight_score(r@[j].weight_skill) + aim_score(r@[j].aim_skill)
                <= weight_score(r@[k].weight_skill) + aim_score(r@[k].aim_skill),
{
    let team = team_from_draws(draws);
    proof {
        let scores = draw_scores(draws@);
        assert forall|k: int| 0 <= k < 4 implies (#[trigger] team@[k]).position == position_at(
            k,
        ) by {
            lemma_places_cover(scores, k);
            let i = choose|i: int| 0 <= i < 4 && #[trigger] sorted_place(scores, i) == k;
            assert(team@[sorted_place(scores, i)] == team@[k]);
        }
        assert forall|j: int, k: int| 0 <= j < k < 4 implies weight_score(team@[j].weight_skill)
            + aim_score(team@[j].aim_skill) <= weight_score(team@[k].weight_skill) + aim_score(
            team@[k].aim_skill,
        ) by {
            lemma_places_cover(scores, j);
            lemma_places_cover(scores, k);
            let a = choose|i: int| 0 <= i < 4 && #[trigger] sorted_place(scores, i) == j;
            let b = choose|i: int| 0 <= i < 4 && #[trigger] sorted_place(scores, i) == k;
            assert(team@[sorted_place(scores, a)] == team@[j]);
            assert(team@[sorted_place(scores, b)] == team@[k]);
            law_generated_team_sorted(scores, a, b);
        }
    }
    team
}

/// The four places of four draws are exactly 0, 1, 2 and 3.
proof fn lemma_places_cover(scores: Seq<u8>, k: int)
    requires
        scores.len() == 4,
        0 <= k < 4,
    ensures
        exists|i: int| 0 <= i < 4 && #[trigger] sorted_place(scores, i) == k,
{
    lemma_sorted_places_distinct(scores, 0, 1);
    lemma_sorted_places_distinct(scores, 0, 2);
    lemma_sorted_places_distinct(scores, 0, 3);
    lemma_sorted_places_distinct(scores, 1, 2);
    lemma_sorted_places_distinct(scores, 1, 3);
    lemma_sorted_places_distinct(scores, 2, 3);
    let p0 = sorted_place(scores, 0);
    let p1 = sorted_place(scores, 1);
    let p2 = sorted_place(scores, 2);
    let p3 = sorted_place(scores, 3);
    assert(p0 != p1 && p0 != p2 && p0 != p3 && p1 != p2 && p1 != p3 && p2 != p3);
    assert(p0 == k || p1 == k || p2 == k || p3 == k);
}

} // verus!
