//! Game state: the stones on the ice as the rules see them, pre-shot
//! snapshots, and the state of the match.
use vstd::prelude::*;

use crate::components::{other_team, CurlDirection, Phase, ShotType, Team};
use crate::constants::{
    DEFAULT_TOTAL_ENDS, DRAW_WEIGHT_BITS, FGZ_SHOTS, STONES_PER_TEAM, TEE_LINE_FAR_BITS, TOTAL_SHOTS,
};
use crate::helpers::{in_free_guard_zone, is_in_free_guard_zone};
use crate::scalar::{of_bits, Position, Scalar};

verus! {

// ============================================================================
// STONES AND SNAPSHOTS
// ============================================================================

/// A stone on the ice: its entity id, team, position and the distance of its
/// centre from the far tee (computed by the caller from the position).
#[derive(Clone, Copy, PartialEq, Eq, Debug, Structural)]
pub struct StoneOnIce {
    pub entity: u64,
    pub team: Team,
    pub position: Position,
    pub dist_to_tee: Scalar,
}

/// A stone as it was before a throw.
#[derive(Clone, Copy, PartialEq, Eq, Debug, Structural)]
pub struct StoneSnapshot {
    /// Entity id of the stone.
    pub entity: u64,
    /// Owning team.
    pub team: Team,
    /// Position before the throw.
    pub position: Position,
    /// Whether it was in the Free Guard Zone.
    pub in_fgz: bool,
}

/// Every stone on the ice before a throw.
#[derive(Clone, Debug)]
pub struct ShotSnapshot {
    /// The stones.
    pub stones: Vec<StoneSnapshot>,
    /// Whether the Free Guard Zone rule applies to the shot.
    pub fgz_active: bool,
}

/// The snapshot record of a stone.
pub open spec fn snapshot_of(s: StoneOnIce) -> StoneSnapshot {
    StoneSnapshot {
        entity: s.entity,
        team: s.team,
        position: s.position,
        in_fgz: in_free_guard_zone(s.position.y, s.dist_to_tee),
    }
}

/// Records every stone before the throw of shot `shot_index`, noting which
/// ones are guards in the Free Guard Zone and whether the rule applies.
pub fn snapshot_stones(stones: &Vec<StoneOnIce>, shot_index: u8) -> (r: ShotSnapshot)
    ensures
        r.stones@.len() == stones@.len(),
        forall|i: int| 0 <= i < stones@.len() ==> r.stones@[i] == snapshot_of(#[trigger] stones@[i]),
        r.fgz_active == (shot_index < FGZ_SHOTS),
{
    let mut snapshots: Vec<StoneSnapshot> = Vec::new();
    let mut i: usize = 0;
    while i < stones.len()
        invariant
            i <= stones.len(),
            snapshots@.len() == i,
            forall|j: int| 0 <= j < i ==> snapshots@[j] == snapshot_of(#[trigger] stones@[j]),
        decreases stones.len() - i,
    {
        let s = stones[i];
        let in_fgz = is_in_free_guard_zone(s.position.y, s.dist_to_tee);
        snapshots.push(
            StoneSnapshot { entity: s.entity, team: s.team, position: s.position, in_fgz },
        );
        i = i + 1;
    }
    ShotSnapshot { stones: snapshots, fgz_active: shot_index < FGZ_SHOTS }
}

/// The entity ids of the stones, in order.
pub fn entities_of(stones: &Vec<StoneOnIce>) -> (r: Vec<u64>)
    ensures
        r@.len() == stones@.len(),
        forall|i: int| 0 <= i < stones@.len() ==> r@[i] == (#[trigger] stones@[i]).entity,
{
    let mut ids: Vec<u64> = Vec::new();
    let mut i: usize = 0;
    while i < stones.len()
        invariant
            i <= stones.len(),
            ids@.len() == i,
            forall|j: int| 0 <= j < i ==> ids@[j] == (#[trigger] stones@[j]).entity,
        decreases stones.len() - i,
    {
        ids.push(stones[i].entity);
        i = i + 1;
    }
    ids
}

// ============================================================================
// GAME STATE
// ============================================================================

/// State of the match: phase, shot, called and aimed shot, scores and ends.
#[derive(Debug)]
pub struct GameState {
    /// Phase of the current shot.
    pub phase: Phase,
    /// Current shot of the end (0-15).
    pub shot_index: u8,
    /// Type of shot being played.
    pub shot_type: ShotType,
    /// Where the skip holds the broom.
    pub broom_position: Position,
    /// Called angle in degrees.
    pub called_angle_deg: Scalar,
    /// Called weight (1-10 scale).
    pub called_weight: Scalar,
    /// Current aim angle in degrees.
    pub aim_angle_deg: Scalar,
    /// Current aim weight (1-10 scale).
    pub aim_weight: Scalar,
    /// Entity of the stone in play, if any.
    pub thrown_stone: Option<u64>,
    /// Time every stone has been still.
    pub still_time: Scalar,
    /// Stones before the throw (for the Free Guard Zone rule).
    pub snapshot: Option<ShotSnapshot>,
    /// Curl for the next throw.
    pub curl_direction: CurlDirection,
    /// Current end (1-based).
    pub current_end: u8,
    /// Team 1's total.
    pub team1_score: u32,
    /// Team 2's total.
    pub team2_score: u32,
    /// Team throwing first this end (the other team has the hammer).
    pub first_throw_team: Team,
    /// Ends in the game.
    pub total_ends: u8,
    /// The end's points while they are shown: (team 1, team 2).
    pub pending_end_score: Option<(u32, u32)>,
    /// Entities of the stones that count (for highlighting).
    pub scoring_entities: Vec<u64>,
    /// Points of every finished end: (team 1, team 2).
    pub end_scores: Vec<(u32, u32)>,
    /// Team played by the computer, if any.
    pub ai_team: Option<Team>,
    /// Computer "thinking" time so far.
    pub ai_think_timer: Scalar,
    /// Both teams played by the computer.
    pub ai_vs_ai: bool,
}

/// The team that throws shot `shot_index` when `first` throws first.
pub open spec fn thrower(first: Team, shot_index: int) -> Team {
    if shot_index % 2 == 0 {
        first
    } else {
        other_team(first)
    }
}

impl GameState {
    /// The shot-level fields have their start-of-shot values: calling a draw
    /// with the broom on the far tee, angle 0, default draw weight, no stone
    /// in play, no snapshot and an in-turn.
    pub open spec fn fresh_shot_fields(&self) -> bool {
        &&& self.phase == Phase::CallingShot
        &&& self.shot_type == ShotType::Draw
        &&& self.broom_position == Position { x: of_bits(0), y: of_bits(TEE_LINE_FAR_BITS) }
        &&& self.called_angle_deg == of_bits(0)
        &&& self.called_weight == of_bits(DRAW_WEIGHT_BITS)
        &&& self.aim_angle_deg == of_bits(0)
        &&& self.aim_weight == of_bits(DRAW_WEIGHT_BITS)
        &&& self.thrown_stone is None
        &&& self.still_time == of_bits(0)
        &&& self.snapshot is None
        &&& self.curl_direction == CurlDirection::InTurn
    }

    /// The team throwing the current shot: the first-throw team on even
    /// shots, the other team on odd shots.
    pub fn current_team(&self) -> (r: Team)
        ensures
            r == thrower(self.first_throw_team, self.shot_index as int),
    {
        if self.shot_index % 2 == 0 {
            self.first_throw_team
        } else {
            self.first_throw_team.opponent()
        }
    }

    /// Prepares the state for a new end; scores, end number, hammer and
    /// history are kept.
    pub fn reset_for_new_end(&mut self)
        ensures
            final(self).fresh_shot_fields(),
            final(self).shot_index == 0,
            final(self).current_end == old(self).current_end,
            final(self).team1_score == old(self).team1_score,
            final(self).team2_score == old(self).team2_score,
            final(self).first_throw_team == old(self).first_throw_team,
            final(self).total_ends == old(self).total_ends,
            final(self).pending_end_score == old(self).pending_end_score,
            final(self).scoring_entities@ == old(self).scoring_entities@,
            final(self).end_scores@ == old(self).end_scores@,
            final(self).ai_team == old(self).ai_team,
            final(self).ai_think_timer == old(self).ai_think_timer,
            final(self).ai_vs_ai == old(self).ai_vs_ai,
    {
        self.phase = Phase::CallingShot;
        self.shot_index = 0;
        self.shot_type = ShotType::Draw;
        self.broom_position = Position { x: Scalar { bits: 0 }, y: Scalar { bits: TEE_LINE_FAR_BITS } };
        self.called_angle_deg = Scalar { bits: 0 };
        self.called_weight = ShotType::Draw.default_weight();
        self.aim_angle_deg = Scalar { bits: 0 };
        self.aim_weight = ShotType::Draw.default_weight();
        self.thrown_stone = None;
        self.still_time = Scalar { bits: 0 };
        self.snapshot = None;
        self.curl_direction = CurlDirection::InTurn;
    }
}

impl Default for GameState {
    /// A new game: end 1 of 8, shot 0, 0-0, Team 1 throwing first, no
    /// computer player.
    fn default() -> (r: GameState)
        ensures
            r.fresh_shot_fields(),
            r.shot_index == 0,
            r.current_end == 1,
            r.team1_score == 0,
            r.team2_score == 0,
            r.first_throw_team == Team::One,
            r.total_ends == DEFAULT_TOTAL_ENDS,
            r.pending_end_score is None,
            r.scoring_entities@.len() == 0,
            r.end_scores@.len() == 0,
            r.ai_team is None,
            r.ai_think_timer == of_bits(0),
            !r.ai_vs_ai,
    {
        GameState {
            phase: Phase::CallingShot,
            shot_index: 0,
            shot_type: ShotType::Draw,
            broom_position: Position { x: Scalar { bits: 0 }, y: Scalar { bits: TEE_LINE_FAR_BITS } },
            called_angle_deg: Scalar { bits: 0 },
            called_weight: ShotType::Draw.default_weight(),
            aim_angle_deg: Scalar { bits: 0 },
            aim_weight: ShotType::Draw.default_weight(),
            thrown_stone: None,
            still_time: Scalar { bits: 0 },
            snapshot: None,
            curl_direction: CurlDirection::InTurn,
            current_end: 1,
            team1_score: 0,
            team2_score: 0,
            first_throw_team: Team::One,
            total_ends: DEFAULT_TOTAL_ENDS,
            pending_end_score: None,
            scoring_entities: Vec::new(),
            end_scores: Vec::new(),
            ai_team: None,
            ai_think_timer: Scalar { bits: 0 },
            ai_vs_ai: false,
        }
    }
}

/// Over an end the two teams alternate: shots `i` and `i + 1` are thrown by
/// different teams, and with Team 1 throwing first the thrower of shot `i`
/// is `Team::from_shot_index(i)`.
pub proof fn law_turn_order(first: Team, i: int)
    ensures
        thrower(first, i) != thrower(first, i + 1),
        thrower(Team::One, i) == crate::components::team_for_index(i),
        thrower(first, 0) == first,
{
}

/// Stones `team` throws among the first `n` shots of an end.
pub open spec fn stones_thrown(first: Team, team: Team, n: nat) -> nat
    decreases n,
{
    if n == 0 {
        0
    } else {
        stones_thrown(first, team, (n - 1) as nat) + if thrower(first, n - 1) == team {
            1nat
        } else {
            0nat
        }
    }
}

/// Every two shots each team throws one stone.
proof fn lemma_stones_thrown_pairs(first: Team, team: Team, k: nat)
    ensures
        stones_thrown(first, team, 2 * k) == k,
    decreases k,
{
    if k > 0 {
        lemma_stones_thrown_pairs(first, team, (k - 1) as nat);
        assert(stones_thrown(first, team, (2 * k - 1) as nat) == stones_thrown(
            first,
            team,
            (2 * (k - 1)) as nat,
        ) + if thrower(first, 2 * k - 2) == team {
            1nat
        } else {
            0nat
        });
        assert(thrower(first, 2 * k - 2) != thrower(first, 2 * k - 1));
    }
}

/// Over the sixteen shots of an end each team throws its eight stones.
pub proof fn law_eight_stones_each(first: Team, team: Team)
    ensures
        stones_thrown(first, team, TOTAL_SHOTS as nat) == STONES_PER_TEAM,
{
    lemma_stones_thrown_pairs(first, team, 8);
}

} // verus!

verus! {

// ============================================================================
// SIDE SHEET GAMES
// ============================================================================

/// A computer-vs-computer game on a decorative side sheet.
#[derive(Debug)]
pub struct SideGameState {
    /// Which side sheet (-2, -1, 1, 2).
    pub sheet_id: i32,
    /// X offset of the sheet.
    pub x_offset: Scalar,
    /// Phase of the current shot.
    pub phase: Phase,
    /// Current shot (0-15).
    pub shot_index: u8,
    /// Team throwing first this end.
    pub first_throw_team: Team,
    /// Current end.
    pub current_end: u8,
    /// Stones on the sheet: team, position, curl, angular velocity.
    pub stones: Vec<(Team, Position, CurlDirection, Scalar)>,
    /// Length of the computer's thinking delay in seconds.
    pub ai_delay: Scalar,
    /// Shot about to be thrown: angle, weight, curl.
    pub pending_throw: Option<(Scalar, Scalar, CurlDirection)>,
    /// Entity of the moving stone.
    pub thrown_stone_entity: Option<u64>,
    /// Time the stones have been still.
    pub still_time: Scalar,
}

impl SideGameState {
    /// A new side game on sheet `sheet_id` at `x_offset` with a thinking
    /// delay of `initial_delay` seconds; a coin decides who throws first.
    pub fn new(sheet_id: i32, x_offset: Scalar, initial_delay: Scalar) -> (r: SideGameState)
        ensures
            r.sheet_id == sheet_id,
            r.x_offset == x_offset,
            r.phase == Phase::CallingShot,
            r.shot_index == 0,
            r.current_end == 1,
            r.stones@.len() == 0,
            r.ai_delay == initial_delay,
            r.pending_throw is None,
            r.thrown_stone_entity is None,
            r.still_time == of_bits(0),
    {
        let first_throw_team = crate::game_logic::first_team_for_coin(crate::random::random_bool());
        SideGameState {
            sheet_id,
            x_offset,
            phase: Phase::CallingShot,
            shot_index: 0,
            first_throw_team,
            current_end: 1,
            stones: Vec::new(),
            ai_delay: initial_delay,
            pending_throw: None,
            thrown_stone_entity: None,
            still_time: Scalar { bits: 0 },
        }
    }

    /// The team throwing the current shot.
    pub fn current_team(&self) -> (r: Team)
        ensures
            r == thrower(self.first_throw_team, self.shot_index as int),
    {
        if self.shot_index % 2 == 0 {
            self.first_throw_team
        } else {
            self.first_throw_team.opponent()
        }
    }

    /// Starts the next end: clears the sheet, advances the end and swaps who
    /// throws first.
    pub fn reset_for_new_end(&mut self)
        requires
            old(self).current_end < 255,
        ensures
            final(self).phase == Phase::CallingShot,
            final(self).shot_index == 0,
            final(self).stones@.len() == 0,
            final(self).pending_throw is None,
            final(self).thrown_stone_entity is None,
            final(self).still_time == of_bits(0),
            final(self).current_end == old(self).current_end + 1,
            final(self).first_throw_team == other_team(old(self).first_throw_team),
            final(self).sheet_id == old(self).sheet_id,
            final(self).x_offset == old(self).x_offset,
            final(self).ai_delay == old(self).ai_delay,
    {
        self.phase = Phase::CallingShot;
        self.shot_index = 0;
        self.stones.clear();
        self.pending_throw = None;
        self.thrown_stone_entity = None;
        self.still_time = Scalar { bits: 0 };
        self.current_end = self.current_end + 1;
        self.first_throw_team = self.first_throw_team.opponent();
    }
}

/// All side sheet games: (sheet id, x offset, game).
#[derive(Debug)]
pub struct SideSheetGames {
    pub games: Vec<(i32, Scalar, GameState)>,
}

impl Default for SideSheetGames {
    fn default() -> (r: SideSheetGames)
        ensures
            r.games@.len() == 0,
    {
        SideSheetGames { games: Vec::new() }
    }
}

} // verus!
