//! Online play: room codes, the online menu and lobby, the messages each
//! side applies, and which side acts on each shot.
use vstd::prelude::*;

use crate::app_state::{local_team_for_role, AppState, NetworkRole};
use crate::camera::{CameraState, FOLLOW_START_HEIGHT_BITS};
use crate::components::{other_team, CameraMode, CurlDirection, Phase, Team};
use crate::network::{GameMessage, StoneState};
use crate::random::random_index;
use crate::resources::{thrower, GameState, ShotSnapshot};
use crate::scalar::{of_bits, real_le, real_lt, Position, Scalar};
use crate::text::{pop_char, push_char, to_uppercase, uppercased};

verus! {

/// Letters and digits a room code is made of (no easily confused ones).
pub open spec fn room_code_alphabet() -> Seq<char> {
    "ABCDEFGHJKLMNPQRSTUVWXYZ23456789"@
}

/// Characters in a room code.
pub const ROOM_CODE_LENGTH: usize = 4;

/// The room code made of the alphabet's characters at the drawn positions.
pub open spec fn code_from_draws(draws: Seq<usize>) -> Seq<char> {
    Seq::new(draws.len(), |i: int| room_code_alphabet()[draws[i] as int])
}

/// The room code for four positions in the alphabet (each below 32).
pub fn room_code_from_draws(draws: &Vec<usize>) -> (r: String)
    requires
        draws@.len() == ROOM_CODE_LENGTH,
        forall|i: int| 0 <= i < draws@.len() ==> #[trigger] draws@[i] < 32,
    ensures
        r@ == code_from_draws(draws@),
{
    let alphabet = "ABCDEFGHJKLMNPQRSTUVWXYZ23456789";
    proof {
        reveal_strlit("ABCDEFGHJKLMNPQRSTUVWXYZ23456789");
    }
    let mut code = String::new();
    let mut k: usize = 0;
    while k < draws.len()
        invariant
            k <= draws@.len(),
            alphabet@ == room_code_alphabet(),
            alphabet@.len() == 32,
            forall|i: int| 0 <= i < draws@.len() ==> #[trigger] draws@[i] < 32,
            code@ == code_from_draws(draws@.take(k as int)),
        decreases draws@.len() - k,
    {
        let idx = draws[k];
        let ch = alphabet.substring_char(idx, idx + 1);
        code.append(ch);
        proof {
            assert(code@ =~= code_from_draws(draws@.take(k + 1)));
        }
        k = k + 1;
    }
    proof {
        assert(draws@.take(draws@.len() as int) =~= draws@);
    }
    code
}

/// A random four-character room code drawn from the alphabet: four uniform
/// positions in the alphabet, each read off as its character.
pub fn generate_room_code() -> (r: String)
    ensures
        r@.len() == ROOM_CODE_LENGTH,
        forall|i: int| 0 <= i < r@.len() ==> room_code_alphabet().contains(#[trigger] r@[i]),
{
    let mut draws: Vec<usize> = Vec::new();
    let mut k: usize = 0;
    while k < ROOM_CODE_LENGTH
        invariant
            k <= ROOM_CODE_LENGTH,
            draws@.len() == k,
            forall|i: int| 0 <= i < draws@.len() ==> #[trigger] draws@[i] < 32,
        decreases ROOM_CODE_LENGTH - k,
    {
        draws.push(random_index(32));
        k = k + 1;
    }
    let code = room_code_from_draws(&draws);
    proof {
        reveal_strlit("ABCDEFGHJKLMNPQRSTUVWXYZ23456789");
        assert forall|i: int| 0 <= i < code@.len() implies room_code_alphabet().contains(
            #[trigger] code@[i],
        ) by {
            assert(room_code_alphabet()[draws@[i] as int] == code@[i]);
        }
    }
    code
}

/// Whether the local player is throwing: always when no team is assigned,
/// otherwise when the current shot belongs to the local team.
pub fn is_local_turn(state: &GameState, online_state: &OnlineState) -> (r: bool)
    ensures
        r == local_turn(*state, online_state.local_team),
{
    match online_state.local_team {
        Some(t) => state.current_team() == t,
        None => true,
    }
}

/// The team that threw the shot just resolved, as used to decide who sends
/// the final stone positions: the thrower of shot `shot_index - 1` (of shot
/// 0 at the start of an end).
pub fn resolution_sender_team(state: &GameState) -> (r: Team)
    ensures
        r == thrower(
            state.first_throw_team,
            if state.shot_index == 0 {
                0
            } else {
                state.shot_index - 1
            },
        ),
{
    let prev_shot = if state.shot_index == 0 {
        0
    } else {
        state.shot_index - 1
    };
    if prev_shot % 2 == 0 {
        state.first_throw_team
    } else {
        state.first_throw_team.opponent()
    }
}

/// The team that threw last, as used to decide whether to take the
/// opponent's stone positions: at the start of an end the team that threw
/// second (the hammer), otherwise the thrower of the previous shot.
pub fn last_throwing_team(state: &GameState) -> (r: Team)
    ensures
        state.shot_index == 0 ==> r == other_team(state.first_throw_team),
        state.shot_index > 0 ==> r == thrower(state.first_throw_team, state.shot_index - 1),
{
    if state.shot_index == 0 {
        state.first_throw_team.opponent()
    } else {
        let prev_index = state.shot_index - 1;
        if prev_index % 2 == 0 {
            state.first_throw_team
        } else {
            state.first_throw_team.opponent()
        }
    }
}


// ============================================================================
// ONLINE STATE
// ============================================================================

/// The opponent's throw, received and waiting to be played on this side.
#[derive(Clone, Copy, PartialEq, Eq, Debug, Structural)]
pub struct PendingShot {
    pub angle: Scalar,
    pub weight: Scalar,
    pub curl: CurlDirection,
}

/// The state of an online session.
#[derive(Clone, Debug)]
pub struct OnlineState {
    /// Code of the room (e.g. "ABC1").
    pub room_code: String,
    /// This side created the room.
    pub is_host: bool,
    /// The opponent has joined.
    pub opponent_connected: bool,
    /// The opponent left during the game.
    pub opponent_disconnected: bool,
    /// The room code being typed to join a room.
    pub input_room_code: String,
    /// The team this side plays (host Team 1, guest Team 2).
    pub local_team: Option<Team>,
    /// The opponent's throw waiting to be played.
    pub pending_shot: Option<PendingShot>,
    /// Where the opponent's stones came to rest after their shot.
    pub pending_positions: Option<Vec<(Team, Scalar, Scalar)>>,
    /// Stone positions of the opponent's moving shot.
    pub pending_periodic_sync: Option<Vec<(Team, Scalar, Scalar)>>,
    /// Where the opponent holds the broom.
    pub pending_broom_position: Option<(Scalar, Scalar)>,
}

impl Default for OnlineState {
    /// No room, no opponent, nothing pending.
    fn default() -> (r: OnlineState)
        ensures
            r.room_code@ == Seq::<char>::empty(),
            !r.is_host,
            !r.opponent_connected,
            !r.opponent_disconnected,
            r.input_room_code@ == Seq::<char>::empty(),
            r.local_team is None,
            r.pending_shot is None,
            r.pending_positions is None,
            r.pending_periodic_sync is None,
            r.pending_broom_position is None,
    {
        OnlineState {
            room_code: String::new(),
            is_host: false,
            opponent_connected: false,
            opponent_disconnected: false,
            input_room_code: String::new(),
            local_team: None,
            pending_shot: None,
            pending_positions: None,
            pending_periodic_sync: None,
            pending_broom_position: None,
        }
    }
}

/// Whether this side throws the current shot (a side without a team acts
/// on every shot).
pub open spec fn local_turn(state: GameState, local_team: Option<Team>) -> bool {
    match local_team {
        Some(t) => thrower(state.first_throw_team, state.shot_index as int) == t,
        None => true,
    }
}

/// Whether the opponent throws the current shot: this side has a team and
/// the shot is not its own.
pub open spec fn opponent_turn(state: GameState, local_team: Option<Team>) -> bool {
    match local_team {
        Some(t) => thrower(state.first_throw_team, state.shot_index as int) != t,
        None => false,
    }
}

/// Starts the online game: the host plays Team 1, the guest Team 2 (Team 1
/// without a role); nothing from an earlier game stays pending.
pub fn setup_online_game(online: &mut OnlineState, role: NetworkRole)
    ensures
        final(online).local_team == Some(
            if role == NetworkRole::Guest {
                Team::Two
            } else {
                Team::One
            },
        ),
        *final(online) == (OnlineState {
            local_team: final(online).local_team,
            pending_shot: None,
            pending_positions: None,
            ..*old(online)
        }),
{
    online.local_team = Some(local_team_for_role(role));
    online.pending_shot = None;
    online.pending_positions = None;
}

// ============================================================================
// MESSAGES RECEIVED
// ============================================================================

/// The stones of a message as kept until they are applied.
pub open spec fn stone_entries(stones: Seq<StoneState>) -> Seq<(Team, Scalar, Scalar)> {
    stones.map_values(|s: StoneState| (s.team, s.x, s.y))
}

fn entries_of(stones: &Vec<StoneState>) -> (r: Vec<(Team, Scalar, Scalar)>)
    ensures
        r@ == stone_entries(stones@),
{
    let mut out: Vec<(Team, Scalar, Scalar)> = Vec::new();
    let mut i: usize = 0;
    while i < stones.len()
        invariant
            i <= stones.len(),
            out@ == stone_entries(stones@.take(i as int)),
        decreases stones.len() - i,
    {
        let s = stones[i];
        out.push((s.team, s.x, s.y));
        proof {
            assert(stone_entries(stones@.take(i + 1)) =~= stone_entries(stones@.take(i as int)).push(
                (s.team, s.x, s.y),
            ));
        }
        i = i + 1;
    }
    proof {
        assert(stones@.take(stones@.len() as int) =~= stones@);
    }
    out
}

/// Takes in a message from the opponent: a throw, a broom position, the
/// stones' final or moving positions are kept to be applied; the other
/// messages change nothing.
pub fn receive_message(online: &mut OnlineState, message: GameMessage)
    ensures
        match message {
            GameMessage::ShotThrown { angle, weight, curl } => *final(online) == (OnlineState {
                pending_shot: Some(PendingShot { angle, weight, curl }),
                ..*old(online)
            }),
            GameMessage::BroomUpdate { x, y } => *final(online) == (OnlineState {
                pending_broom_position: Some((x, y)),
                ..*old(online)
            }),
            GameMessage::ShotResolved { stones } => {
                &&& final(online).pending_positions matches Some(v) && v@ == stone_entries(stones@)
                &&& *final(online) == (OnlineState {
                    pending_positions: final(online).pending_positions,
                    ..*old(online)
                })
            },
            GameMessage::PositionSync { stones } => {
                &&& final(online).pending_periodic_sync matches Some(v) && v@ == stone_entries(
                    stones@,
                )
                &&& *final(online) == (OnlineState {
                    pending_periodic_sync: final(online).pending_periodic_sync,
                    ..*old(online)
                })
            },
            _ => *final(online) == *old(online),
        },
{
    match message {
        GameMessage::ShotThrown { angle, weight, curl } => {
            online.pending_shot = Some(PendingShot { angle, weight, curl });
        },
        GameMessage::BroomUpdate { x, y } => {
            online.pending_broom_position = Some((x, y));
        },
        GameMessage::ShotResolved { stones } => {
            online.pending_positions = Some(entries_of(&stones));
        },
        GameMessage::PositionSync { stones } => {
            online.pending_periodic_sync = Some(entries_of(&stones));
        },
        _ => {},
    }
}

// ============================================================================
// WHAT EACH SIDE SENDS
// ============================================================================

/// Still time (seconds) up to which a stone counts as just thrown (0.01).
pub const JUST_THROWN_BITS: u32 = 0x3c23_d70a;

/// The throw to send to the opponent: right after this side threw (the
/// stone moves and has not been still for more than 0.01 s) on its own
/// shot, the aimed angle, weight and curl; nothing otherwise.
pub fn shot_to_send(state: &GameState, online: &OnlineState) -> (r: Option<GameMessage>)
    ensures
        (state.phase == Phase::StoneMoving && !real_lt(of_bits(JUST_THROWN_BITS), state.still_time)
            && online.local_team is Some && local_turn(*state, online.local_team)) <==> r is Some,
        r matches Some(m) ==> m matches GameMessage::ShotThrown { angle, weight, curl } && angle
            == state.aim_angle_deg && weight == state.aim_weight && curl == state.curl_direction,
{
    if state.phase != Phase::StoneMoving || state.still_time.gt(Scalar { bits: JUST_THROWN_BITS }) {
        return None;
    }
    match online.local_team {
        Some(t) => {
            if state.current_team() != t {
                return None;
            }
            Some(
                GameMessage::ShotThrown {
                    angle: state.aim_angle_deg,
                    weight: state.aim_weight,
                    curl: state.curl_direction,
                },
            )
        },
        None => None,
    }
}

/// Side `t` threw the shot before the current one, as the sending side
/// counts it (shot 0 counts as its own predecessor).
pub open spec fn threw_previous(state: GameState, t: Team) -> bool {
    thrower(
        state.first_throw_team,
        if state.shot_index == 0 {
            0
        } else {
            state.shot_index - 1
        },
    ) == t
}

/// The opponent of side `t` threw last, as the receiving side counts it (at
/// the start of an end the team that threw second).
pub open spec fn opponent_threw_last(state: GameState, t: Team) -> bool {
    (if state.shot_index == 0 {
        other_team(state.first_throw_team)
    } else {
        thrower(state.first_throw_team, state.shot_index - 1)
    }) != t
}

/// Whether this side sends the stones' final positions now: the shot is
/// resolved (no stone moving, not resolving), they were not yet sent for
/// this shot index, and this side threw the previous shot.
pub fn should_send_resolution(state: &GameState, online: &OnlineState, sent_for_shot: Option<u8>) -> (r: bool)
    ensures
        r == (state.phase != Phase::Resolve && state.phase != Phase::StoneMoving && sent_for_shot
            != Some(state.shot_index) && match online.local_team {
            Some(t) => threw_previous(*state, t),
            None => false,
        }),
{
    if state.phase == Phase::Resolve || state.phase == Phase::StoneMoving {
        return false;
    }
    if sent_for_shot == Some(state.shot_index) {
        return false;
    }
    match online.local_team {
        Some(t) => resolution_sender_team(state) == t,
        None => false,
    }
}

/// What the periodic position sync does this frame.
#[derive(Clone, Copy, PartialEq, Eq, Debug, Structural)]
pub enum SyncStep {
    /// No stone is moving: restart the sync timer.
    ResetTimer,
    /// Not this side's shot (or no team): nothing.
    Idle,
    /// This side's shot is moving: advance the timer and send when it fires.
    Tick,
}

/// The periodic sync while stones move: only the side that threw sends.
pub fn periodic_sync_step(state: &GameState, online: &OnlineState) -> (r: SyncStep)
    ensures
        state.phase != Phase::StoneMoving ==> r == SyncStep::ResetTimer,
        state.phase == Phase::StoneMoving ==> r == (if online.local_team is Some && local_turn(
            *state,
            online.local_team,
        ) {
            SyncStep::Tick
        } else {
            SyncStep::Idle
        }),
{
    if state.phase != Phase::StoneMoving {
        return SyncStep::ResetTimer;
    }
    match online.local_team {
        Some(t) => if state.current_team() == t {
            SyncStep::Tick
        } else {
            SyncStep::Idle
        },
        None => SyncStep::Idle,
    }
}

/// Whether this side may send its broom position: while calling or aiming
/// its own shot.  (The caller also waits for the broom to move 0.05.)
pub fn broom_update_allowed(state: &GameState, online: &OnlineState) -> (r: bool)
    ensures
        r == ((state.phase == Phase::CallingShot || state.phase == Phase::Aiming)
            && online.local_team is Some && local_turn(*state, online.local_team)),
{
    if state.phase != Phase::CallingShot && state.phase != Phase::Aiming {
        return false;
    }
    match online.local_team {
        Some(t) => state.current_team() == t,
        None => false,
    }
}

// ============================================================================
// WHAT EACH SIDE APPLIES
// ============================================================================

/// When the team has two or more entries, none of their distances is NaN
/// (they are compared with each other).
pub open spec fn team_distances_comparable(team: Team, entries: Seq<(Team, Scalar, Scalar)>, dist2: Seq<Scalar>) -> bool {
    forall|i: int, j: int|
        #![trigger entries[i], entries[j]]
        0 <= i < entries.len() && 0 <= j < entries.len() && i != j && entries[i].0 == team
            && entries[j].0 == team ==> !dist2[i].nan()
}

/// The synced entry a local stone of `team` is moved toward: among the
/// entries of that team, the first with the smallest squared distance
/// (`dist2[i]` for entry `i`, computed by the caller); none when the team
/// has no entry.  Distances of the team's entries are compared with each
/// other, so none of them may be NaN when there are two or more.
pub fn closest_entry(team: Team, entries: &Vec<(Team, Scalar, Scalar)>, dist2: &Vec<Scalar>) -> (r: Option<usize>)
    requires
        entries@.len() == dist2@.len(),
        team_distances_comparable(team, entries@, dist2@),
    ensures
        match r {
            None => forall|j: int| 0 <= j < entries@.len() ==> (#[trigger] entries@[j]).0 != team,
            Some(k) => {
                &&& k < entries@.len()
                &&& entries@[k as int].0 == team
                &&& forall|j: int|
                    0 <= j < k && (#[trigger] entries@[j]).0 == team ==> real_lt(dist2@[k as int], dist2@[j])
                &&& forall|j: int|
                    k < j < entries@.len() && (#[trigger] entries@[j]).0 == team ==> real_le(
                        dist2@[k as int],
                        dist2@[j],
                    )
            },
        },
{
    let mut best: Option<usize> = None;
    let mut i: usize = 0;
    while i < entries.len()
        invariant
            i <= entries.len(),
            entries@.len() == dist2@.len(),
            team_distances_comparable(team, entries@, dist2@),
            match best {
                None => forall|j: int| 0 <= j < i ==> (#[trigger] entries@[j]).0 != team,
                Some(k) => {
                    &&& k < i
                    &&& entries@[k as int].0 == team
                    &&& forall|j: int|
                        0 <= j < k && (#[trigger] entries@[j]).0 == team ==> real_lt(
                            dist2@[k as int],
                            dist2@[j],
                        )
                    &&& forall|j: int|
                        k < j < i && (#[trigger] entries@[j]).0 == team ==> real_le(
                            dist2@[k as int],
                            dist2@[j],
                        )
                },
            },
        decreases entries.len() - i,
    {
        if entries[i].0 == team {
            match best {
                None => {
                    best = Some(i);
                },
                Some(k) => {
                    proof {
                        assert(entries@[i as int].0 == team && entries@[k as int].0 == team);
                    }
                    if dist2[i].lt(dist2[k]) {
                        best = Some(i);
                    }
                },
            }
        }
        i = i + 1;
    }
    best
}

/// During the opponent's moving shot, takes the positions they synced (to
/// be blended into the local stones); `None` and nothing taken otherwise.
pub fn take_periodic_sync(state: &GameState, online: &mut OnlineState) -> (r: Option<
    Vec<(Team, Scalar, Scalar)>,
>)
    ensures
        state.phase == Phase::StoneMoving && opponent_turn(*state, old(online).local_team) ==> {
            &&& r == old(online).pending_periodic_sync
            &&& *final(online) == (OnlineState { pending_periodic_sync: None, ..*old(online) })
        },
        !(state.phase == Phase::StoneMoving && opponent_turn(*state, old(online).local_team)) ==> {
            &&& r is None
            &&& *final(online) == *old(online)
        },
{
    if state.phase != Phase::StoneMoving {
        return None;
    }
    match online.local_team {
        Some(t) => {
            if state.current_team() == t {
                return None;
            }
            online.pending_periodic_sync.take()
        },
        None => None,
    }
}

/// During the opponent's shot the broom goes where they hold it (once per
/// update received); on this side's own shot nothing changes.
pub fn apply_broom_updates(state: &mut GameState, online: &mut OnlineState)
    ensures
        opponent_turn(*old(state), old(online).local_team) ==> match old(
            online,
        ).pending_broom_position {
            Some(p) => {
                &&& *final(state) == (GameState {
                    broom_position: Position { x: p.0, y: p.1 },
                    ..*old(state)
                })
                &&& *final(online) == (OnlineState { pending_broom_position: None, ..*old(online) })
            },
            None => {
                &&& *final(state) == *old(state)
                &&& *final(online) == *old(online)
            },
        },
        !opponent_turn(*old(state), old(online).local_team) ==> *final(state) == *old(state)
            && *final(online) == *old(online),
{
    match online.local_team {
        Some(t) => {
            if state.current_team() == t {
                return ;
            }
        },
        None => {
            return ;
        },
    }
    if let Some((x, y)) = online.pending_broom_position.take() {
        state.broom_position = Position { x, y };
    }
}

/// While the opponent calls or aims their shot, takes their throw if it has
/// arrived; `None` and nothing taken otherwise.
pub fn take_pending_shot(state: &GameState, online: &mut OnlineState) -> (r: Option<PendingShot>)
    ensures
        (state.phase == Phase::CallingShot || state.phase == Phase::Aiming) && opponent_turn(
            *state,
            old(online).local_team,
        ) ==> {
            &&& r == old(online).pending_shot
            &&& *final(online) == (OnlineState { pending_shot: None, ..*old(online) })
        },
        !((state.phase == Phase::CallingShot || state.phase == Phase::Aiming) && opponent_turn(
            *state,
            old(online).local_team,
        )) ==> {
            &&& r is None
            &&& *final(online) == *old(online)
        },
{
    if state.phase != Phase::CallingShot && state.phase != Phase::Aiming {
        return None;
    }
    match online.local_team {
        Some(t) => {
            if state.current_team() == t {
                return None;
            }
            online.pending_shot.take()
        },
        None => None,
    }
}

/// Plays the opponent's throw on this side: the snapshot and the stone
/// in play are recorded, the aim and curl are theirs and the stone moves.
pub fn apply_opponent_throw(state: &mut GameState, shot: PendingShot, snapshot: ShotSnapshot, thrown: u64)
    ensures
        *final(state) == (GameState {
            snapshot: Some(snapshot),
            thrown_stone: Some(thrown),
            still_time: of_bits(0),
            aim_angle_deg: shot.angle,
            aim_weight: shot.weight,
            curl_direction: shot.curl,
            phase: Phase::StoneMoving,
            ..*old(state)
        }),
{
    state.snapshot = Some(snapshot);
    state.thrown_stone = Some(thrown);
    state.still_time = Scalar { bits: 0 };
    state.aim_angle_deg = shot.angle;
    state.aim_weight = shot.weight;
    state.curl_direction = shot.curl;
    state.phase = Phase::StoneMoving;
}

/// After the opponent's shot is resolved (calling the next shot or showing
/// the end's score), takes the final positions they sent, which replace the
/// local stones; `None` and nothing taken otherwise or when this side threw.
pub fn take_stone_positions(state: &GameState, online: &mut OnlineState) -> (r: Option<
    Vec<(Team, Scalar, Scalar)>,
>)
    ensures
        ({
            let applies = (state.phase == Phase::CallingShot || state.phase == Phase::ShowingScore)
                && match old(online).local_team {
                Some(t) => opponent_threw_last(*state, t),
                None => false,
            };
            &&& applies ==> r == old(online).pending_positions
            &&& applies ==> *final(online) == (OnlineState { pending_positions: None, ..*old(online) })
            &&& !applies ==> r is None
            &&& !applies ==> *final(online) == *old(online)
        }),
{
    if state.phase != Phase::CallingShot && state.phase != Phase::ShowingScore {
        return None;
    }
    match online.local_team {
        Some(t) => {
            if last_throwing_team(state) == t {
                return None;
            }
            online.pending_positions.take()
        },
        None => None,
    }
}

/// The camera in an online game: the skip view while the opponent calls or
/// aims (to watch their broom), following the stone once it moves (unless
/// already following or over the house), the house overhead while the end's
/// score is shown; unchanged otherwise and when this side has no team.
pub fn online_camera_control(state: &GameState, online: &OnlineState, camera: &mut CameraState)
    ensures
        match online.local_team {
            None => *final(camera) == *old(camera),
            Some(t) => match state.phase {
                Phase::CallingShot | Phase::Aiming => *final(camera) == if thrower(
                    state.first_throw_team,
                    state.shot_index as int,
                ) != t {
                    CameraState { mode: CameraMode::SkipView, ..*old(camera) }
                } else {
                    *old(camera)
                },
                Phase::StoneMoving => *final(camera) == if old(camera).mode
                    != CameraMode::FollowStone && old(camera).mode != CameraMode::HouseOverhead {
                    CameraState {
                        mode: CameraMode::FollowStone,
                        stone_crossed_hog: false,
                        follow_camera_height: of_bits(FOLLOW_START_HEIGHT_BITS),
                        ..*old(camera)
                    }
                } else {
                    *old(camera)
                },
                Phase::ShowingScore => *final(camera) == (CameraState {
                    mode: CameraMode::HouseOverhead,
                    ..*old(camera)
                }),
                _ => *final(camera) == *old(camera),
            },
        },
{
    let t = match online.local_team {
        Some(t) => t,
        None => {
            return ;
        },
    };
    let our_turn = state.current_team() == t;
    match state.phase {
        Phase::CallingShot | Phase::Aiming => {
            if !our_turn {
                camera.mode = CameraMode::SkipView;
            }
        },
        Phase::StoneMoving => {
            if camera.mode != CameraMode::FollowStone && camera.mode != CameraMode::HouseOverhead {
                camera.mode = CameraMode::FollowStone;
                camera.stone_crossed_hog = false;
                camera.follow_camera_height = Scalar { bits: FOLLOW_START_HEIGHT_BITS };
            }
        },
        Phase::ShowingScore => {
            camera.mode = CameraMode::HouseOverhead;
        },
        _ => {},
    }
}

/// On every shot exactly one of the two sides throws: the side that throws
/// is the one whose opponent does not, so one side sends its throw, broom
/// and moving stones and the other applies them.
pub proof fn law_one_side_throws(state: GameState, t: Team)
    ensures
        local_turn(state, Some(t)) != local_turn(state, Some(other_team(t))),
        opponent_turn(state, Some(t)) == local_turn(state, Some(other_team(t))),
{
}

/// After a shot of the end (from the second shot on) exactly one side sends
/// the stones' final positions, and it is the side whose positions the
/// other side takes.
pub proof fn law_one_side_resolves(state: GameState, t: Team)
    requires
        state.shot_index > 0,
    ensures
        threw_previous(state, t) != threw_previous(state, other_team(t)),
        threw_previous(state, t) == opponent_threw_last(state, other_team(t)),
        threw_previous(state, t) == !opponent_threw_last(state, t),
{
}

// ============================================================================
// CONNECTION
// ============================================================================

/// A change in the opponent's connection.
#[derive(Clone, Copy, PartialEq, Eq, Debug, Structural)]
pub enum PeerEvent {
    /// The opponent connected (or reconnected).
    Connected,
    /// The opponent's connection was lost.
    Disconnected,
}

/// Notes a connection change during the game.
pub fn note_peer_event(online: &mut OnlineState, event: PeerEvent)
    ensures
        *final(online) == (OnlineState {
            opponent_disconnected: event == PeerEvent::Disconnected,
            ..*old(online)
        }),
{
    online.opponent_disconnected = match event {
        PeerEvent::Connected => false,
        PeerEvent::Disconnected => true,
    };
}

/// The opponent joined the lobby: the game starts.  Returns the screen to
/// go to and the lobby's status text.
pub fn lobby_peer_connected(online: &mut OnlineState) -> (r: (AppState, &'static str))
    ensures
        *final(online) == (OnlineState { opponent_connected: true, ..*old(online) }),
        r.0 == AppState::OnlineGame,
        r.1@ == "Opponent connected! Starting..."@,
{
    online.opponent_connected = true;
    (AppState::OnlineGame, "Opponent connected! Starting...")
}

/// The disconnection overlay is shown once the opponent is gone and it is
/// not on screen yet.
pub fn disconnection_overlay_needed(online: &OnlineState, overlay_shown: bool) -> (r: bool)
    ensures
        r == (online.opponent_disconnected && !overlay_shown),
{
    online.opponent_disconnected && !overlay_shown
}

/// "You are <team>" for the side's team, if it has one.
pub fn your_team_label(online: &OnlineState) -> (r: Option<String>)
    ensures
        match online.local_team {
            Some(t) => r matches Some(s) && s@ == "You are "@ + crate::hud::team_label(t),
            None => r is None,
        },
{
    match online.local_team {
        Some(t) => {
            let mut s = String::from_str("You are ");
            s.append(t.name());
            Some(s)
        },
        None => None,
    }
}

// ============================================================================
// ONLINE MENU
// ============================================================================

/// Creates a room: a new code, this side hosts; the lobby opens with the
/// host role.
pub fn create_game(online: &mut OnlineState) -> (r: (NetworkRole, AppState))
    ensures
        final(online).room_code@.len() == ROOM_CODE_LENGTH,
        forall|i: int|
            0 <= i < ROOM_CODE_LENGTH ==> room_code_alphabet().contains(
                #[trigger] final(online).room_code@[i],
            ),
        final(online).is_host,
        r == (NetworkRole::Host, AppState::OnlineLobby),
        *final(online) == (OnlineState {
            room_code: final(online).room_code,
            is_host: true,
            ..*old(online)
        }),
{
    online.room_code = generate_room_code();
    online.is_host = true;
    (NetworkRole::Host, AppState::OnlineLobby)
}

/// Opens the room-code entry with an empty code.
pub fn start_join(online: &mut OnlineState)
    ensures
        final(online).input_room_code@ == Seq::<char>::empty(),
        *final(online) == (OnlineState {
            input_room_code: final(online).input_room_code,
            ..*old(online)
        }),
{
    online.input_room_code = String::new();
}

/// A key pressed while a room code is typed: a letter (0 for A up to 25 for
/// Z), a digit (main row or keypad), backspace, or any other key.
#[derive(Clone, Copy, PartialEq, Eq, Debug, Structural)]
pub enum RoomKey {
    Letter(u8),
    Digit(u8),
    Backspace,
    Other,
}

/// The character a key types into a room code: capital letters except I and
/// O (which codes never use) and the digits; nothing for other keys.
pub open spec fn key_char(key: RoomKey) -> Option<char> {
    match key {
        RoomKey::Letter(k) => if k < 26 && k != 8 && k != 14 {
            Some((65 + k) as char)
        } else {
            None
        },
        RoomKey::Digit(d) => if d < 10 {
            Some((48 + d) as char)
        } else {
            None
        },
        _ => None,
    }
}

/// The character a key types into a room code.
pub fn room_key_char(key: RoomKey) -> (r: Option<char>)
    ensures
        r == key_char(key),
{
    match key {
        RoomKey::Letter(k) => {
            if k < 26 && k != 8 && k != 14 {
                Some((65 + k) as char)
            } else {
                None
            }
        },
        RoomKey::Digit(d) => {
            if d < 10 {
                Some((48 + d) as char)
            } else {
                None
            }
        },
        _ => None,
    }
}

/// The code after a key: a letter or digit is added while the code is
/// shorter than four characters, backspace removes the last character, other
/// keys change nothing.
pub open spec fn typed_code(code: Seq<char>, key: RoomKey) -> Seq<char> {
    match key_char(key) {
        Some(c) => if code.len() < ROOM_CODE_LENGTH {
            code.push(c)
        } else {
            code
        },
        None => if key == RoomKey::Backspace && code.len() > 0 {
            code.drop_last()
        } else {
            code
        },
    }
}

/// A typed code never grows past four characters, and holds only capital
/// letters other than I and O and digits when it starts that way.
pub proof fn law_typed_code_bounded(code: Seq<char>, key: RoomKey)
    requires
        code.len() <= ROOM_CODE_LENGTH,
        forall|i: int| 0 <= i < code.len() ==> code_char(#[trigger] code[i]),
    ensures
        typed_code(code, key).len() <= ROOM_CODE_LENGTH,
        forall|i: int|
            0 <= i < typed_code(code, key).len() ==> code_char(#[trigger] typed_code(code, key)[i]),
{
}

/// A character a key can type into a room code.
pub open spec fn code_char(c: char) -> bool {
    ('A' <= c <= 'Z' && c != 'I' && c != 'O') || ('0' <= c <= '9')
}

/// Every character of a created room code is one the joining player can
/// type, so a code the host reads out can always be entered.
pub proof fn law_room_codes_typeable(c: char)
    requires
        room_code_alphabet().contains(c),
    ensures
        code_char(c),
        exists|key: RoomKey| key_char(key) == Some(c),
{
    reveal_strlit("ABCDEFGHJKLMNPQRSTUVWXYZ23456789");
    let i = choose|i: int| 0 <= i < room_code_alphabet().len() && room_code_alphabet()[i] == c;
    assert(0 <= i < 32);
    if ('A' <= c <= 'Z') {
        let k = ((c as int) - 65) as u8;
        assert(key_char(RoomKey::Letter(k)) == Some(c));
    } else {
        let d = ((c as int) - 48) as u8;
        assert(key_char(RoomKey::Digit(d)) == Some(c));
    }
}

/// The code after typing `keys` in order.
pub open spec fn typed_keys(code: Seq<char>, keys: Seq<RoomKey>) -> Seq<char>
    decreases keys.len(),
{
    if keys.len() == 0 {
        code
    } else {
        typed_code(typed_keys(code, keys.drop_last()), keys.last())
    }
}

/// The key that types a room-code character.
pub open spec fn key_for(c: char) -> RoomKey {
    if '0' <= c <= '9' {
        RoomKey::Digit(((c as int) - 48) as u8)
    } else {
        RoomKey::Letter(((c as int) - 65) as u8)
    }
}

/// Typing the keys of a room code (at most four characters a key can type)
/// into an empty entry gives back that code.
pub proof fn law_typing_a_code(code: Seq<char>)
    requires
        code.len() <= ROOM_CODE_LENGTH,
        forall|i: int| 0 <= i < code.len() ==> code_char(#[trigger] code[i]),
    ensures
        typed_keys(Seq::empty(), code.map_values(|c: char| key_for(c))) == code,
    decreases code.len(),
{
    let keys = code.map_values(|c: char| key_for(c));
    if code.len() > 0 {
        let rest = code.drop_last();
        assert(keys.drop_last() =~= rest.map_values(|c: char| key_for(c)));
        law_typing_a_code(rest);
        let c = code.last();
        assert(code_char(c));
        assert(key_char(key_for(c)) == Some(c));
        assert(rest.push(c) =~= code);
    }
}

/// A code the host creates, typed key by key by the joining player, gives
/// back the same code (and `submit_room_code` then joins that very room).
pub proof fn law_created_code_round_trip(code: Seq<char>)
    requires
        code.len() == ROOM_CODE_LENGTH,
        forall|i: int| 0 <= i < code.len() ==> room_code_alphabet().contains(#[trigger] code[i]),
    ensures
        forall|i: int| 0 <= i < code.len() ==> code_char(#[trigger] code[i]),
        typed_keys(Seq::empty(), code.map_values(|c: char| key_for(c))) == code,
{
    assert forall|i: int| 0 <= i < code.len() implies code_char(#[trigger] code[i]) by {
        law_room_codes_typeable(code[i]);
    }
    law_typing_a_code(code);
}

/// Typing a room code (see `typed_code`).
pub fn type_room_code_key(online: &mut OnlineState, key: RoomKey)
    ensures
        final(online).input_room_code@ == typed_code(old(online).input_room_code@, key),
        *final(online) == (OnlineState {
            input_room_code: final(online).input_room_code,
            ..*old(online)
        }),
{
    if key == RoomKey::Backspace {
        let _ = pop_char(&mut online.input_room_code);
        return ;
    }
    if let Some(c) = room_key_char(key) {
        let len = online.input_room_code.as_str().unicode_len();
        if len < ROOM_CODE_LENGTH {
            push_char(&mut online.input_room_code, c);
        }
    }
}

/// Enter with a complete four-character code joins that room (in capitals)
/// as the guest and opens the lobby; with any other code nothing happens.
pub fn submit_room_code(online: &mut OnlineState) -> (r: Option<(NetworkRole, AppState)>)
    ensures
        old(online).input_room_code@.len() == ROOM_CODE_LENGTH ==> {
            &&& r == Some((NetworkRole::Guest, AppState::OnlineLobby))
            &&& final(online).room_code@ == uppercased(old(online).input_room_code@)
            &&& (forall|i: int|
                0 <= i < old(online).input_room_code@.len() ==> code_char(
                    #[trigger] old(online).input_room_code@[i],
                )) ==> final(online).room_code@ == old(online).input_room_code@
            &&& *final(online) == (OnlineState {
                room_code: final(online).room_code,
                is_host: false,
                ..*old(online)
            })
        },
        old(online).input_room_code@.len() != ROOM_CODE_LENGTH ==> {
            &&& r is None
            &&& *final(online) == *old(online)
        },
{
    let len = online.input_room_code.as_str().unicode_len();
    if len != ROOM_CODE_LENGTH {
        return None;
    }
    online.room_code = to_uppercase(online.input_room_code.as_str());
    online.is_host = false;
    Some((NetworkRole::Guest, AppState::OnlineLobby))
}

/// The code as shown while typing: the characters typed (at most four),
/// then underscores up to four.
pub open spec fn code_display(typed: Seq<char>) -> Seq<char> {
    if typed.len() >= ROOM_CODE_LENGTH {
        typed.take(ROOM_CODE_LENGTH as int)
    } else {
        typed + Seq::new((ROOM_CODE_LENGTH - typed.len()) as nat, |i: int| '_')
    }
}

/// The room code as shown while it is typed.
pub fn room_code_display(online: &OnlineState) -> (r: String)
    ensures
        r@ == code_display(online.input_room_code@),
{
    let typed = online.input_room_code.as_str();
    let len = typed.unicode_len();
    let mut shown = String::new();
    let mut i: usize = 0;
    while i < ROOM_CODE_LENGTH
        invariant
            i <= ROOM_CODE_LENGTH,
            len == typed@.len(),
            typed@ == online.input_room_code@,
            shown@ == code_display(typed@).take(i as int),
        decreases ROOM_CODE_LENGTH - i,
    {
        let c = if i < len {
            typed.get_char(i)
        } else {
            '_'
        };
        push_char(&mut shown, c);
        proof {
            assert(shown@ =~= code_display(typed@).take(i + 1));
        }
        i = i + 1;
    }
    proof {
        assert(code_display(typed@).take(ROOM_CODE_LENGTH as int) =~= code_display(typed@));
    }
    shown
}

} // verus!
