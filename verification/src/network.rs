//! Messages the two players of an online game exchange, and the address of
//! a game's room on the signalling server.
use vstd::prelude::*;

use crate::components::{CurlDirection, Team};
use crate::scalar::Scalar;

verus! {

/// Signalling server through which the two players find each other.
pub const SIGNALING_SERVER: &'static str = "wss://signaling.rackspace.koski.co";

/// A stone's team and position as sent over the network.
#[derive(Clone, Copy, PartialEq, Eq, Debug, Structural)]
pub struct StoneState {
    pub team: Team,
    pub x: Scalar,
    pub y: Scalar,
}

/// A message between the two players during a game.
#[derive(Clone, Debug)]
pub enum GameMessage {
    /// The shot was called (while calling).
    ShotCalled { angle: Scalar, weight: Scalar, curl: CurlDirection },
    /// The stone was thrown with this angle, weight and curl.
    ShotThrown { angle: Scalar, weight: Scalar, curl: CurlDirection },
    /// Where the thrower holds the broom (while calling and aiming).
    BroomUpdate { x: Scalar, y: Scalar },
    /// Where every stone came to rest after a shot.
    ShotResolved { stones: Vec<StoneState> },
    /// Where the stones are while they move (about once a second).
    PositionSync { stones: Vec<StoneState> },
    /// An end's score.
    EndScored { team1: u32, team2: u32 },
    /// The sender is ready to play.
    GameReady,
}

/// The room's address: `<server>/<room code>?next=2`, a room that waits for
/// exactly two players.
pub open spec fn room_address(room_code: Seq<char>) -> Seq<char> {
    SIGNALING_SERVER@ + "/"@ + room_code + "?next=2"@
}

/// The address of the room with the given code.
pub fn room_url(room_code: &str) -> (r: String)
    ensures
        r@ == room_address(room_code@),
{
    let mut url = String::from_str(SIGNALING_SERVER);
    url.append("/");
    url.append(room_code);
    url.append("?next=2");
    url
}

} // verus!
