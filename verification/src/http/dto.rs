//! The bodies and queries of requests, as decoded from the wire.

use vstd::prelude::*;
use crate::models::{GameStatus, GameWinner, Player};

verus! {

#[derive(Debug, Clone, Copy)]
pub struct CreateGameRequest {
    pub board_size: Option<i64>,
}

#[derive(Debug, Clone, Copy)]
pub struct GameListQuery {
    pub status: Option<GameStatus>,
}

impl Default for GameListQuery {
    fn default() -> (r: GameListQuery)
        ensures
            r.status is None,
    {
        GameListQuery { status: None }
    }
}

/// The fields of a game that a request asks to change. For the winner, an
/// absent field is `None`, a field given as null is `Some(None)`, and a
/// field given a value is `Some(Some(value))`.
#[derive(Debug, Clone, Copy)]
pub struct UpdateGameRequest {
    pub status: Option<GameStatus>,
    pub winner: Option<Option<GameWinner>>,
    pub current_player: Option<Player>,
}

impl Default for UpdateGameRequest {
    fn default() -> (r: UpdateGameRequest)
        ensures
            r.status is None,
            r.winner is None,
            r.current_player is None,
    {
        UpdateGameRequest { status: None, winner: None, current_player: None }
    }
}

#[derive(Debug, Clone, Copy)]
pub struct MakeMoveRequest {
    pub position: i64,
    pub player: Player,
}

} // verus!
