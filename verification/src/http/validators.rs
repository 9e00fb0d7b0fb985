//! From a well-typed request to the input of an engine operation: the
//! bounds on board sizes, identifiers and positions, and the rule that an
//! update changes something. Nothing here touches the store.

use vstd::prelude::*;
use vstd::string::*;
use crate::errors::ServiceError;
use crate::http::dto::{CreateGameRequest, GameListQuery, MakeMoveRequest, UpdateGameRequest};
use crate::models::Player;
use crate::rules::is_invalid_input;
use crate::services::game::{GameFilters, GameUpdate};
use crate::text::{integer_text, join, render_integer};

verus! {

pub const MIN_BOARD_SIZE: i64 = 3;

pub const MAX_BOARD_SIZE: i64 = 10;

pub const INVALID_GAME_ID: &'static str = "Invalid game ID! Expected a non-negative integer.";

pub const NOTHING_TO_UPDATE: &'static str = "No valid fields to update";

pub const INVALID_POSITION: &'static str = "Invalid position! Expected a non-negative number.";

/// The text that rejects a board size out of bounds.
pub open spec fn invalid_board_size_text() -> Seq<char> {
    "Invalid board_size! Expected a number between "@ + integer_text(MIN_BOARD_SIZE as int)
        + " and "@ + integer_text(MAX_BOARD_SIZE as int) + "."@
}

/// The board size a request asks for: the smallest one where it names none.
pub open spec fn requested_board_size(payload: CreateGameRequest) -> i64 {
    match payload.board_size {
        Some(size) => size,
        None => MIN_BOARD_SIZE,
    }
}

/// The board size of the game to create: the requested one, which must lie
/// between `MIN_BOARD_SIZE` and `MAX_BOARD_SIZE`.
pub fn validate_create_game_request(payload: &CreateGameRequest) -> (r: Result<i64, ServiceError>)
    ensures
        MIN_BOARD_SIZE <= requested_board_size(*payload) <= MAX_BOARD_SIZE ==> r == Ok::<
            i64,
            ServiceError,
        >(requested_board_size(*payload)),
        !(MIN_BOARD_SIZE <= requested_board_size(*payload) <= MAX_BOARD_SIZE) ==> (r matches Err(
            error,
        ) && is_invalid_input(error, invalid_board_size_text())),
{
    let board_size = match payload.board_size {
        Some(size) => size,
        None => MIN_BOARD_SIZE,
    };
    if board_size < MIN_BOARD_SIZE || board_size > MAX_BOARD_SIZE {
        let mut message = join(
            "Invalid board_size! Expected a number between ",
            render_integer(MIN_BOARD_SIZE).as_str(),
        );
        message.append(" and ");
        message.append(render_integer(MAX_BOARD_SIZE).as_str());
        message.append(".");
        return Err(ServiceError::InvalidInput(message));
    }
    Ok(board_size)
}

/// The filters of a listing: the status the query names, if any.
pub fn validate_game_list_query(query: &GameListQuery) -> (r: Result<GameFilters, ServiceError>)
    ensures
        r matches Ok(filters) && filters.status == query.status,
{
    Ok(GameFilters { status: query.status })
}

/// A game identifier, which must not be negative.
pub fn validate_game_id(game_id: i64) -> (r: Result<i64, ServiceError>)
    ensures
        game_id >= 0 ==> r == Ok::<i64, ServiceError>(game_id),
        game_id < 0 ==> (r matches Err(error) && is_invalid_input(error, INVALID_GAME_ID@)),
{
    if game_id < 0 {
        return Err(ServiceError::InvalidInput(String::from_str(INVALID_GAME_ID)));
    }
    Ok(game_id)
}

/// The identifier and the changes of an update: the identifier must not be
/// negative, and the request must supply the status or the winner. The
/// changes are the status and the winner as supplied; a turn that the
/// request names is not among them.
pub fn validate_update_game_request(game_id: i64, payload: &UpdateGameRequest) -> (r: Result<
    (i64, GameUpdate),
    ServiceError,
>)
    ensures
        game_id < 0 ==> (r matches Err(error) && is_invalid_input(error, INVALID_GAME_ID@)),
        game_id >= 0 && payload.status is None && payload.winner is None ==> (r matches Err(error)
            && is_invalid_input(error, NOTHING_TO_UPDATE@)),
        game_id >= 0 && !(payload.status is None && payload.winner is None) ==> (r matches Ok(
            accepted,
        ) && accepted.0 == game_id && accepted.1.status == payload.status && accepted.1.winner
            == payload.winner),
{
    let game_id = validate_game_id(game_id)?;
    if payload.status.is_none() && payload.winner.is_none() {
        return Err(ServiceError::InvalidInput(String::from_str(NOTHING_TO_UPDATE)));
    }
    if let Some(player) = payload.current_player {
        match player {
            Player::X | Player::O => {},
        }
    }
    let updates = GameUpdate { status: payload.status, winner: payload.winner };
    Ok((game_id, updates))
}

/// The game, the position and the player of a move: neither the identifier
/// nor the position may be negative.
pub fn validate_make_move_request(game_id: i64, payload: &MakeMoveRequest) -> (r: Result<
    (i64, i64, Player),
    ServiceError,
>)
    ensures
        game_id < 0 ==> (r matches Err(error) && is_invalid_input(error, INVALID_GAME_ID@)),
        game_id >= 0 && payload.position < 0 ==> (r matches Err(error) && is_invalid_input(
            error,
            INVALID_POSITION@,
        )),
        game_id >= 0 && payload.position >= 0 ==> r == Ok::<(i64, i64, Player), ServiceError>(
            (game_id, payload.position, payload.player),
        ),
{
    let game_id = validate_game_id(game_id)?;
    if payload.position < 0 {
        return Err(ServiceError::InvalidInput(String::from_str(INVALID_POSITION)));
    }
    Ok((game_id, payload.position, payload.player))
}

} // verus!
