//! One handler per route of the games resource: it validates the request,
//! has `connect` provide a connection to the store, runs the operation of
//! the engine on it and wraps what the operation returns.
//!
//! A request that fails validation is rejected whatever the store holds: it
//! is rejected before a connection is asked for. A request succeeds only
//! where a connection was provided, and what it returns is what the engine
//! read from the store.

use vstd::prelude::*;
use vstd::string::*;
use crate::errors::{DbError, ServiceError};
use crate::http::dto::{CreateGameRequest, GameListQuery, MakeMoveRequest, UpdateGameRequest};
use crate::http::responses::ApiSuccess;
use crate::http::validators::{
    invalid_board_size_text, requested_board_size, validate_create_game_request,
    validate_game_id, validate_game_list_query, validate_make_move_request,
    validate_update_game_request, INVALID_GAME_ID, INVALID_POSITION, MAX_BOARD_SIZE,
    MIN_BOARD_SIZE, NOTHING_TO_UPDATE,
};
use crate::models::{Game, GameListItem, GameMove, GameWithMoves};
use crate::rules::{
    is_internal, is_invalid_input, is_not_found, not_found_text, CREATED_GAME_MISSING,
    MAX_RETURNED_GAMES, UPDATED_GAME_MISSING,
};
use crate::services::game;
use crate::services::game::{
    are_stored_items, are_stored_moves, is_move_failure, is_stored_game, is_stored_move,
    is_storage_failure,
};

verus! {

pub const GAME_CREATED: &'static str = "Game created successfully";

pub const GAME_UPDATED: &'static str = "Game updated successfully";

pub const GAME_DELETED: &'static str = "Game deleted successfully";

pub const MOVE_ADDED: &'static str = "Move added successfully";

pub type ApiResponse<T> = Result<ApiSuccess<T>, ServiceError>;

/// Whether `body` reports success without a message.
pub open spec fn is_plain<T>(body: ApiSuccess<T>) -> bool {
    body.success && body.message is None
}

/// Whether `body` reports success with the given message.
pub open spec fn is_announced<T>(body: ApiSuccess<T>, text: Seq<char>) -> bool {
    body.success && (body.message matches Some(message) && message@ == text)
}

/// Whether `connect` provided a connection.
pub open spec fn provided<C>(connect: C) -> bool where
    C: FnOnce() -> Result<rusqlite::Connection, DbError>,
 {
    exists|connection: rusqlite::Connection| #[trigger] connect.ensures((), Ok(connection))
}

/// Has `connect` provide a connection: the connection it provides, or its
/// failure as a failure of the store.
fn connected<C>(connect: C) -> (r: Result<rusqlite::Connection, ServiceError>) where
    C: FnOnce() -> Result<rusqlite::Connection, DbError>,

    requires
        connect.requires(()),
    ensures
        match r {
            Ok(connection) => connect.ensures((), Ok(connection)),
            Err(error) => error matches ServiceError::Database(cause) && connect.ensures(
                (),
                Err(cause),
            ),
        },
{
    match connect() {
        Ok(connection) => Ok(connection),
        Err(error) => Err(ServiceError::Database(error)),
    }
}

/// `POST /api/games`: creates a game of the requested board size.
pub fn create_game<C>(connect: C, payload: &CreateGameRequest) -> (r: ApiResponse<
    Game,
>) where
    C: FnOnce() -> Result<rusqlite::Connection, DbError>,

    requires
        connect.requires(()),
    ensures
        !(MIN_BOARD_SIZE <= requested_board_size(*payload) <= MAX_BOARD_SIZE) ==> (r matches Err(
            error,
        ) && is_invalid_input(error, invalid_board_size_text())),
        r matches Err(error) ==> is_invalid_input(error, invalid_board_size_text())
            || is_storage_failure(error) || is_internal(error, CREATED_GAME_MISSING@),
        MIN_BOARD_SIZE <= requested_board_size(*payload) <= MAX_BOARD_SIZE ==> !(r matches Err(
            error,
        ) && error is InvalidInput),
        r is Ok ==> provided(connect),
        r matches Ok(body) ==> is_announced(body, GAME_CREATED@) && is_stored_game(body.data),
{
    let board_size = validate_create_game_request(payload)?;
    let conn = connected(connect)?;
    let created = game::create_game(&conn, board_size)?;
    Ok(ApiSuccess::with_message(created, String::from_str(GAME_CREATED)))
}

/// `GET /api/games`: lists the most recent games, of one status where the
/// query names one.
pub fn list_games<C>(connect: C, query: &GameListQuery) -> (r: ApiResponse<
    Vec<GameListItem>,
>) where
    C: FnOnce() -> Result<rusqlite::Connection, DbError>,

    requires
        connect.requires(()),
    ensures
        r matches Err(error) ==> is_storage_failure(error),
        r is Ok ==> provided(connect),
        r matches Ok(body) ==> is_plain(body) && body.data.len() <= MAX_RETURNED_GAMES
            && are_stored_items(body.data@),
{
    let filters = validate_game_list_query(query)?;
    let conn = connected(connect)?;
    let games = game::get_games(&conn, filters)?;
    Ok(ApiSuccess::new(games))
}

/// `GET /api/games/{id}`: the game `game_id`.
pub fn get_game<C>(connect: C, game_id: i64) -> (r: ApiResponse<Game>) where
    C: FnOnce() -> Result<rusqlite::Connection, DbError>,

    requires
        connect.requires(()),
    ensures
        game_id < 0 ==> (r matches Err(error) && is_invalid_input(error, INVALID_GAME_ID@)),
        r matches Err(error) ==> is_invalid_input(error, INVALID_GAME_ID@) || is_storage_failure(
            error,
        ) || is_not_found(error, not_found_text(game_id as int)),
        game_id >= 0 ==> !(r matches Err(error) && error is InvalidInput),
        r is Ok ==> provided(connect),
        r matches Ok(body) ==> is_plain(body) && is_stored_game(body.data),
{
    let game_id = validate_game_id(game_id)?;
    let conn = connected(connect)?;
    let found = game::get_game_by_id(&conn, game_id)?;
    Ok(ApiSuccess::new(found))
}

/// `GET /api/games/{id}/full`: the game `game_id` with its moves.
pub fn get_game_with_moves<C>(connect: C, game_id: i64) -> (r: ApiResponse<
    GameWithMoves,
>) where
    C: FnOnce() -> Result<rusqlite::Connection, DbError>,

    requires
        connect.requires(()),
    ensures
        game_id < 0 ==> (r matches Err(error) && is_invalid_input(error, INVALID_GAME_ID@)),
        r matches Err(error) ==> is_invalid_input(error, INVALID_GAME_ID@) || is_storage_failure(
            error,
        ) || is_not_found(error, not_found_text(game_id as int)),
        game_id >= 0 ==> !(r matches Err(error) && error is InvalidInput),
        r is Ok ==> provided(connect),
        r matches Ok(body) ==> is_plain(body) && is_stored_game(body.data.game)
            && are_stored_moves(body.data.moves@),
{
    let game_id = validate_game_id(game_id)?;
    let conn = connected(connect)?;
    let found = game::get_game_with_moves(&conn, game_id)?;
    Ok(ApiSuccess::new(found))
}

/// `PATCH /api/games/{id}`: changes the status, the winner or both of the
/// game `game_id`.
pub fn update_game<C>(connect: C, game_id: i64, payload: &UpdateGameRequest) -> (r:
    ApiResponse<Game>) where
    C: FnOnce() -> Result<rusqlite::Connection, DbError>,

    requires
        connect.requires(()),
    ensures
        game_id < 0 ==> (r matches Err(error) && is_invalid_input(error, INVALID_GAME_ID@)),
        game_id >= 0 && payload.status is None && payload.winner is None ==> (r matches Err(error)
            && is_invalid_input(error, NOTHING_TO_UPDATE@)),
        r matches Err(error) ==> is_invalid_input(error, INVALID_GAME_ID@) || is_invalid_input(
            error,
            NOTHING_TO_UPDATE@,
        ) || is_storage_failure(error) || is_not_found(error, not_found_text(game_id as int))
            || is_internal(error, UPDATED_GAME_MISSING@),
        game_id >= 0 && !(payload.status is None && payload.winner is None) ==> !(r matches Err(
            error,
        ) && error is InvalidInput),
        r is Ok ==> provided(connect),
        r matches Ok(body) ==> is_announced(body, GAME_UPDATED@) && is_stored_game(body.data),
{
    let (game_id, updates) = validate_update_game_request(game_id, payload)?;
    let conn = connected(connect)?;
    let updated = game::update_game(&conn, game_id, updates)?;
    Ok(ApiSuccess::with_message(updated, String::from_str(GAME_UPDATED)))
}

/// `DELETE /api/games/{id}`: deletes the game `game_id` with its moves.
pub fn delete_game<C>(connect: C, game_id: i64) -> (r: ApiResponse<()>) where
    C: FnOnce() -> Result<rusqlite::Connection, DbError>,

    requires
        connect.requires(()),
    ensures
        game_id < 0 ==> (r matches Err(error) && is_invalid_input(error, INVALID_GAME_ID@)),
        r matches Err(error) ==> is_invalid_input(error, INVALID_GAME_ID@) || is_storage_failure(
            error,
        ) || is_not_found(error, not_found_text(game_id as int)),
        game_id >= 0 ==> !(r matches Err(error) && error is InvalidInput),
        r is Ok ==> provided(connect),
        r matches Ok(body) ==> is_announced(body, GAME_DELETED@),
{
    let game_id = validate_game_id(game_id)?;
    let conn = connected(connect)?;
    game::delete_game(&conn, game_id)?;
    Ok(ApiSuccess::with_message((), String::from_str(GAME_DELETED)))
}

/// `POST /api/games/{id}/moves`: adds the requested move to the game
/// `game_id`.
pub fn add_move<C>(connect: C, game_id: i64, payload: &MakeMoveRequest) -> (r:
    ApiResponse<GameMove>) where
    C: FnOnce() -> Result<rusqlite::Connection, DbError>,

    requires
        connect.requires(()),
    ensures
        game_id < 0 ==> (r matches Err(error) && is_invalid_input(error, INVALID_GAME_ID@)),
        game_id >= 0 && payload.position < 0 ==> (r matches Err(error) && is_invalid_input(
            error,
            INVALID_POSITION@,
        )),
        r matches Err(error) ==> is_invalid_input(error, INVALID_GAME_ID@) || is_invalid_input(
            error,
            INVALID_POSITION@,
        ) || is_move_failure(error, game_id, payload.position, payload.player),
        game_id >= 0 && payload.position >= 0 ==> (r matches Err(error) ==> is_move_failure(
            error,
            game_id,
            payload.position,
            payload.player,
        )),
        r is Ok ==> provided(connect),
        r matches Ok(body) ==> is_announced(body, MOVE_ADDED@) && is_stored_move(body.data),
{
    let (game_id, position, player) = validate_make_move_request(game_id, payload)?;
    let conn = connected(connect)?;
    let entry = game::add_move(&conn, game_id, position, player)?;
    Ok(ApiSuccess::with_message(entry, String::from_str(MOVE_ADDED)))
}

/// `GET /api/games/{id}/moves`: the moves of the game `game_id`.
pub fn list_moves<C>(connect: C, game_id: i64) -> (r: ApiResponse<Vec<GameMove>>) where
    C: FnOnce() -> Result<rusqlite::Connection, DbError>,

    requires
        connect.requires(()),
    ensures
        game_id < 0 ==> (r matches Err(error) && is_invalid_input(error, INVALID_GAME_ID@)),
        r matches Err(error) ==> is_invalid_input(error, INVALID_GAME_ID@) || is_storage_failure(
            error,
        ) || is_not_found(error, not_found_text(game_id as int)),
        game_id >= 0 ==> !(r matches Err(error) && error is InvalidInput),
        r is Ok ==> provided(connect),
        r matches Ok(body) ==> is_plain(body) && are_stored_moves(body.data@),
{
    let game_id = validate_game_id(game_id)?;
    let conn = connected(connect)?;
    let moves = game::get_game_moves(&conn, game_id)?;
    Ok(ApiSuccess::new(moves))
}

} // verus!
