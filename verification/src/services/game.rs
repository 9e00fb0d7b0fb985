//! The game engine: creating, reading, updating and deleting games, and
//! applying moves, on a connection to the store.
//!
//! Which rows the store answers is not known to the verifier. Each operation
//! therefore states what holds of its result whatever the store answered:
//! that a game or a move it returns is the decoding of a row, column by
//! column, and which errors it can end with. What it decides from the
//! answers is stated exactly by the functions of `rules`, which it calls.

use vstd::prelude::*;
use crate::errors::{ServiceError, ServiceResult};
use crate::models::{
    Game, GameListItem, GameMove, GameStatus, GameWinner, GameWithMoves, Player,
};
use crate::rules::{
    cap_listing, check_turn, created_or_internal, deleted_or_missing, first, found_or_missing,
    highest_or_zero, is_internal, is_invalid_input, is_not_found, not_found_text, plan_move,
    plan_update, position_taken, recorded_or_internal, taken_text, updated_or_internal, wrong_turn_text, CREATED_GAME_MISSING,
    FINISHED_GAME, MAX_RETURNED_GAMES, MOVE_NUMBER_EXHAUSTED, RECORDED_MOVE_MISSING,
    UPDATED_GAME_MISSING,
};
use crate::statements::{Command, Query, TransactionStep};
use crate::storage::{
    cells, column_integer, column_optional_text, column_text, integer_at, invalid_column,
    last_insert_rowid, optional_text_at, run, run_batch, select, storage_failure, text_at, Cell,
};

verus! {

/// Which games a listing returns.
#[derive(Debug, Clone, Copy)]
pub struct GameFilters {
    pub status: Option<GameStatus>,
}

/// The fields of a game to change. For the winner, `None` leaves it as it
/// is, `Some(None)` clears it and `Some(Some(w))` sets it.
#[derive(Debug, Clone, Copy)]
pub struct GameUpdate {
    pub status: Option<GameStatus>,
    pub winner: Option<Option<GameWinner>>,
}

impl Default for GameUpdate {
    fn default() -> (r: GameUpdate)
        ensures
            r.status is None,
            r.winner is None,
    {
        GameUpdate { status: None, winner: None }
    }
}

/// Whether `error` reports a failure of the store.
pub open spec fn is_storage_failure(error: ServiceError) -> bool {
    error is Database
}

/// The status that column `index` encodes, where it holds the token of one.
pub open spec fn status_at(columns: Seq<Cell>, index: int) -> Option<GameStatus> {
    match text_at(columns, index) {
        Some(text) => GameStatus::from_token(text),
        None => None,
    }
}

/// The player that column `index` encodes, where it holds the token of one.
pub open spec fn player_at(columns: Seq<Cell>, index: int) -> Option<Player> {
    match text_at(columns, index) {
        Some(text) => Player::from_token(text),
        None => None,
    }
}

/// The winner that column `index` encodes: none where it holds NULL, one
/// where it holds the token of one.
pub open spec fn winner_at(columns: Seq<Cell>, index: int) -> Option<Option<GameWinner>> {
    match optional_text_at(columns, index) {
        Some(None) => Some(None),
        Some(Some(text)) => match GameWinner::from_token(text) {
            Some(winner) => Some(Some(winner)),
            None => None,
        },
        None => None,
    }
}

/// Whether the columns id, board_size, status, winner, current_player,
/// created_at, updated_at, in this order, decode to a game.
pub open spec fn holds_game(columns: Seq<Cell>) -> bool {
    &&& integer_at(columns, 0) is Some
    &&& integer_at(columns, 1) is Some
    &&& status_at(columns, 2) is Some
    &&& winner_at(columns, 3) is Some
    &&& player_at(columns, 4) is Some
    &&& text_at(columns, 5) is Some
    &&& text_at(columns, 6) is Some
}

/// Whether `game` is what those columns decode to.
pub open spec fn is_game_of(game: Game, columns: Seq<Cell>) -> bool {
    &&& integer_at(columns, 0) == Some(game.id)
    &&& integer_at(columns, 1) == Some(game.board_size)
    &&& status_at(columns, 2) == Some(game.status)
    &&& winner_at(columns, 3) == Some(game.winner)
    &&& player_at(columns, 4) == Some(game.current_player)
    &&& text_at(columns, 5) == Some(game.created_at@)
    &&& text_at(columns, 6) == Some(game.updated_at@)
}

/// Whether the columns id, game_id, move_number, position, player,
/// created_at, in this order, decode to a move.
pub open spec fn holds_move(columns: Seq<Cell>) -> bool {
    &&& integer_at(columns, 0) is Some
    &&& integer_at(columns, 1) is Some
    &&& integer_at(columns, 2) is Some
    &&& integer_at(columns, 3) is Some
    &&& player_at(columns, 4) is Some
    &&& text_at(columns, 5) is Some
}

/// Whether `entry` is what those columns decode to.
pub open spec fn is_move_of(entry: GameMove, columns: Seq<Cell>) -> bool {
    &&& integer_at(columns, 0) == Some(entry.id)
    &&& integer_at(columns, 1) == Some(entry.game_id)
    &&& integer_at(columns, 2) == Some(entry.move_number)
    &&& integer_at(columns, 3) == Some(entry.position)
    &&& player_at(columns, 4) == Some(entry.player)
    &&& text_at(columns, 5) == Some(entry.created_at@)
}

/// Whether `item` is what the columns of a game followed by move_count
/// decode to.
pub open spec fn is_item_of(item: GameListItem, columns: Seq<Cell>) -> bool {
    is_game_of(item.game, columns) && integer_at(columns, 7) == Some(item.move_count)
}

/// Whether `game` is the decoding of a row.
pub open spec fn is_stored_game(game: Game) -> bool {
    exists|row: &rusqlite::Row<'_>| is_game_of(game, #[trigger] cells(row))
}

/// Whether `entry` is the decoding of a row.
pub open spec fn is_stored_move(entry: GameMove) -> bool {
    exists|row: &rusqlite::Row<'_>| is_move_of(entry, #[trigger] cells(row))
}

/// Whether `item` is the decoding of a row.
pub open spec fn is_stored_item(item: GameListItem) -> bool {
    exists|row: &rusqlite::Row<'_>| is_item_of(item, #[trigger] cells(row))
}

/// Whether each of `moves` is the decoding of a row.
pub open spec fn are_stored_moves(moves: Seq<GameMove>) -> bool {
    forall|i: int| 0 <= i < moves.len() ==> is_stored_move(#[trigger] moves[i])
}

/// Whether each of `items` is the decoding of a row.
pub open spec fn are_stored_items(items: Seq<GameListItem>) -> bool {
    forall|i: int| 0 <= i < items.len() ==> is_stored_item(#[trigger] items[i])
}

/// The status in column `index` of the row; it fails where the column holds
/// no text or a text that encodes no status.
fn read_status(row: &rusqlite::Row<'_>, index: usize) -> (r: Result<GameStatus, rusqlite::Error>)
    ensures
        match r {
            Ok(status) => status_at(cells(row), index as int) == Some(status),
            Err(_) => status_at(cells(row), index as int) is None,
        },
{
    let text = column_text(row, index)?;
    match GameStatus::parse(text.as_str()) {
        Ok(status) => Ok(status),
        Err(error) => Err(invalid_column(index, error.message)),
    }
}

/// The winner in column `index` of the row, none where it holds NULL; it
/// fails where the column holds neither NULL nor a text, or a text that
/// encodes no winner.
fn read_winner(row: &rusqlite::Row<'_>, index: usize) -> (r: Result<
    Option<GameWinner>,
    rusqlite::Error,
>)
    ensures
        match r {
            Ok(winner) => winner_at(cells(row), index as int) == Some(winner),
            Err(_) => winner_at(cells(row), index as int) is None,
        },
{
    match column_optional_text(row, index)? {
        None => Ok(None),
        Some(text) => match GameWinner::parse(text.as_str()) {
            Ok(winner) => Ok(Some(winner)),
            Err(error) => Err(invalid_column(index, error.message)),
        },
    }
}

/// The player in column `index` of the row; it fails where the column holds
/// no text or a text that encodes no player.
fn read_player(row: &rusqlite::Row<'_>, index: usize) -> (r: Result<Player, rusqlite::Error>)
    ensures
        match r {
            Ok(player) => player_at(cells(row), index as int) == Some(player),
            Err(_) => player_at(cells(row), index as int) is None,
        },
{
    let text = column_text(row, index)?;
    match Player::parse(text.as_str()) {
        Ok(player) => Ok(player),
        Err(error) => Err(invalid_column(index, error.message)),
    }
}

/// Decodes a row of the columns id, board_size, status, winner,
/// current_player, created_at, updated_at.
fn map_game(row: &rusqlite::Row<'_>) -> (r: Result<Game, rusqlite::Error>)
    ensures
        match r {
            Ok(game) => is_game_of(game, cells(row)),
            Err(_) => !holds_game(cells(row)),
        },
{
    Ok(
        Game {
            id: column_integer(row, 0)?,
            board_size: column_integer(row, 1)?,
            status: read_status(row, 2)?,
            winner: read_winner(row, 3)?,
            current_player: read_player(row, 4)?,
            created_at: column_text(row, 5)?,
            updated_at: column_text(row, 6)?,
        },
    )
}

/// Decodes a row of the columns id, game_id, move_number, position, player,
/// created_at.
fn map_game_move(row: &rusqlite::Row<'_>) -> (r: Result<GameMove, rusqlite::Error>)
    ensures
        match r {
            Ok(entry) => is_move_of(entry, cells(row)),
            Err(_) => !holds_move(cells(row)),
        },
{
    Ok(
        GameMove {
            id: column_integer(row, 0)?,
            game_id: column_integer(row, 1)?,
            move_number: column_integer(row, 2)?,
            position: column_integer(row, 3)?,
            player: read_player(row, 4)?,
            created_at: column_text(row, 5)?,
        },
    )
}

/// Decodes a row of the columns of a game followed by move_count.
fn map_game_list_item(row: &rusqlite::Row<'_>) -> (r: Result<GameListItem, rusqlite::Error>)
    ensures
        match r {
            Ok(item) => is_item_of(item, cells(row)),
            Err(_) => !holds_game(cells(row)) || integer_at(cells(row), 7) is None,
        },
{
    Ok(GameListItem { game: map_game(row)?, move_count: column_integer(row, 7)? })
}

/// Decodes a row of one integer column.
fn map_integer(row: &rusqlite::Row<'_>) -> (r: Result<i64, rusqlite::Error>)
    ensures
        match r {
            Ok(n) => integer_at(cells(row), 0) == Some(n),
            Err(_) => integer_at(cells(row), 0) is None,
        },
{
    column_integer(row, 0)
}

/// Whether `n` is the integer in the first column of a row.
pub open spec fn is_stored_integer(n: i64) -> bool {
    exists|row: &rusqlite::Row<'_>| integer_at(#[trigger] cells(row), 0) == Some(n)
}

proof fn lemma_stored_game(game: Game)
    requires
        exists|row: &rusqlite::Row<'_>| call_ensures(map_game, (row,), Ok(game)),
    ensures
        is_stored_game(game),
{
    let row = choose|row: &rusqlite::Row<'_>| call_ensures(map_game, (row,), Ok(game));
    assert(is_game_of(game, cells(row)));
}

proof fn lemma_stored_move(entry: GameMove)
    requires
        exists|row: &rusqlite::Row<'_>| call_ensures(map_game_move, (row,), Ok(entry)),
    ensures
        is_stored_move(entry),
{
    let row = choose|row: &rusqlite::Row<'_>| call_ensures(map_game_move, (row,), Ok(entry));
    assert(is_move_of(entry, cells(row)));
}

proof fn lemma_stored_item(item: GameListItem)
    requires
        exists|row: &rusqlite::Row<'_>| call_ensures(map_game_list_item, (row,), Ok(item)),
    ensures
        is_stored_item(item),
{
    let row = choose|row: &rusqlite::Row<'_>| call_ensures(map_game_list_item, (row,), Ok(item));
    assert(is_item_of(item, cells(row)));
}

proof fn lemma_stored_integer(n: i64)
    requires
        exists|row: &rusqlite::Row<'_>| call_ensures(map_integer, (row,), Ok(n)),
    ensures
        is_stored_integer(n),
{
    let row = choose|row: &rusqlite::Row<'_>| call_ensures(map_integer, (row,), Ok(n));
    assert(integer_at(cells(row), 0) == Some(n));
}

fn execute(conn: &rusqlite::Connection, command: Command) -> (r: ServiceResult<usize>)
    ensures
        r matches Err(error) ==> is_storage_failure(error),
{
    let statement = command.statement();
    match run(conn, statement.sql, &statement.args) {
        Ok(rows) => Ok(rows),
        Err(error) => Err(storage_failure(error)),
    }
}

/// The first row of the store's answer to the query for the game
/// `game_id`, decoded; none where the answer is empty.
fn fetch_game(conn: &rusqlite::Connection, game_id: i64) -> (r: ServiceResult<Option<Game>>)
    ensures
        r matches Ok(Some(game)) ==> is_stored_game(game),
        r matches Err(error) ==> is_storage_failure(error),
{
    let statement = Query::Game { game_id }.statement();
    match select(conn, statement.sql, &statement.args, map_game) {
        Ok(games) => {
            proof {
                if games.len() > 0 {
                    lemma_stored_game(games[0]);
                }
            }
            Ok(first(games))
        },
        Err(error) => Err(storage_failure(error)),
    }
}

/// The rows of the store's answer to the query for the moves of the game
/// `game_id`, decoded, in the order of the answer.
fn fetch_game_moves(conn: &rusqlite::Connection, game_id: i64) -> (r: ServiceResult<
    Vec<GameMove>,
>)
    ensures
        r matches Ok(moves) ==> are_stored_moves(moves@),
        r matches Err(error) ==> is_storage_failure(error),
{
    let statement = Query::GameMoves { game_id }.statement();
    match select(conn, statement.sql, &statement.args, map_game_move) {
        Ok(moves) => {
            proof {
                assert forall|i: int| 0 <= i < moves.len() implies is_stored_move(
                    #[trigger] moves[i],
                ) by {
                    lemma_stored_move(moves[i]);
                }
            }
            Ok(moves)
        },
        Err(error) => Err(storage_failure(error)),
    }
}

/// The first row of the store's answer to the query for the move
/// `move_id`, decoded; none where the answer is empty.
fn fetch_move(conn: &rusqlite::Connection, move_id: i64) -> (r: ServiceResult<Option<GameMove>>)
    ensures
        r matches Ok(Some(entry)) ==> is_stored_move(entry),
        r matches Err(error) ==> is_storage_failure(error),
{
    let statement = Query::Move { move_id }.statement();
    match select(conn, statement.sql, &statement.args, map_game_move) {
        Ok(moves) => {
            proof {
                if moves.len() > 0 {
                    lemma_stored_move(moves[0]);
                }
            }
            Ok(first(moves))
        },
        Err(error) => Err(storage_failure(error)),
    }
}

/// Whether the store's answer to the query for the move at `position` of
/// the game `game_id` holds a row: the position is taken only where the
/// store answered the identifier of a move.
fn move_exists(conn: &rusqlite::Connection, game_id: i64, position: i64) -> (r: ServiceResult<
    bool,
>)
    ensures
        r matches Ok(taken) ==> (taken ==> exists|id: i64| is_stored_integer(id)),
        r matches Err(error) ==> is_storage_failure(error),
{
    let statement = Query::MoveAt { game_id, position }.statement();
    match select(conn, statement.sql, &statement.args, map_integer) {
        Ok(found) => {
            proof {
                if found.len() > 0 {
                    lemma_stored_integer(found[0]);
                }
            }
            Ok(position_taken(&found))
        },
        Err(error) => Err(storage_failure(error)),
    }
}

/// The integer in the first row of the store's answer to the query for the
/// highest move number of the game `game_id`; 0 where the answer is empty.
fn highest_move_number(conn: &rusqlite::Connection, game_id: i64) -> (r: ServiceResult<i64>)
    ensures
        r matches Ok(highest) ==> highest == 0 || is_stored_integer(highest),
        r matches Err(error) ==> is_storage_failure(error),
{
    let statement = Query::HighestMoveNumber { game_id }.statement();
    match select(conn, statement.sql, &statement.args, map_integer) {
        Ok(found) => {
            proof {
                if found.len() > 0 {
                    lemma_stored_integer(found[0]);
                }
            }
            Ok(highest_or_zero(found))
        },
        Err(error) => Err(storage_failure(error)),
    }
}

/// Creates a game of the given board size, in progress and with X to move,
/// and returns it as the store holds it: the game returned is the decoding
/// of the row that the store answers for the identifier of the insertion.
pub fn create_game(conn: &rusqlite::Connection, board_size: i64) -> (r: ServiceResult<Game>)
    ensures
        r matches Ok(game) ==> is_stored_game(game),
        r matches Err(error) ==> is_storage_failure(error) || is_internal(
            error,
            CREATED_GAME_MISSING@,
        ),
{
    execute(conn, Command::CreateGame { board_size })?;
    let game_id = last_insert_rowid(conn);
    created_or_internal(fetch_game(conn, game_id)?)
}

/// The game `game_id`.
pub fn get_game_by_id(conn: &rusqlite::Connection, game_id: i64) -> (r: ServiceResult<Game>)
    ensures
        r matches Ok(game) ==> is_stored_game(game),
        r matches Err(error) ==> is_storage_failure(error) || is_not_found(
            error,
            not_found_text(game_id as int),
        ),
{
    found_or_missing(fetch_game(conn, game_id)?, game_id)
}

/// The game `game_id` with its moves, by ascending move number.
pub fn get_game_with_moves(conn: &rusqlite::Connection, game_id: i64) -> (r: ServiceResult<
    GameWithMoves,
>)
    ensures
        r matches Ok(full) ==> is_stored_game(full.game) && are_stored_moves(full.moves@),
        r matches Err(error) ==> is_storage_failure(error) || is_not_found(
            error,
            not_found_text(game_id as int),
        ),
{
    let game = found_or_missing(fetch_game(conn, game_id)?, game_id)?;
    let moves = fetch_game_moves(conn, game_id)?;
    Ok(GameWithMoves { game, moves })
}

/// The most recently created games, newest first, each with the number of
/// its moves: of the given status only where the filter names one, and never
/// more than `MAX_RETURNED_GAMES`.
pub fn get_games(conn: &rusqlite::Connection, filters: GameFilters) -> (r: ServiceResult<
    Vec<GameListItem>,
>)
    ensures
        r matches Ok(games) ==> games.len() <= MAX_RETURNED_GAMES && are_stored_items(games@),
        r matches Err(error) ==> is_storage_failure(error),
{
    let statement = Query::Games { status: filters.status, limit: MAX_RETURNED_GAMES }.statement();
    match select(conn, statement.sql, &statement.args, map_game_list_item) {
        Ok(games) => {
            proof {
                assert forall|i: int| 0 <= i < games.len() implies is_stored_item(
                    #[trigger] games[i],
                ) by {
                    lemma_stored_item(games[i]);
                }
            }
            Ok(cap_listing(games))
        },
        Err(error) => Err(storage_failure(error)),
    }
}

/// Applies `updates` to the game `game_id` in a single write and returns the
/// game as the store holds it afterwards. Where `updates` supplies no field,
/// nothing is written and the game is returned as it is.
pub fn update_game(conn: &rusqlite::Connection, game_id: i64, updates: GameUpdate) -> (r:
    ServiceResult<Game>)
    ensures
        r matches Ok(game) ==> is_stored_game(game),
        r matches Err(error) ==> is_storage_failure(error) || is_not_found(
            error,
            not_found_text(game_id as int),
        ) || is_internal(error, UPDATED_GAME_MISSING@),
        updates.status is None && updates.winner is None ==> !(r matches Err(error)
            && error is Internal),
{
    let existing = found_or_missing(fetch_game(conn, game_id)?, game_id)?;
    match plan_update(game_id, &updates) {
        None => Ok(existing),
        Some(command) => {
            execute(conn, command)?;
            updated_or_internal(fetch_game(conn, game_id)?)
        },
    }
}

/// Deletes the game `game_id`; the store removes its moves with it.
pub fn delete_game(conn: &rusqlite::Connection, game_id: i64) -> (r: ServiceResult<()>)
    ensures
        r matches Err(error) ==> is_storage_failure(error) || is_not_found(
            error,
            not_found_text(game_id as int),
        ),
{
    let rows = execute(conn, Command::DeleteGame { game_id })?;
    deleted_or_missing(rows, game_id)
}

/// Whether `error` is one of the errors with which a move by `player` to
/// `position` of the game `game_id` can end.
pub open spec fn is_move_failure(
    error: ServiceError,
    game_id: i64,
    position: i64,
    player: Player,
) -> bool {
    ||| is_storage_failure(error)
    ||| is_not_found(error, not_found_text(game_id as int))
    ||| is_invalid_input(error, FINISHED_GAME@)
    ||| is_invalid_input(error, wrong_turn_text(player.opponent(), player))
    ||| is_invalid_input(error, taken_text(position as int))
    ||| is_internal(error, MOVE_NUMBER_EXHAUSTED@)
    ||| is_internal(error, RECORDED_MOVE_MISSING@)
}

/// The steps of adding a move, inside the transaction that `add_move` opens.
fn apply_move(conn: &rusqlite::Connection, game_id: i64, position: i64, player: Player) -> (r:
    ServiceResult<GameMove>)
    ensures
        r matches Ok(entry) ==> is_stored_move(entry),
        r matches Err(error) ==> is_move_failure(error, game_id, position, player),
{
    let game = found_or_missing(fetch_game(conn, game_id)?, game_id)?;
    check_turn(&game, player)?;
    let occupied = move_exists(conn, game_id, position)?;
    let highest = highest_move_number(conn, game_id)?;
    let plan = plan_move(&game, occupied, highest, position, player)?;
    execute(conn, plan.insert_command())?;
    let move_id = last_insert_rowid(conn);
    execute(conn, plan.turn_command())?;
    recorded_or_internal(fetch_move(conn, move_id)?)
}

/// Takes one step of a transaction: runs the statement of the step.
fn transact(conn: &rusqlite::Connection, step: TransactionStep) -> (r: ServiceResult<()>)
    ensures
        r matches Err(error) ==> is_storage_failure(error),
{
    match run_batch(conn, step.statement()) {
        Ok(()) => Ok(()),
        Err(error) => Err(storage_failure(error)),
    }
}

/// Ends the transaction of an operation: commits where it succeeded and
/// rolls back where it failed. A commit that fails is rolled back and
/// reported as a failure of the store.
fn settle<T>(conn: &rusqlite::Connection, outcome: ServiceResult<T>) -> (r: ServiceResult<T>)
    ensures
        outcome is Err ==> r == outcome,
        outcome is Ok ==> r == outcome || (r matches Err(error) && is_storage_failure(error)),
{
    match outcome {
        Ok(value) => match transact(conn, TransactionStep::Commit) {
            Ok(()) => Ok(value),
            Err(error) => {
                let _ = transact(conn, TransactionStep::Rollback);
                Err(error)
            },
        },
        Err(error) => {
            let _ = transact(conn, TransactionStep::Rollback);
            Err(error)
        },
    }
}

/// Adds a move by `player` to `position` of the game `game_id` and returns
/// it as the store holds it.
///
/// The game is read, the move is checked against its status, its turn and
/// its occupied positions, numbered after the highest move of the game,
/// inserted, and the turn is handed to the other side. All of this happens
/// in one immediate transaction: no other writer can come between the checks
/// and the insertion, and a failure at any step leaves the store as it was.
/// `conn` must not be inside a transaction of the caller's.
pub fn add_move(conn: &rusqlite::Connection, game_id: i64, position: i64, player: Player) -> (r:
    ServiceResult<GameMove>)
    ensures
        r matches Ok(entry) ==> is_stored_move(entry),
        r matches Err(error) ==> is_move_failure(error, game_id, position, player),
{
    transact(conn, TransactionStep::Begin)?;
    let outcome = apply_move(conn, game_id, position, player);
    settle(conn, outcome)
}

/// The moves of the game `game_id`, by ascending move number.
pub fn get_game_moves(conn: &rusqlite::Connection, game_id: i64) -> (r: ServiceResult<
    Vec<GameMove>,
>)
    ensures
        r matches Ok(moves) ==> are_stored_moves(moves@),
        r matches Err(error) ==> is_storage_failure(error) || is_not_found(
            error,
            not_found_text(game_id as int),
        ),
{
    found_or_missing(fetch_game(conn, game_id)?, game_id)?;
    fetch_game_moves(conn, game_id)
}

} // verus!
