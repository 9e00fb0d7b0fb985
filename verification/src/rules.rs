//! The decisions of the engine, from what the store answered to what is
//! returned and what is written.

use vstd::prelude::*;
use vstd::string::*;
use crate::errors::{ServiceError, ServiceResult};
use crate::models::{Game, GameListItem, GameMove, GameStatus, Player};
use crate::services::game::GameUpdate;
use crate::statements::Command;
use crate::text::{integer_text, join, render_integer};

verus! {

/// The largest number of games one listing returns.
pub const MAX_RETURNED_GAMES: i64 = 100;

pub const FINISHED_GAME: &'static str = "Cannot add a move to a finished game";

pub const MOVE_NUMBER_EXHAUSTED: &'static str = "Move number out of range";

pub const CREATED_GAME_MISSING: &'static str = "Failed to load newly created game";

pub const UPDATED_GAME_MISSING: &'static str = "Hra po aktualizaci nebyla nalezena";

pub const RECORDED_MOVE_MISSING: &'static str = "Failed to load newly recorded move";

/// The text that reports a game as missing.
pub open spec fn not_found_text(game_id: int) -> Seq<char> {
    "Hra s ID "@ + integer_text(game_id) + " nebyla nalezena"@
}

/// The text that rejects a move made out of turn.
pub open spec fn wrong_turn_text(current: Player, given: Player) -> Seq<char> {
    "It's "@ + current.token() + "'s turn, not "@ + given.token() + "'s"@
}

/// The text that rejects a move to an occupied position.
pub open spec fn taken_text(position: int) -> Seq<char> {
    "Position "@ + integer_text(position) + " is already taken"@
}

/// Whether `error` is the invalid-input error with the given text.
pub open spec fn is_invalid_input(error: ServiceError, text: Seq<char>) -> bool {
    error matches ServiceError::InvalidInput(message) && message@ == text
}

/// Whether `error` is the not-found error with the given text.
pub open spec fn is_not_found(error: ServiceError, text: Seq<char>) -> bool {
    error matches ServiceError::NotFound(message) && message@ == text
}

/// Whether `error` is the internal error with the given text.
pub open spec fn is_internal(error: ServiceError, text: Seq<char>) -> bool {
    error matches ServiceError::Internal(message) && message@ == text
}

/// The error that reports the game `game_id` as missing.
pub fn game_not_found(game_id: i64) -> (error: ServiceError)
    ensures
        is_not_found(error, not_found_text(game_id as int)),
{
    let mut message = join("Hra s ID ", render_integer(game_id).as_str());
    message.append(" nebyla nalezena");
    ServiceError::NotFound(message)
}

/// What the engine decides about a submitted move.
#[derive(Debug, Clone, Copy, PartialEq, Eq, Structural)]
pub enum Verdict {
    /// The game is no longer in progress.
    Finished,
    /// It is the other side's turn.
    WrongTurn,
    /// The position already holds a move.
    Taken,
    /// No move number is left after the highest one.
    Exhausted,
    /// The move is accepted under `move_number`, and `next_player` moves next.
    Accepted { move_number: i64, next_player: Player },
}

/// The decision about a move by `player`, given the status of the game, whose
/// turn it is, whether the position is occupied, and the highest move number
/// of the game so far (0 where it has none). The checks apply in this order:
/// status, turn, occupancy.
pub open spec fn move_verdict(
    status: GameStatus,
    current_player: Player,
    occupied: bool,
    highest: i64,
    player: Player,
) -> Verdict {
    if status != GameStatus::InProgress {
        Verdict::Finished
    } else if current_player != player {
        Verdict::WrongTurn
    } else if occupied {
        Verdict::Taken
    } else if highest == i64::MAX {
        Verdict::Exhausted
    } else {
        Verdict::Accepted { move_number: (highest + 1) as i64, next_player: player.opponent() }
    }
}

/// Whether `error` reports the rejecting `verdict` about a move by `player`
/// to `position`, when it is `current_player`'s turn.
pub open spec fn reports(
    error: ServiceError,
    verdict: Verdict,
    current_player: Player,
    position: i64,
    player: Player,
) -> bool {
    match verdict {
        Verdict::Finished => is_invalid_input(error, FINISHED_GAME@),
        Verdict::WrongTurn => is_invalid_input(error, wrong_turn_text(current_player, player)),
        Verdict::Taken => is_invalid_input(error, taken_text(position as int)),
        Verdict::Exhausted => is_internal(error, MOVE_NUMBER_EXHAUSTED@),
        Verdict::Accepted { .. } => false,
    }
}

/// What an accepted move writes: the move itself, then the turn.
#[derive(Debug, Clone, Copy, PartialEq, Eq, Structural)]
pub struct MovePlan {
    pub game_id: i64,
    pub move_number: i64,
    pub position: i64,
    pub player: Player,
    pub next_player: Player,
}

impl MovePlan {
    /// The command that appends the move.
    pub open spec fn insertion(self) -> Command {
        Command::InsertMove {
            game_id: self.game_id,
            move_number: self.move_number,
            position: self.position,
            player: self.player,
        }
    }

    /// The command that hands the turn over.
    pub open spec fn handover(self) -> Command {
        Command::SetCurrentPlayer { game_id: self.game_id, player: self.next_player }
    }

    /// The command that appends the move.
    pub fn insert_command(&self) -> (command: Command)
        ensures
            command == self.insertion(),
    {
        Command::InsertMove {
            game_id: self.game_id,
            move_number: self.move_number,
            position: self.position,
            player: self.player,
        }
    }

    /// The command that hands the turn over.
    pub fn turn_command(&self) -> (command: Command)
        ensures
            command == self.handover(),
    {
        Command::SetCurrentPlayer { game_id: self.game_id, player: self.next_player }
    }
}

/// Accepts a move only in a game in progress, and only from the side whose
/// turn it is.
pub fn check_turn(game: &Game, player: Player) -> (r: ServiceResult<()>)
    ensures
        r is Ok <==> game.status == GameStatus::InProgress && game.current_player == player,
        r matches Err(error) ==> {
            if game.status != GameStatus::InProgress {
                is_invalid_input(error, FINISHED_GAME@)
            } else {
                is_invalid_input(error, wrong_turn_text(game.current_player, player))
            }
        },
{
    if game.status != GameStatus::InProgress {
        return Err(ServiceError::InvalidInput(String::from_str(FINISHED_GAME)));
    }
    if game.current_player != player {
        let mut message = join("It's ", game.current_player.as_str());
        message.append("'s turn, not ");
        message.append(player.as_str());
        message.append("'s");
        return Err(ServiceError::InvalidInput(message));
    }
    Ok(())
}

/// Accepts a move only to a position that no move occupies.
pub fn check_vacancy(occupied: bool, position: i64) -> (r: ServiceResult<()>)
    ensures
        r is Ok <==> !occupied,
        r matches Err(error) ==> is_invalid_input(error, taken_text(position as int)),
{
    if occupied {
        let mut message = join("Position ", render_integer(position).as_str());
        message.append(" is already taken");
        Err(ServiceError::InvalidInput(message))
    } else {
        Ok(())
    }
}

/// The number of the next move of a game whose highest move number so far is
/// `highest` (0 where it has no move).
pub fn next_move_number(highest: i64) -> (r: ServiceResult<i64>)
    ensures
        highest < i64::MAX ==> r == Ok::<i64, ServiceError>((highest + 1) as i64),
        highest == i64::MAX ==> (r matches Err(error) && is_internal(
            error,
            MOVE_NUMBER_EXHAUSTED@,
        )),
{
    if highest < i64::MAX {
        Ok(highest + 1)
    } else {
        Err(ServiceError::Internal(String::from_str(MOVE_NUMBER_EXHAUSTED)))
    }
}

/// Decides about a move by `player` to `position` of `game`, where
/// `occupied` says whether a move of the game holds that position, and
/// `highest` is the highest move number of the game so far (0 where it has
/// no move).
pub fn plan_move(
    game: &Game,
    occupied: bool,
    highest: i64,
    position: i64,
    player: Player,
) -> (r: ServiceResult<MovePlan>)
    ensures
        match move_verdict(game.status, game.current_player, occupied, highest, player) {
            Verdict::Accepted { move_number, next_player } => r == Ok::<MovePlan, ServiceError>(
                MovePlan { game_id: game.id, move_number, position, player, next_player },
            ),
            rejection => r matches Err(error) && reports(
                error,
                rejection,
                game.current_player,
                position,
                player,
            ),
        },
{
    check_turn(game, player)?;
    check_vacancy(occupied, position)?;
    let move_number = next_move_number(highest)?;
    Ok(MovePlan { game_id: game.id, move_number, position, player, next_player: player.other() })
}

/// The command that applies `updates` to the game `game_id`: exactly the
/// fields supplied, and none where nothing is supplied.
pub open spec fn update_command(game_id: i64, updates: GameUpdate) -> Option<Command> {
    match (updates.status, updates.winner) {
        (None, None) => None,
        (Some(status), Some(winner)) => Some(
            Command::SetStatusAndWinner { game_id, status, winner },
        ),
        (Some(status), None) => Some(Command::SetStatus { game_id, status }),
        (None, Some(winner)) => Some(Command::SetWinner { game_id, winner }),
    }
}

/// The command that applies `updates` to the game `game_id`, if they change
/// anything.
pub fn plan_update(game_id: i64, updates: &GameUpdate) -> (r: Option<Command>)
    ensures
        r == update_command(game_id, *updates),
{
    match (updates.status, updates.winner) {
        (None, None) => None,
        (Some(status), Some(winner)) => Some(
            Command::SetStatusAndWinner { game_id, status, winner },
        ),
        (Some(status), None) => Some(Command::SetStatus { game_id, status }),
        (None, Some(winner)) => Some(Command::SetWinner { game_id, winner }),
    }
}

/// The game that was looked up, or the error that reports it as missing.
pub fn found_or_missing(found: Option<Game>, game_id: i64) -> (r: ServiceResult<Game>)
    ensures
        match found {
            Some(game) => r == Ok::<Game, ServiceError>(game),
            None => r matches Err(error) && is_not_found(error, not_found_text(game_id as int)),
        },
{
    match found {
        Some(game) => Ok(game),
        None => Err(game_not_found(game_id)),
    }
}

/// The game read back after its creation; that it is missing means that the
/// store is inconsistent.
pub fn created_or_internal(found: Option<Game>) -> (r: ServiceResult<Game>)
    ensures
        match found {
            Some(game) => r == Ok::<Game, ServiceError>(game),
            None => r matches Err(error) && is_internal(error, CREATED_GAME_MISSING@),
        },
{
    match found {
        Some(game) => Ok(game),
        None => Err(ServiceError::Internal(String::from_str(CREATED_GAME_MISSING))),
    }
}

/// The game read back after its update; that it is missing means that the
/// store is inconsistent.
pub fn updated_or_internal(found: Option<Game>) -> (r: ServiceResult<Game>)
    ensures
        match found {
            Some(game) => r == Ok::<Game, ServiceError>(game),
            None => r matches Err(error) && is_internal(error, UPDATED_GAME_MISSING@),
        },
{
    match found {
        Some(game) => Ok(game),
        None => Err(ServiceError::Internal(String::from_str(UPDATED_GAME_MISSING))),
    }
}

/// The move read back after it was recorded; that it is missing means that
/// the store is inconsistent.
pub fn recorded_or_internal(found: Option<GameMove>) -> (r: ServiceResult<GameMove>)
    ensures
        match found {
            Some(entry) => r == Ok::<GameMove, ServiceError>(entry),
            None => r matches Err(error) && is_internal(error, RECORDED_MOVE_MISSING@),
        },
{
    match found {
        Some(entry) => Ok(entry),
        None => Err(ServiceError::Internal(String::from_str(RECORDED_MOVE_MISSING))),
    }
}

/// The outcome of deleting the game `game_id`, given the number of rows the
/// deletion removed from the table of games.
pub fn deleted_or_missing(rows: usize, game_id: i64) -> (r: ServiceResult<()>)
    ensures
        rows > 0 ==> r is Ok,
        rows == 0 ==> (r matches Err(error) && is_not_found(
            error,
            not_found_text(game_id as int),
        )),
{
    if rows == 0 {
        Err(game_not_found(game_id))
    } else {
        Ok(())
    }
}

/// Whether a position is taken, given the identifiers of the moves that the
/// store found at it: it is taken where the store found one.
pub fn position_taken(found: &Vec<i64>) -> (taken: bool)
    ensures
        taken == (found.len() > 0),
{
    found.len() > 0
}

/// The highest move number of a game, given the answer of the store to the
/// query for it: the first number of the answer, or 0 where the answer is
/// empty.
pub fn highest_or_zero(found: Vec<i64>) -> (highest: i64)
    ensures
        found.len() == 0 ==> highest == 0,
        found.len() > 0 ==> highest == found[0],
{
    match first(found) {
        Some(highest) => highest,
        None => 0,
    }
}

/// The first of `items`, if there is one.
pub fn first<T>(items: Vec<T>) -> (r: Option<T>)
    ensures
        items.len() == 0 ==> r is None,
        items.len() > 0 ==> r == Some(items[0]),
{
    let mut items = items;
    if items.len() == 0 {
        None
    } else {
        Some(items.remove(0))
    }
}

/// The leading games of a listing, up to the cap.
pub fn cap_listing(items: Vec<GameListItem>) -> (r: Vec<GameListItem>)
    ensures
        r.len() <= MAX_RETURNED_GAMES,
        r@ == items@.take(
            if items.len() <= MAX_RETURNED_GAMES {
                items.len() as int
            } else {
                MAX_RETURNED_GAMES as int
            },
        ),
{
    let mut items = items;
    if items.len() > MAX_RETURNED_GAMES as usize {
        items.truncate(MAX_RETURNED_GAMES as usize);
    } else {
        assert(items@ =~= items@.take(items.len() as int));
    }
    items
}

} // verus!
