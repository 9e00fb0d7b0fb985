//! A mathematical model of the store, the meaning of each command and of
//! each listing on it, and the invariants of games and moves that the engine
//! maintains.
//!
//! The engine decides with `move_verdict` and `update_command` and writes
//! with the commands of `MovePlan`; the operations of the model are built
//! from the same functions, so what is proved here of the model is proved of
//! the engine's decisions, for a store that answers and executes as the
//! model says.

use vstd::prelude::*;
use crate::models::{GameStatus, GameWinner, Player};
use crate::rules::{move_verdict, update_command, MovePlan, Verdict};
use crate::services::game::GameUpdate;
use crate::statements::Command;

verus! {

/// What the store holds of a game, besides its identifier and timestamps.
pub struct GameRecord {
    pub board_size: i64,
    pub status: GameStatus,
    pub winner: Option<GameWinner>,
    pub current_player: Player,
}

/// What the store holds of a move, besides its identifier and timestamp.
pub struct MoveRecord {
    pub game_id: i64,
    pub move_number: i64,
    pub position: i64,
    pub player: Player,
}

/// The store: the games by identifier, their identifiers in the order in
/// which they were created, and the moves of all games in the order in which
/// they were inserted.
pub struct Ledger {
    pub games: Map<i64, GameRecord>,
    pub created: Seq<i64>,
    pub moves: Seq<MoveRecord>,
}

/// One line of a listing: a game and the number of its moves.
pub struct ListedGame {
    pub game_id: i64,
    pub move_count: nat,
}

/// The side to move after `n` accepted moves of a game.
pub open spec fn turn_after(n: nat) -> Player {
    if n % 2 == 0 {
        Player::X
    } else {
        Player::O
    }
}

/// The number of moves of the game `game_id`.
pub open spec fn count(moves: Seq<MoveRecord>, game_id: i64) -> nat
    decreases moves.len(),
{
    if moves.len() == 0 {
        0
    } else if moves.last().game_id == game_id {
        count(moves.drop_last(), game_id) + 1
    } else {
        count(moves.drop_last(), game_id)
    }
}

/// Whether a move of the game `game_id` occupies `position`.
pub open spec fn occupied(moves: Seq<MoveRecord>, game_id: i64, position: i64) -> bool
    decreases moves.len(),
{
    moves.len() > 0 && ((moves.last().game_id == game_id && moves.last().position == position)
        || occupied(moves.drop_last(), game_id, position))
}

/// The highest move number of the game `game_id`, if it has a move.
pub open spec fn highest(moves: Seq<MoveRecord>, game_id: i64) -> Option<i64>
    decreases moves.len(),
{
    if moves.len() == 0 {
        None
    } else if moves.last().game_id != game_id {
        highest(moves.drop_last(), game_id)
    } else {
        match highest(moves.drop_last(), game_id) {
            Some(h) if h >= moves.last().move_number => Some(h),
            _ => Some(moves.last().move_number),
        }
    }
}

/// The highest move number of the game `game_id`, or 0 where it has no move.
pub open spec fn highest_or_zero(moves: Seq<MoveRecord>, game_id: i64) -> i64 {
    match highest(moves, game_id) {
        Some(h) => h,
        None => 0,
    }
}

/// The moves of the game `game_id`, in insertion order.
pub open spec fn moves_of(moves: Seq<MoveRecord>, game_id: i64) -> Seq<MoveRecord>
    decreases moves.len(),
{
    if moves.len() == 0 {
        Seq::empty()
    } else if moves.last().game_id == game_id {
        moves_of(moves.drop_last(), game_id).push(moves.last())
    } else {
        moves_of(moves.drop_last(), game_id)
    }
}

/// The moves that are left when those of the game `game_id` are removed.
pub open spec fn without_game(moves: Seq<MoveRecord>, game_id: i64) -> Seq<MoveRecord>
    decreases moves.len(),
{
    if moves.len() == 0 {
        Seq::empty()
    } else if moves.last().game_id == game_id {
        without_game(moves.drop_last(), game_id)
    } else {
        without_game(moves.drop_last(), game_id).push(moves.last())
    }
}

/// The identifiers that are left when `game_id` is removed.
pub open spec fn without_id(ids: Seq<i64>, game_id: i64) -> Seq<i64>
    decreases ids.len(),
{
    if ids.len() == 0 {
        Seq::empty()
    } else if ids.last() == game_id {
        without_id(ids.drop_last(), game_id)
    } else {
        without_id(ids.drop_last(), game_id).push(ids.last())
    }
}

/// Whether `later` stands after `earlier` in the order of creation.
pub open spec fn created_after(created: Seq<i64>, later: i64, earlier: i64) -> bool {
    exists|i: int, j: int|
        0 <= j < i < created.len() && #[trigger] created[i] == later && #[trigger] created[j]
            == earlier
}

/// Whether a game passes the filter of a listing: it has the status that
/// the filter names, where it names one.
pub open spec fn passes(game: GameRecord, status: Option<GameStatus>) -> bool {
    match status {
        Some(wanted) => game.status == wanted,
        None => true,
    }
}

/// Of the identifiers `created`, in the order of creation, those of the
/// games that pass the filter, the most recently created first.
pub open spec fn selected(
    created: Seq<i64>,
    games: Map<i64, GameRecord>,
    status: Option<GameStatus>,
) -> Seq<i64>
    decreases created.len(),
{
    if created.len() == 0 {
        Seq::empty()
    } else {
        let older = selected(created.drop_last(), games, status);
        if games.contains_key(created.last()) && passes(games[created.last()], status) {
            seq![created.last()] + older
        } else {
            older
        }
    }
}

/// Each move was inserted under the number that follows the moves its game
/// had before, at a position that none of them occupied, by the side whose
/// turn it was.
pub open spec fn well_ordered(moves: Seq<MoveRecord>) -> bool
    decreases moves.len(),
{
    moves.len() == 0 || {
        let earlier = moves.drop_last();
        let last = moves.last();
        &&& well_ordered(earlier)
        &&& last.move_number == count(earlier, last.game_id) + 1
        &&& !occupied(earlier, last.game_id, last.position)
        &&& last.player == turn_after(count(earlier, last.game_id))
    }
}

/// One operation of the engine that changes the store.
pub enum Operation {
    /// Creating a game, to which the store assigns `game_id`.
    Create { game_id: i64, board_size: i64 },
    Update { game_id: i64, updates: GameUpdate },
    Delete { game_id: i64 },
    AddMove { game_id: i64, position: i64, player: Player },
}

/// How an attempt to add a move ends.
pub enum MoveOutcome {
    /// The game does not exist.
    NotFound,
    /// The move was rejected; the verdict says why.
    Rejected(Verdict),
    /// The move was accepted and inserted as this record.
    Accepted(MoveRecord),
}

impl Ledger {
    /// The store before any game was created.
    pub open spec fn empty() -> Ledger {
        Ledger { games: Map::empty(), created: Seq::empty(), moves: Seq::empty() }
    }

    /// The invariants of the store: the moves are well ordered, every move
    /// belongs to a game, in every game it is X's turn after an even number
    /// of moves and O's after an odd number, and the order of creation holds
    /// every game once.
    pub open spec fn wf(self) -> bool {
        &&& self.created.no_duplicates()
        &&& forall|id: i64| self.created.contains(id) <==> #[trigger] self.games.contains_key(id)
        &&& well_ordered(self.moves)
        &&& forall|i: int|
            0 <= i < self.moves.len() ==> self.games.contains_key(
                #[trigger] self.moves[i].game_id,
            )
        &&& forall|game_id: i64| #[trigger]
            self.games.contains_key(game_id) ==> self.games[game_id].current_player == turn_after(
                count(self.moves, game_id),
            )
    }

    /// The store after `command`. `rowid` is the identifier that the store
    /// assigns where the command creates a game. A command that addresses a
    /// game that does not exist changes nothing.
    pub open spec fn apply(self, command: Command, rowid: i64) -> Ledger {
        match command {
            Command::CreateGame { board_size } => Ledger {
                games: self.games.insert(
                    rowid,
                    GameRecord {
                        board_size,
                        status: GameStatus::InProgress,
                        winner: None,
                        current_player: Player::X,
                    },
                ),
                created: self.created.push(rowid),
                ..self
            },
            Command::SetStatusAndWinner { game_id, status, winner } => {
                if self.games.contains_key(game_id) {
                    Ledger {
                        games: self.games.insert(
                            game_id,
                            GameRecord { status, winner, ..self.games[game_id] },
                        ),
                        ..self
                    }
                } else {
                    self
                }
            },
            Command::SetStatus { game_id, status } => {
                if self.games.contains_key(game_id) {
                    Ledger {
                        games: self.games.insert(
                            game_id,
                            GameRecord { status, ..self.games[game_id] },
                        ),
                        ..self
                    }
                } else {
                    self
                }
            },
            Command::SetWinner { game_id, winner } => {
                if self.games.contains_key(game_id) {
                    Ledger {
                        games: self.games.insert(
                            game_id,
                            GameRecord { winner, ..self.games[game_id] },
                        ),
                        ..self
                    }
                } else {
                    self
                }
            },
            Command::DeleteGame { game_id } => Ledger {
                games: self.games.remove(game_id),
                created: without_id(self.created, game_id),
                moves: without_game(self.moves, game_id),
            },
            Command::InsertMove { game_id, move_number, position, player } => {
                if self.games.contains_key(game_id) {
                    Ledger {
                        moves: self.moves.push(
                            MoveRecord { game_id, move_number, position, player },
                        ),
                        ..self
                    }
                } else {
                    self
                }
            },
            Command::SetCurrentPlayer { game_id, player } => {
                if self.games.contains_key(game_id) {
                    Ledger {
                        games: self.games.insert(
                            game_id,
                            GameRecord { current_player: player, ..self.games[game_id] },
                        ),
                        ..self
                    }
                } else {
                    self
                }
            },
        }
    }

    /// Creating a game, to which the store assigns `game_id`.
    pub open spec fn create_game(self, game_id: i64, board_size: i64) -> Ledger {
        self.apply(Command::CreateGame { board_size }, game_id)
    }

    /// Updating a game: the store afterwards, and whether the game exists.
    pub open spec fn update_game(self, game_id: i64, updates: GameUpdate) -> (Ledger, bool) {
        if !self.games.contains_key(game_id) {
            (self, false)
        } else {
            match update_command(game_id, updates) {
                Some(command) => (self.apply(command, 0), true),
                None => (self, true),
            }
        }
    }

    /// Deleting a game: the store afterwards, and whether the game existed.
    pub open spec fn delete_game(self, game_id: i64) -> (Ledger, bool) {
        if self.games.contains_key(game_id) {
            (self.apply(Command::DeleteGame { game_id }, 0), true)
        } else {
            (self, false)
        }
    }

    /// The games that pass the filter, the most recently created first.
    pub open spec fn newest_first(self, status: Option<GameStatus>) -> Seq<i64> {
        selected(self.created, self.games, status)
    }

    /// Listing games: those that pass the filter, the most recently created
    /// first and at most `limit` of them, each with the number of its moves.
    pub open spec fn list_games(self, status: Option<GameStatus>, limit: nat) -> Seq<ListedGame> {
        let all = self.newest_first(status);
        let shown = if all.len() <= limit {
            all
        } else {
            all.take(limit as int)
        };
        shown.map_values(
            |game_id: i64| ListedGame { game_id, move_count: count(self.moves, game_id) },
        )
    }

    /// Listing the moves of a game; `None` where the game does not exist.
    pub open spec fn game_moves(self, game_id: i64) -> Option<Seq<MoveRecord>> {
        if self.games.contains_key(game_id) {
            Some(moves_of(self.moves, game_id))
        } else {
            None
        }
    }

    /// Adding a move: the store afterwards, and how the attempt ended. The
    /// verdict is taken on what the store holds; an accepted move is
    /// inserted and the turn handed over, and any other outcome leaves the
    /// store as it is.
    pub open spec fn add_move(self, game_id: i64, position: i64, player: Player) -> (
        Ledger,
        MoveOutcome,
    ) {
        if !self.games.contains_key(game_id) {
            (self, MoveOutcome::NotFound)
        } else {
            let game = self.games[game_id];
            match move_verdict(
                game.status,
                game.current_player,
                occupied(self.moves, game_id, position),
                highest_or_zero(self.moves, game_id),
                player,
            ) {
                Verdict::Accepted { move_number, next_player } => {
                    let plan = MovePlan { game_id, move_number, position, player, next_player };
                    (
                        self.apply(plan.insertion(), 0).apply(plan.handover(), 0),
                        MoveOutcome::Accepted(
                            MoveRecord { game_id, move_number, position, player },
                        ),
                    )
                },
                rejection => (self, MoveOutcome::Rejected(rejection)),
            }
        }
    }

    /// The store after one operation. The store assigns to a new game an
    /// identifier that no game has; a creation under an identifier in use
    /// does not happen and changes nothing.
    pub open spec fn step(self, operation: Operation) -> Ledger {
        match operation {
            Operation::Create { game_id, board_size } => {
                if self.games.contains_key(game_id) {
                    self
                } else {
                    self.create_game(game_id, board_size)
                }
            },
            Operation::Update { game_id, updates } => self.update_game(game_id, updates).0,
            Operation::Delete { game_id } => self.delete_game(game_id).0,
            Operation::AddMove { game_id, position, player } => self.add_move(
                game_id,
                position,
                player,
            ).0,
        }
    }

    /// The store after the operations `history`, one after the other, on a
    /// store that was empty.
    pub open spec fn after(history: Seq<Operation>) -> Ledger
        decreases history.len(),
    {
        if history.len() == 0 {
            Ledger::empty()
        } else {
            Ledger::after(history.drop_last()).step(history.last())
        }
    }

    /// The store after the attempts `requests`, each a position and a
    /// player, to add a move to the game `game_id`, one after the other.
    pub open spec fn replay(self, game_id: i64, requests: Seq<(i64, Player)>) -> Ledger
        decreases requests.len(),
    {
        if requests.len() == 0 {
            self
        } else {
            self.replay(game_id, requests.drop_last()).add_move(
                game_id,
                requests.last().0,
                requests.last().1,
            ).0
        }
    }

    /// Whether each of the attempts `requests` is accepted when they are
    /// made one after the other.
    pub open spec fn all_accepted(self, game_id: i64, requests: Seq<(i64, Player)>) -> bool
        decreases requests.len(),
    {
        requests.len() == 0 || (self.all_accepted(game_id, requests.drop_last())
            && self.replay(game_id, requests.drop_last()).add_move(
            game_id,
            requests.last().0,
            requests.last().1,
        ).1 is Accepted)
    }
}

} // verus!
