//! The statements the engine sends to the store: which text, with which
//! arguments, stands for each write and each read.

use vstd::prelude::*;
use crate::models::{GameStatus, GameWinner, Player};

verus! {

/// One argument bound to a placeholder of a statement.
#[derive(Debug, Clone, Copy, PartialEq, Eq)]
pub enum SqlArg {
    Null,
    Integer(i64),
    Text(&'static str),
}

/// What an argument binds: NULL, an integer or a text.
pub enum SqlDatum {
    Null,
    Integer(i64),
    Text(Seq<char>),
}

impl View for SqlArg {
    type V = SqlDatum;

    open spec fn view(&self) -> SqlDatum {
        match self {
            SqlArg::Null => SqlDatum::Null,
            SqlArg::Integer(n) => SqlDatum::Integer(*n),
            SqlArg::Text(text) => SqlDatum::Text(text@),
        }
    }
}

/// A statement ready to run: its text and the arguments for `?1`, `?2`, ...
/// in order.
#[derive(Debug)]
pub struct Statement {
    pub sql: &'static str,
    pub args: Vec<SqlArg>,
}

impl Statement {
    /// What the arguments bind, in placeholder order.
    pub open spec fn bound(&self) -> Seq<SqlDatum> {
        self.args@.map_values(|arg: SqlArg| arg@)
    }
}

pub const INSERT_GAME: &'static str =
    "INSERT INTO games (board_size, status, current_player) VALUES (?1, ?2, ?3)";

pub const UPDATE_STATUS_AND_WINNER: &'static str =
    "UPDATE games SET status = ?1, winner = ?2 WHERE id = ?3";

pub const UPDATE_STATUS: &'static str = "UPDATE games SET status = ?1 WHERE id = ?2";

pub const UPDATE_WINNER: &'static str = "UPDATE games SET winner = ?1 WHERE id = ?2";

pub const DELETE_GAME: &'static str = "DELETE FROM games WHERE id = ?1";

pub const INSERT_MOVE: &'static str =
    "INSERT INTO game_moves (game_id, move_number, position, player) VALUES (?1, ?2, ?3, ?4)";

pub const UPDATE_CURRENT_PLAYER: &'static str =
    "UPDATE games SET current_player = ?1 WHERE id = ?2";

pub const SELECT_GAME: &'static str =
    "SELECT id, board_size, status, winner, current_player, created_at, updated_at FROM games WHERE id = ?1";

pub const SELECT_GAME_MOVES: &'static str =
    "SELECT id, game_id, move_number, position, player, created_at FROM game_moves WHERE game_id = ?1 ORDER BY move_number ASC";

pub const SELECT_MOVE: &'static str =
    "SELECT id, game_id, move_number, position, player, created_at FROM game_moves WHERE id = ?1";

pub const SELECT_MOVE_AT: &'static str =
    "SELECT id FROM game_moves WHERE game_id = ?1 AND position = ?2";

pub const SELECT_HIGHEST_MOVE_NUMBER: &'static str =
    "SELECT COALESCE(MAX(move_number), 0) FROM game_moves WHERE game_id = ?1";

pub const SELECT_GAMES: &'static str =
    "SELECT g.id, g.board_size, g.status, g.winner, g.current_player, g.created_at, g.updated_at, COUNT(gm.id) AS move_count FROM games g LEFT JOIN game_moves gm ON g.id = gm.game_id GROUP BY g.id ORDER BY g.created_at DESC, g.id DESC LIMIT ?1";

pub const SELECT_GAMES_BY_STATUS: &'static str =
    "SELECT g.id, g.board_size, g.status, g.winner, g.current_player, g.created_at, g.updated_at, COUNT(gm.id) AS move_count FROM games g LEFT JOIN game_moves gm ON g.id = gm.game_id WHERE g.status = ?1 GROUP BY g.id ORDER BY g.created_at DESC, g.id DESC LIMIT ?2";

pub const BEGIN_IMMEDIATE: &'static str = "BEGIN IMMEDIATE";

pub const COMMIT: &'static str = "COMMIT";

pub const ROLLBACK: &'static str = "ROLLBACK";

pub const FOREIGN_KEYS: &'static str = "foreign_keys";

pub const ON: &'static str = "ON";

pub const JOURNAL_MODE: &'static str = "journal_mode";

pub const WAL: &'static str = "WAL";

/// A step of the transaction in which an operation runs.
#[derive(Debug, Clone, Copy, PartialEq, Eq, Structural)]
pub enum TransactionStep {
    /// Opens a transaction that takes the write lock at once, so that no
    /// other writer comes between its reads and its writes.
    Begin,
    /// Makes the writes of the transaction lasting.
    Commit,
    /// Undoes the writes of the transaction.
    Rollback,
}

impl TransactionStep {
    /// The text of the statement that takes this step.
    pub open spec fn sql(self) -> Seq<char> {
        match self {
            TransactionStep::Begin => BEGIN_IMMEDIATE@,
            TransactionStep::Commit => COMMIT@,
            TransactionStep::Rollback => ROLLBACK@,
        }
    }

    /// The text of the statement that takes this step.
    pub fn statement(&self) -> (sql: &'static str)
        ensures
            sql@ == self.sql(),
    {
        match self {
            TransactionStep::Begin => BEGIN_IMMEDIATE,
            TransactionStep::Commit => COMMIT,
            TransactionStep::Rollback => ROLLBACK,
        }
    }
}

/// A setting that every connection gets before it is used.
#[derive(Debug, Clone, Copy, PartialEq, Eq, Structural)]
pub enum Pragma {
    /// Foreign keys are enforced, so that the moves of a game go with it.
    ForeignKeys,
    /// Writes go to a write-ahead log.
    JournalMode,
}

impl Pragma {
    /// The name of the pragma.
    pub open spec fn name(self) -> Seq<char> {
        match self {
            Pragma::ForeignKeys => FOREIGN_KEYS@,
            Pragma::JournalMode => JOURNAL_MODE@,
        }
    }

    /// The value the pragma is set to.
    pub open spec fn value(self) -> Seq<char> {
        match self {
            Pragma::ForeignKeys => ON@,
            Pragma::JournalMode => WAL@,
        }
    }

    /// The name of the pragma and the value it is set to.
    pub fn setting(&self) -> (pair: (&'static str, &'static str))
        ensures
            pair.0@ == self.name(),
            pair.1@ == self.value(),
    {
        match self {
            Pragma::ForeignKeys => (FOREIGN_KEYS, ON),
            Pragma::JournalMode => (JOURNAL_MODE, WAL),
        }
    }
}

/// The settings of a connection, in the order in which they are made.
pub fn connection_pragmas() -> (pragmas: [Pragma; 2])
    ensures
        pragmas@ == seq![Pragma::ForeignKeys, Pragma::JournalMode],
{
    let pragmas = [Pragma::ForeignKeys, Pragma::JournalMode];
    assert(pragmas@ =~= seq![Pragma::ForeignKeys, Pragma::JournalMode]);
    pragmas
}

/// What stores an optional winner: its canonical token, or NULL.
pub open spec fn winner_datum(winner: Option<GameWinner>) -> SqlDatum {
    match winner {
        Some(w) => SqlDatum::Text(w.token()),
        None => SqlDatum::Null,
    }
}

/// A change to the store.
#[derive(Debug, Clone, Copy, PartialEq, Eq, Structural)]
pub enum Command {
    /// A new game of the given board size, in progress, with X to move.
    CreateGame { board_size: i64 },
    /// Sets both the status and the winner of a game; `None` clears the winner.
    SetStatusAndWinner { game_id: i64, status: GameStatus, winner: Option<GameWinner> },
    /// Sets the status of a game and leaves its winner as it is.
    SetStatus { game_id: i64, status: GameStatus },
    /// Sets the winner of a game and leaves its status as it is; `None`
    /// clears the winner.
    SetWinner { game_id: i64, winner: Option<GameWinner> },
    /// Removes a game, and with it its moves.
    DeleteGame { game_id: i64 },
    /// Appends a move to a game.
    InsertMove { game_id: i64, move_number: i64, position: i64, player: Player },
    /// Records whose turn it is in a game.
    SetCurrentPlayer { game_id: i64, player: Player },
}

impl Command {
    /// The text of the statement that carries out this command.
    pub open spec fn sql(self) -> Seq<char> {
        match self {
            Command::CreateGame { .. } => INSERT_GAME@,
            Command::SetStatusAndWinner { .. } => UPDATE_STATUS_AND_WINNER@,
            Command::SetStatus { .. } => UPDATE_STATUS@,
            Command::SetWinner { .. } => UPDATE_WINNER@,
            Command::DeleteGame { .. } => DELETE_GAME@,
            Command::InsertMove { .. } => INSERT_MOVE@,
            Command::SetCurrentPlayer { .. } => UPDATE_CURRENT_PLAYER@,
        }
    }

    /// What the arguments of that statement bind, in placeholder order:
    /// identifiers and numbers as integers, players, statuses and winners as
    /// their canonical tokens. A new game starts in progress with X to move.
    pub open spec fn args(self) -> Seq<SqlDatum> {
        match self {
            Command::CreateGame { board_size } => seq![
                SqlDatum::Integer(board_size),
                SqlDatum::Text(GameStatus::InProgress.token()),
                SqlDatum::Text(Player::X.token()),
            ],
            Command::SetStatusAndWinner { game_id, status, winner } => seq![
                SqlDatum::Text(status.token()),
                winner_datum(winner),
                SqlDatum::Integer(game_id),
            ],
            Command::SetStatus { game_id, status } => seq![
                SqlDatum::Text(status.token()),
                SqlDatum::Integer(game_id),
            ],
            Command::SetWinner { game_id, winner } => seq![
                winner_datum(winner),
                SqlDatum::Integer(game_id),
            ],
            Command::DeleteGame { game_id } => seq![SqlDatum::Integer(game_id)],
            Command::InsertMove { game_id, move_number, position, player } => seq![
                SqlDatum::Integer(game_id),
                SqlDatum::Integer(move_number),
                SqlDatum::Integer(position),
                SqlDatum::Text(player.token()),
            ],
            Command::SetCurrentPlayer { game_id, player } => seq![
                SqlDatum::Text(player.token()),
                SqlDatum::Integer(game_id),
            ],
        }
    }

    /// The statement that carries out this command.
    pub fn statement(&self) -> (s: Statement)
        ensures
            s.sql@ == self.sql(),
            s.bound() == self.args(),
    {
        let mut args: Vec<SqlArg> = Vec::new();
        let sql = match *self {
            Command::CreateGame { board_size } => {
                args.push(SqlArg::Integer(board_size));
                args.push(SqlArg::Text(GameStatus::InProgress.as_str()));
                args.push(SqlArg::Text(Player::X.as_str()));
                INSERT_GAME
            },
            Command::SetStatusAndWinner { game_id, status, winner } => {
                args.push(SqlArg::Text(status.as_str()));
                args.push(bind_winner(winner));
                args.push(SqlArg::Integer(game_id));
                UPDATE_STATUS_AND_WINNER
            },
            Command::SetStatus { game_id, status } => {
                args.push(SqlArg::Text(status.as_str()));
                args.push(SqlArg::Integer(game_id));
                UPDATE_STATUS
            },
            Command::SetWinner { game_id, winner } => {
                args.push(bind_winner(winner));
                args.push(SqlArg::Integer(game_id));
                UPDATE_WINNER
            },
            Command::DeleteGame { game_id } => {
                args.push(SqlArg::Integer(game_id));
                DELETE_GAME
            },
            Command::InsertMove { game_id, move_number, position, player } => {
                args.push(SqlArg::Integer(game_id));
                args.push(SqlArg::Integer(move_number));
                args.push(SqlArg::Integer(position));
                args.push(SqlArg::Text(player.as_str()));
                INSERT_MOVE
            },
            Command::SetCurrentPlayer { game_id, player } => {
                args.push(SqlArg::Text(player.as_str()));
                args.push(SqlArg::Integer(game_id));
                UPDATE_CURRENT_PLAYER
            },
        };
        let s = Statement { sql, args };
        assert(s.bound() =~= self.args());
        s
    }
}

fn bind_winner(winner: Option<GameWinner>) -> (arg: SqlArg)
    ensures
        arg@ == winner_datum(winner),
{
    match winner {
        Some(w) => SqlArg::Text(w.as_str()),
        None => SqlArg::Null,
    }
}

/// A question put to the store.
#[derive(Debug, Clone, Copy, PartialEq, Eq, Structural)]
pub enum Query {
    /// The game with the given identifier.
    Game { game_id: i64 },
    /// The moves of a game, by ascending move number.
    GameMoves { game_id: i64 },
    /// The move with the given identifier.
    Move { move_id: i64 },
    /// The identifier of the move that occupies a position of a game.
    MoveAt { game_id: i64, position: i64 },
    /// The highest move number of a game, or 0 where it has no move.
    HighestMoveNumber { game_id: i64 },
    /// The most recently created games, newest first, each with the number
    /// of its moves: at most `limit` of them, of the given status only where
    /// one is given.
    Games { status: Option<GameStatus>, limit: i64 },
}

impl Query {
    /// The text of the statement that asks this question.
    pub open spec fn sql(self) -> Seq<char> {
        match self {
            Query::Game { .. } => SELECT_GAME@,
            Query::GameMoves { .. } => SELECT_GAME_MOVES@,
            Query::Move { .. } => SELECT_MOVE@,
            Query::MoveAt { .. } => SELECT_MOVE_AT@,
            Query::HighestMoveNumber { .. } => SELECT_HIGHEST_MOVE_NUMBER@,
            Query::Games { status: Some(_), .. } => SELECT_GAMES_BY_STATUS@,
            Query::Games { status: None, .. } => SELECT_GAMES@,
        }
    }

    /// What the arguments of that statement bind, in placeholder order.
    pub open spec fn args(self) -> Seq<SqlDatum> {
        match self {
            Query::Game { game_id } => seq![SqlDatum::Integer(game_id)],
            Query::GameMoves { game_id } => seq![SqlDatum::Integer(game_id)],
            Query::Move { move_id } => seq![SqlDatum::Integer(move_id)],
            Query::MoveAt { game_id, position } => seq![
                SqlDatum::Integer(game_id),
                SqlDatum::Integer(position),
            ],
            Query::HighestMoveNumber { game_id } => seq![SqlDatum::Integer(game_id)],
            Query::Games { status: Some(status), limit } => seq![
                SqlDatum::Text(status.token()),
                SqlDatum::Integer(limit),
            ],
            Query::Games { status: None, limit } => seq![SqlDatum::Integer(limit)],
        }
    }

    /// The statement that asks this question.
    pub fn statement(&self) -> (s: Statement)
        ensures
            s.sql@ == self.sql(),
            s.bound() == self.args(),
    {
        let mut args: Vec<SqlArg> = Vec::new();
        let sql = match *self {
            Query::Game { game_id } => {
                args.push(SqlArg::Integer(game_id));
                SELECT_GAME
            },
            Query::GameMoves { game_id } => {
                args.push(SqlArg::Integer(game_id));
                SELECT_GAME_MOVES
            },
            Query::Move { move_id } => {
                args.push(SqlArg::Integer(move_id));
                SELECT_MOVE
            },
            Query::MoveAt { game_id, position } => {
                args.push(SqlArg::Integer(game_id));
                args.push(SqlArg::Integer(position));
                SELECT_MOVE_AT
            },
            Query::HighestMoveNumber { game_id } => {
                args.push(SqlArg::Integer(game_id));
                SELECT_HIGHEST_MOVE_NUMBER
            },
            Query::Games { status: Some(status), limit } => {
                args.push(SqlArg::Text(status.as_str()));
                args.push(SqlArg::Integer(limit));
                SELECT_GAMES_BY_STATUS
            },
            Query::Games { status: None, limit } => {
                args.push(SqlArg::Integer(limit));
                SELECT_GAMES
            },
        };
        let s = Statement { sql, args };
        assert(s.bound() =~= self.args());
        s
    }
}

} // verus!
