//! Domain value types: the closed sets of players, winners and statuses with
//! their textual encodings, and the records of games and moves.

use vstd::prelude::*;
use crate::text::{folded, text_equals_ignoring_case};

verus! {

/// A text that is not the encoding of any value of the requested type.
#[derive(Debug, Clone, Copy, PartialEq, Eq)]
pub struct InvalidEncoding {
    pub message: &'static str,
}

/// One of the two sides of a game.
#[derive(Debug, Clone, Copy, PartialEq, Eq, Hash, Structural)]
pub enum Player {
    X,
    O,
}

impl Player {
    /// The canonical encoding, used for storage and on the wire.
    pub open spec fn token(self) -> Seq<char> {
        match self {
            Player::X => "X"@,
            Player::O => "O"@,
        }
    }

    /// The value a text encodes, if any: a token is recognized without
    /// regard to the case of its letters.
    pub open spec fn from_token(text: Seq<char>) -> Option<Player> {
        if folded(text) == "x"@ {
            Some(Player::X)
        } else if folded(text) == "o"@ {
            Some(Player::O)
        } else {
            None
        }
    }

    /// The side that moves after this one.
    pub open spec fn opponent(self) -> Player {
        match self {
            Player::X => Player::O,
            Player::O => Player::X,
        }
    }

    /// The canonical token of the value.
    pub fn as_str(&self) -> (r: &'static str)
        ensures
            r@ == self.token(),
    {
        match self {
            Player::X => "X",
            Player::O => "O",
        }
    }

    /// Decodes a player; anything but a recognized token is rejected.
    pub fn parse(text: &str) -> (r: Result<Player, InvalidEncoding>)
        ensures
            match Player::from_token(text@) {
                Some(player) => r == Ok::<Player, InvalidEncoding>(player),
                None => r is Err,
            },
    {
        proof {
            lemma_folded_tokens();
        }
        if text_equals_ignoring_case(text, "x") {
            Ok(Player::X)
        } else if text_equals_ignoring_case(text, "o") {
            Ok(Player::O)
        } else {
            Err(InvalidEncoding { message: "Invalid player value" })
        }
    }

    /// The side whose turn follows a move by this one.
    pub fn other(self) -> (r: Player)
        ensures
            r == self.opponent(),
    {
        match self {
            Player::X => Player::O,
            Player::O => Player::X,
        }
    }
}

impl core::str::FromStr for Player {
    type Err = InvalidEncoding;

    fn from_str(s: &str) -> (r: Result<Self, Self::Err>)
        ensures
            match Player::from_token(s@) {
                Some(player) => r == Ok::<Player, InvalidEncoding>(player),
                None => r is Err,
            },
    {
        Player::parse(s)
    }
}

/// How a finished game ended.
#[derive(Debug, Clone, Copy, PartialEq, Eq, Hash, Structural)]
pub enum GameWinner {
    X,
    O,
    Draw,
}

impl GameWinner {
    /// The canonical encoding, used for storage and on the wire.
    pub open spec fn token(self) -> Seq<char> {
        match self {
            GameWinner::X => "X"@,
            GameWinner::O => "O"@,
            GameWinner::Draw => "draw"@,
        }
    }

    /// The value a text encodes, if any: a token is recognized without
    /// regard to the case of its letters.
    pub open spec fn from_token(text: Seq<char>) -> Option<GameWinner> {
        if folded(text) == "x"@ {
            Some(GameWinner::X)
        } else if folded(text) == "o"@ {
            Some(GameWinner::O)
        } else if folded(text) == "draw"@ {
            Some(GameWinner::Draw)
        } else {
            None
        }
    }

    /// The canonical token of the value.
    pub fn as_str(&self) -> (r: &'static str)
        ensures
            r@ == self.token(),
    {
        match self {
            GameWinner::X => "X",
            GameWinner::O => "O",
            GameWinner::Draw => "draw",
        }
    }

    /// Decodes a winner; anything but a recognized token is rejected.
    pub fn parse(text: &str) -> (r: Result<GameWinner, InvalidEncoding>)
        ensures
            match GameWinner::from_token(text@) {
                Some(winner) => r == Ok::<GameWinner, InvalidEncoding>(winner),
                None => r is Err,
            },
    {
        proof {
            lemma_folded_tokens();
        }
        if text_equals_ignoring_case(text, "x") {
            Ok(GameWinner::X)
        } else if text_equals_ignoring_case(text, "o") {
            Ok(GameWinner::O)
        } else if text_equals_ignoring_case(text, "draw") {
            Ok(GameWinner::Draw)
        } else {
            Err(InvalidEncoding { message: "Invalid winner value" })
        }
    }
}

impl core::str::FromStr for GameWinner {
    type Err = InvalidEncoding;

    fn from_str(s: &str) -> (r: Result<Self, Self::Err>)
        ensures
            match GameWinner::from_token(s@) {
                Some(winner) => r == Ok::<GameWinner, InvalidEncoding>(winner),
                None => r is Err,
            },
    {
        GameWinner::parse(s)
    }
}

/// Where a game stands in its life.
#[derive(Debug, Clone, Copy, PartialEq, Eq, Hash, Structural)]
pub enum GameStatus {
    InProgress,
    Completed,
    Abandoned,
}

impl GameStatus {
    /// The canonical encoding, used for storage and on the wire.
    pub open spec fn token(self) -> Seq<char> {
        match self {
            GameStatus::InProgress => "in_progress"@,
            GameStatus::Completed => "completed"@,
            GameStatus::Abandoned => "abandoned"@,
        }
    }

    /// The value a text encodes, if any: a token is recognized without
    /// regard to the case of its letters, and `in-progress` stands for
    /// `in_progress`.
    pub open spec fn from_token(text: Seq<char>) -> Option<GameStatus> {
        if folded(text) == "in_progress"@ || folded(text) == "in-progress"@ {
            Some(GameStatus::InProgress)
        } else if folded(text) == "completed"@ {
            Some(GameStatus::Completed)
        } else if folded(text) == "abandoned"@ {
            Some(GameStatus::Abandoned)
        } else {
            None
        }
    }

    /// The canonical token of the value.
    pub fn as_str(&self) -> (r: &'static str)
        ensures
            r@ == self.token(),
    {
        match self {
            GameStatus::InProgress => "in_progress",
            GameStatus::Completed => "completed",
            GameStatus::Abandoned => "abandoned",
        }
    }

    /// Decodes a status; anything but a recognized token is rejected.
    pub fn parse(text: &str) -> (r: Result<GameStatus, InvalidEncoding>)
        ensures
            match GameStatus::from_token(text@) {
                Some(status) => r == Ok::<GameStatus, InvalidEncoding>(status),
                None => r is Err,
            },
    {
        proof {
            lemma_folded_tokens();
        }
        if text_equals_ignoring_case(text, "in_progress") || text_equals_ignoring_case(
            text,
            "in-progress",
        ) {
            Ok(GameStatus::InProgress)
        } else if text_equals_ignoring_case(text, "completed") {
            Ok(GameStatus::Completed)
        } else if text_equals_ignoring_case(text, "abandoned") {
            Ok(GameStatus::Abandoned)
        } else {
            Err(InvalidEncoding { message: "Invalid game status" })
        }
    }
}

impl core::str::FromStr for GameStatus {
    type Err = InvalidEncoding;

    fn from_str(s: &str) -> (r: Result<Self, Self::Err>)
        ensures
            match GameStatus::from_token(s@) {
                Some(status) => r == Ok::<GameStatus, InvalidEncoding>(status),
                None => r is Err,
            },
    {
        GameStatus::parse(s)
    }
}

/// The lower-case tokens are their own lower-case forms, and the canonical
/// tokens fold to them.
proof fn lemma_folded_tokens()
    ensures
        folded("x"@) == "x"@,
        folded("o"@) == "o"@,
        folded("X"@) == "x"@,
        folded("O"@) == "o"@,
        folded("draw"@) == "draw"@,
        folded("in_progress"@) == "in_progress"@,
        folded("in-progress"@) == "in-progress"@,
        folded("completed"@) == "completed"@,
        folded("abandoned"@) == "abandoned"@,
        "x"@ != "o"@,
        "draw"@.len() == 4,
        "in_progress"@.len() == 11,
        "in-progress"@.len() == 11,
        "completed"@.len() == 9,
        "abandoned"@.len() == 9,
        "x"@.len() == 1,
        "o"@.len() == 1,
        "completed"@[0] == 'c',
        "abandoned"@[0] == 'a',
{
    reveal_strlit("x");
    reveal_strlit("o");
    reveal_strlit("X");
    reveal_strlit("O");
    reveal_strlit("draw");
    reveal_strlit("in_progress");
    reveal_strlit("in-progress");
    reveal_strlit("completed");
    reveal_strlit("abandoned");
    assert(folded("x"@) =~= "x"@);
    assert(folded("o"@) =~= "o"@);
    assert(folded("X"@) =~= "x"@);
    assert(folded("O"@) =~= "o"@);
    assert(folded("draw"@) =~= "draw"@);
    assert(folded("in_progress"@) =~= "in_progress"@);
    assert(folded("in-progress"@) =~= "in-progress"@);
    assert(folded("completed"@) =~= "completed"@);
    assert(folded("abandoned"@) =~= "abandoned"@);
    assert("x"@[0] != "o"@[0]);
}

/// Decoding what `as_str` renders gives the value back.
pub proof fn player_round_trip(player: Player)
    ensures
        Player::from_token(player.token()) == Some(player),
{
    lemma_folded_tokens();
}

/// Decoding what `as_str` renders gives the value back.
pub proof fn winner_round_trip(winner: GameWinner)
    ensures
        GameWinner::from_token(winner.token()) == Some(winner),
{
    lemma_folded_tokens();
}

/// Decoding what `as_str` renders gives the value back.
pub proof fn status_round_trip(status: GameStatus)
    ensures
        GameStatus::from_token(status.token()) == Some(status),
{
    lemma_folded_tokens();
}

/// Two texts that differ only in the case of their letters encode the same
/// value, or both none.
pub proof fn tokens_ignore_case(first: Seq<char>, second: Seq<char>)
    requires
        folded(first) == folded(second),
    ensures
        Player::from_token(first) == Player::from_token(second),
        GameWinner::from_token(first) == GameWinner::from_token(second),
        GameStatus::from_token(first) == GameStatus::from_token(second),
{
}

/// One match.
#[derive(Debug, Clone)]
pub struct Game {
    pub id: i64,
    pub board_size: i64,
    pub status: GameStatus,
    pub winner: Option<GameWinner>,
    pub current_player: Player,
    pub created_at: String,
    pub updated_at: String,
}

/// One accepted placement within a game.
#[derive(Debug, Clone)]
pub struct GameMove {
    pub id: i64,
    pub game_id: i64,
    pub move_number: i64,
    pub position: i64,
    pub player: Player,
    pub created_at: String,
}

/// A game together with its moves, in the order they were made.
#[derive(Debug, Clone)]
pub struct GameWithMoves {
    pub game: Game,
    pub moves: Vec<GameMove>,
}

/// A game as listed, with the number of moves made in it.
#[derive(Debug, Clone)]
pub struct GameListItem {
    pub game: Game,
    pub move_count: i64,
}

} // verus!
