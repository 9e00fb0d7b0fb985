use rusqlite::Connection;
use tictactoe_server::db::open_connection;
use tictactoe_server::errors::{DbError, ServiceError};
use tictactoe_server::http::dto::{
    CreateGameRequest, GameListQuery, MakeMoveRequest, UpdateGameRequest,
};
use tictactoe_server::http::handlers::games::{
    add_move, create_game, delete_game, get_game, get_game_with_moves, list_games, list_moves,
    update_game,
};
use tictactoe_server::models::{GameStatus, GameWinner, Player};

const SCHEMA: &str = "
CREATE TABLE IF NOT EXISTS games (
    id INTEGER PRIMARY KEY AUTOINCREMENT,
    board_size INTEGER NOT NULL DEFAULT 3,
    status TEXT NOT NULL DEFAULT 'in_progress',
    winner TEXT,
    current_player TEXT NOT NULL DEFAULT 'X',
    created_at TEXT NOT NULL DEFAULT CURRENT_TIMESTAMP,
    updated_at TEXT NOT NULL DEFAULT CURRENT_TIMESTAMP
);
CREATE TABLE IF NOT EXISTS game_moves (
    id INTEGER PRIMARY KEY AUTOINCREMENT,
    game_id INTEGER NOT NULL REFERENCES games(id) ON DELETE CASCADE,
    move_number INTEGER NOT NULL,
    position INTEGER NOT NULL,
    player TEXT NOT NULL,
    created_at TEXT NOT NULL DEFAULT CURRENT_TIMESTAMP
);
";

/// A store that lives as long as the returned connection, and the address
/// under which further connections reach it.
fn store(name: &str) -> (Connection, String) {
    let uri = format!("file:{name}?mode=memory&cache=shared");
    let keeper = open_connection(&uri, SCHEMA).expect("the store opens");
    (keeper, uri)
}

fn unreachable_store() -> Result<Connection, DbError> {
    panic!("no connection may be asked for")
}

fn broken_store() -> Result<Connection, DbError> {
    Err(DbError::Io("disk on fire".to_string()))
}

fn invalid_input<T: std::fmt::Debug>(result: Result<T, ServiceError>) -> String {
    match result {
        Err(ServiceError::InvalidInput(message)) => message,
        other => panic!("expected invalid input, got {other:?}"),
    }
}

#[test]
fn an_invalid_request_never_reaches_the_store() {
    let too_large = CreateGameRequest { board_size: Some(11) };
    assert_eq!(
        invalid_input(create_game(unreachable_store, &too_large)),
        "Invalid board_size! Expected a number between 3 and 10."
    );
    let id = "Invalid game ID! Expected a non-negative integer.";
    assert_eq!(invalid_input(get_game(unreachable_store, -1)), id);
    assert_eq!(invalid_input(get_game_with_moves(unreachable_store, -1)), id);
    assert_eq!(invalid_input(delete_game(unreachable_store, -1)), id);
    assert_eq!(invalid_input(list_moves(unreachable_store, -1)), id);
    assert_eq!(
        invalid_input(update_game(unreachable_store, 1, &UpdateGameRequest::default())),
        "No valid fields to update"
    );
    assert_eq!(
        invalid_input(update_game(unreachable_store, -1, &UpdateGameRequest::default())),
        id
    );
    let negative = MakeMoveRequest { position: -1, player: Player::X };
    assert_eq!(
        invalid_input(add_move(unreachable_store, 1, &negative)),
        "Invalid position! Expected a non-negative number."
    );
    assert_eq!(invalid_input(add_move(unreachable_store, -1, &negative)), id);
}

#[test]
fn a_store_that_cannot_be_reached_is_a_storage_failure() {
    let request = CreateGameRequest { board_size: None };
    match create_game(broken_store, &request) {
        Err(error @ ServiceError::Database(DbError::Io(_))) => {
            assert_eq!(error.status_code(), 500);
            assert_eq!(error.message(), "Database error: Filesystem error: disk on fire");
        },
        other => panic!("expected a storage failure, got {other:?}"),
    }
    assert!(matches!(get_game(broken_store, 1), Err(ServiceError::Database(_))));
    assert!(matches!(
        list_games(broken_store, &GameListQuery::default()),
        Err(ServiceError::Database(_))
    ));
    assert!(matches!(delete_game(broken_store, 1), Err(ServiceError::Database(_))));
    let request = MakeMoveRequest { position: 0, player: Player::X };
    assert!(matches!(add_move(broken_store, 1, &request), Err(ServiceError::Database(_))));
}

#[test]
fn the_routes_carry_a_game_through_its_life() {
    let (_keeper, uri) = store("handlers_life");
    let connect = || open_connection(&uri, SCHEMA);

    let created = create_game(connect, &CreateGameRequest { board_size: Some(4) }).unwrap();
    assert!(created.success);
    assert_eq!(created.message.as_deref(), Some("Game created successfully"));
    assert_eq!(created.data.id, 1);
    assert_eq!(created.data.board_size, 4);

    let defaulted = create_game(connect, &CreateGameRequest { board_size: None }).unwrap();
    assert_eq!(defaulted.data.board_size, 3);

    let moved =
        add_move(connect, 1, &MakeMoveRequest { position: 5, player: Player::X }).unwrap();
    assert!(moved.success);
    assert_eq!(moved.message.as_deref(), Some("Move added successfully"));
    assert_eq!(moved.data.move_number, 1);
    assert_eq!(moved.data.position, 5);

    assert_eq!(
        invalid_input(add_move(connect, 1, &MakeMoveRequest { position: 5, player: Player::O })),
        "Position 5 is already taken"
    );

    let fetched = get_game(connect, 1).unwrap();
    assert!(fetched.success);
    assert_eq!(fetched.message, None);
    assert_eq!(fetched.data.current_player, Player::O);

    let full = get_game_with_moves(connect, 1).unwrap();
    assert_eq!(full.message, None);
    assert_eq!(full.data.moves.len(), 1);

    let moves = list_moves(connect, 1).unwrap();
    assert_eq!(moves.message, None);
    assert_eq!(moves.data.len(), 1);
    assert_eq!(moves.data[0].player, Player::X);

    let update = UpdateGameRequest {
        status: Some(GameStatus::Completed),
        winner: Some(Some(GameWinner::X)),
        current_player: None,
    };
    let updated = update_game(connect, 1, &update).unwrap();
    assert_eq!(updated.message.as_deref(), Some("Game updated successfully"));
    assert_eq!(updated.data.status, GameStatus::Completed);
    assert_eq!(updated.data.winner, Some(GameWinner::X));

    let listed =
        list_games(connect, &GameListQuery { status: Some(GameStatus::InProgress) }).unwrap();
    assert!(listed.success);
    assert_eq!(listed.message, None);
    assert_eq!(listed.data.len(), 1);
    assert_eq!(listed.data[0].game.id, 2);
    assert_eq!(listed.data[0].move_count, 0);
    assert_eq!(list_games(connect, &GameListQuery::default()).unwrap().data.len(), 2);

    let deleted = delete_game(connect, 1).unwrap();
    assert!(deleted.success);
    assert_eq!(deleted.message.as_deref(), Some("Game deleted successfully"));
    assert!(matches!(get_game(connect, 1), Err(ServiceError::NotFound(_))));
    assert!(matches!(list_moves(connect, 1), Err(ServiceError::NotFound(_))));
    assert!(matches!(delete_game(connect, 1), Err(ServiceError::NotFound(_))));
}

#[test]
fn a_turn_named_in_an_update_is_ignored() {
    let (_keeper, uri) = store("handlers_turn");
    let connect = || open_connection(&uri, SCHEMA);
    create_game(connect, &CreateGameRequest { board_size: None }).unwrap();
    let update = UpdateGameRequest {
        status: Some(GameStatus::Abandoned),
        winner: None,
        current_player: Some(Player::O),
    };
    let updated = update_game(connect, 1, &update).unwrap();
    assert_eq!(updated.data.status, GameStatus::Abandoned);
    assert_eq!(updated.data.current_player, Player::X);
}
