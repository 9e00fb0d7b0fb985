use rusqlite::Connection;
use tictactoe_server::db::{apply_pragmas, ensure_schema};
use tictactoe_server::errors::ServiceError;
use tictactoe_server::models::{GameStatus, GameWinner, Player};
use tictactoe_server::services::game::{
    add_move, create_game, delete_game, get_game_by_id, get_game_moves, get_game_with_moves,
    get_games, update_game, GameFilters, GameUpdate,
};

const SCHEMA: &str = "
CREATE TABLE IF NOT EXISTS games (
    id INTEGER PRIMARY KEY AUTOINCREMENT,
    board_size INTEGER NOT NULL DEFAULT 3,
    status TEXT NOT NULL DEFAULT 'in_progress',
    winner TEXT,
    current_player TEXT NOT NULL DEFAULT 'X',
    created_at TEXT NOT NULL DEFAULT CURRENT_TIMESTAMP,
    updated_at TEXT NOT NULL DEFAULT CURRENT_TIMESTAMP
);
CREATE TABLE IF NOT EXISTS game_moves (
    id INTEGER PRIMARY KEY AUTOINCREMENT,
    game_id INTEGER NOT NULL REFERENCES games(id) ON DELETE CASCADE,
    move_number INTEGER NOT NULL,
    position INTEGER NOT NULL,
    player TEXT NOT NULL,
    created_at TEXT NOT NULL DEFAULT CURRENT_TIMESTAMP
);
";

fn store() -> Connection {
    let connection = Connection::open_in_memory().expect("an in-memory database opens");
    apply_pragmas(&connection).expect("the pragmas apply");
    ensure_schema(&connection, SCHEMA).expect("the schema applies");
    connection
}

fn shared_store(name: &str) -> (Connection, Connection) {
    let uri = format!("file:{name}?mode=memory&cache=shared");
    let first = Connection::open(&uri).expect("a shared in-memory database opens");
    apply_pragmas(&first).expect("the pragmas apply");
    ensure_schema(&first, SCHEMA).expect("the schema applies");
    let second = Connection::open(&uri).expect("a second connection opens");
    apply_pragmas(&second).expect("the pragmas apply");
    ensure_schema(&second, SCHEMA).expect("the schema applies again");
    (first, second)
}

fn count_rows(connection: &Connection, sql: &str) -> i64 {
    connection.query_row(sql, [], |row| row.get(0)).expect("the count is read")
}

fn invalid_input(result: Result<tictactoe_server::models::GameMove, ServiceError>) -> String {
    match result {
        Err(ServiceError::InvalidInput(message)) => message,
        other => panic!("expected invalid input, got {other:?}"),
    }
}

fn status_update(status: GameStatus) -> GameUpdate {
    GameUpdate { status: Some(status), winner: None }
}

#[test]
fn create_returns_a_fresh_game() {
    let connection = store();
    let game = create_game(&connection, 3).expect("the game is created");
    assert_eq!(game.id, 1);
    assert_eq!(game.board_size, 3);
    assert_eq!(game.status, GameStatus::InProgress);
    assert_eq!(game.current_player, Player::X);
    assert_eq!(game.winner, None);
    assert!(!game.created_at.is_empty());
    assert!(!game.updated_at.is_empty());
}

#[test]
fn create_assigns_increasing_identifiers() {
    let connection = store();
    assert_eq!(create_game(&connection, 3).unwrap().id, 1);
    assert_eq!(create_game(&connection, 10).unwrap().id, 2);
    let third = create_game(&connection, 5).unwrap();
    assert_eq!(third.id, 3);
    assert_eq!(third.board_size, 5);
}

#[test]
fn full_scenario_of_one_game() {
    let connection = store();
    let game = create_game(&connection, 3).expect("the game is created");
    assert_eq!(game.id, 1);
    assert_eq!(game.status, GameStatus::InProgress);
    assert_eq!(game.current_player, Player::X);
    assert_eq!(game.winner, None);

    let first = add_move(&connection, 1, 0, Player::X).expect("the first move is accepted");
    assert_eq!(first.move_number, 1);
    assert_eq!(first.game_id, 1);
    assert_eq!(first.position, 0);
    assert_eq!(first.player, Player::X);
    assert_eq!(get_game_by_id(&connection, 1).unwrap().current_player, Player::O);

    let taken = invalid_input(add_move(&connection, 1, 0, Player::O));
    assert_eq!(taken, "Position 0 is already taken");

    let out_of_turn = invalid_input(add_move(&connection, 1, 4, Player::X));
    assert_eq!(out_of_turn, "It's O's turn, not X's");

    let updated = update_game(
        &connection,
        1,
        GameUpdate { status: Some(GameStatus::Completed), winner: Some(Some(GameWinner::X)) },
    )
    .expect("the update is applied");
    assert_eq!(updated.status, GameStatus::Completed);
    assert_eq!(updated.winner, Some(GameWinner::X));

    let finished = invalid_input(add_move(&connection, 1, 1, Player::O));
    assert_eq!(finished, "Cannot add a move to a finished game");

    assert_eq!(count_rows(&connection, "SELECT COUNT(*) FROM game_moves"), 1);
}

#[test]
fn listing_by_status_returns_the_matching_games_newest_first() {
    let connection = store();
    let first = create_game(&connection, 3).unwrap();
    let second = create_game(&connection, 4).unwrap();
    let third = create_game(&connection, 5).unwrap();
    add_move(&connection, first.id, 0, Player::X).unwrap();
    add_move(&connection, first.id, 1, Player::O).unwrap();
    add_move(&connection, second.id, 4, Player::X).unwrap();
    add_move(&connection, third.id, 8, Player::X).unwrap();
    update_game(
        &connection,
        second.id,
        GameUpdate { status: Some(GameStatus::Completed), winner: Some(Some(GameWinner::Draw)) },
    )
    .unwrap();

    let listed =
        get_games(&connection, GameFilters { status: Some(GameStatus::InProgress) }).unwrap();
    assert_eq!(listed.len(), 2);
    assert_eq!(listed[0].game.id, third.id);
    assert_eq!(listed[0].move_count, 1);
    assert_eq!(listed[0].game.status, GameStatus::InProgress);
    assert_eq!(listed[1].game.id, first.id);
    assert_eq!(listed[1].move_count, 2);
    assert_eq!(listed[1].game.status, GameStatus::InProgress);

    let completed =
        get_games(&connection, GameFilters { status: Some(GameStatus::Completed) }).unwrap();
    assert_eq!(completed.len(), 1);
    assert_eq!(completed[0].game.id, second.id);
    assert_eq!(completed[0].move_count, 1);
    assert_eq!(completed[0].game.winner, Some(GameWinner::Draw));

    let all = get_games(&connection, GameFilters { status: None }).unwrap();
    assert_eq!(all.len(), 3);
    assert_eq!(all[0].game.id, third.id);
    assert_eq!(all[1].game.id, second.id);
    assert_eq!(all[2].game.id, first.id);
}

#[test]
fn listing_an_empty_store_returns_nothing() {
    let connection = store();
    assert!(get_games(&connection, GameFilters { status: None }).unwrap().is_empty());
    let abandoned = GameFilters { status: Some(GameStatus::Abandoned) };
    assert!(get_games(&connection, abandoned).unwrap().is_empty());
}

#[test]
fn listing_is_capped_at_one_hundred_games() {
    let connection = store();
    for _ in 0..105 {
        create_game(&connection, 3).unwrap();
    }
    let listed = get_games(&connection, GameFilters { status: None }).unwrap();
    assert_eq!(listed.len(), 100);
    assert_eq!(listed[0].game.id, 105);
    assert_eq!(listed[99].game.id, 6);
    let in_progress =
        get_games(&connection, GameFilters { status: Some(GameStatus::InProgress) }).unwrap();
    assert_eq!(in_progress.len(), 100);
}

#[test]
fn turns_alternate_over_a_whole_board() {
    let connection = store();
    let game = create_game(&connection, 3).unwrap();
    let mut player = Player::X;
    for n in 0..9 {
        let expected = if n % 2 == 0 { Player::X } else { Player::O };
        assert_eq!(get_game_by_id(&connection, game.id).unwrap().current_player, expected);
        let accepted = add_move(&connection, game.id, n, player).unwrap();
        assert_eq!(accepted.move_number, n + 1);
        assert_eq!(accepted.player, expected);
        player = player.other();
    }
    assert_eq!(get_game_by_id(&connection, game.id).unwrap().current_player, Player::O);
}

#[test]
fn no_two_moves_share_a_position() {
    let connection = store();
    let game = create_game(&connection, 3).unwrap();
    add_move(&connection, game.id, 4, Player::X).unwrap();
    assert_eq!(
        invalid_input(add_move(&connection, game.id, 4, Player::O)),
        "Position 4 is already taken"
    );
    add_move(&connection, game.id, 5, Player::O).unwrap();
    assert_eq!(
        invalid_input(add_move(&connection, game.id, 5, Player::X)),
        "Position 5 is already taken"
    );
    assert_eq!(
        invalid_input(add_move(&connection, game.id, 4, Player::X)),
        "Position 4 is already taken"
    );
    let moves = get_game_moves(&connection, game.id).unwrap();
    assert_eq!(moves.len(), 2);
    assert_eq!(
        count_rows(
            &connection,
            "SELECT COUNT(*) FROM (SELECT game_id, position FROM game_moves GROUP BY game_id, position HAVING COUNT(*) > 1)"
        ),
        0
    );
}

#[test]
fn the_same_position_is_free_in_another_game() {
    let connection = store();
    let first = create_game(&connection, 3).unwrap();
    let second = create_game(&connection, 3).unwrap();
    assert_eq!(add_move(&connection, first.id, 0, Player::X).unwrap().move_number, 1);
    assert_eq!(add_move(&connection, second.id, 0, Player::X).unwrap().move_number, 1);
    assert_eq!(add_move(&connection, first.id, 1, Player::O).unwrap().move_number, 2);
    assert_eq!(get_game_by_id(&connection, second.id).unwrap().current_player, Player::O);
    assert_eq!(get_game_by_id(&connection, first.id).unwrap().current_player, Player::X);
}

#[test]
fn move_numbers_are_gapless_and_increase() {
    let connection = store();
    let other = create_game(&connection, 3).unwrap();
    let game = create_game(&connection, 4).unwrap();
    add_move(&connection, other.id, 0, Player::X).unwrap();
    let positions = [7, 2, 9, 0, 15];
    let mut player = Player::X;
    for position in positions {
        add_move(&connection, game.id, position, player).unwrap();
        assert!(add_move(&connection, game.id, position, player.other()).is_err());
        add_move(&connection, other.id, position + 20, Player::X).unwrap_err();
        player = player.other();
    }
    let moves = get_game_moves(&connection, game.id).unwrap();
    assert_eq!(moves.len(), 5);
    for (index, entry) in moves.iter().enumerate() {
        assert_eq!(entry.move_number, index as i64 + 1);
        assert_eq!(entry.position, positions[index]);
        assert_eq!(entry.game_id, game.id);
    }
    assert!(moves.windows(2).all(|pair| pair[0].id < pair[1].id));
}

#[test]
fn a_finished_game_accepts_no_move() {
    let connection = store();
    let game = create_game(&connection, 3).unwrap();
    add_move(&connection, game.id, 0, Player::X).unwrap();
    update_game(&connection, game.id, status_update(GameStatus::Abandoned)).unwrap();
    for player in [Player::X, Player::O] {
        for position in [0, 1, 8] {
            assert_eq!(
                invalid_input(add_move(&connection, game.id, position, player)),
                "Cannot add a move to a finished game"
            );
        }
    }
    assert_eq!(get_game_moves(&connection, game.id).unwrap().len(), 1);
    assert_eq!(get_game_by_id(&connection, game.id).unwrap().current_player, Player::O);

    update_game(&connection, game.id, status_update(GameStatus::InProgress)).unwrap();
    assert_eq!(add_move(&connection, game.id, 1, Player::O).unwrap().move_number, 2);
}

#[test]
fn a_move_out_of_turn_changes_nothing() {
    let connection = store();
    let game = create_game(&connection, 3).unwrap();
    assert_eq!(
        invalid_input(add_move(&connection, game.id, 0, Player::O)),
        "It's X's turn, not O's"
    );
    assert!(get_game_moves(&connection, game.id).unwrap().is_empty());
    let after = get_game_by_id(&connection, game.id).unwrap();
    assert_eq!(after.current_player, Player::X);
    assert_eq!(after.status, GameStatus::InProgress);
    assert_eq!(after.updated_at, game.updated_at);
    assert_eq!(add_move(&connection, game.id, 0, Player::X).unwrap().move_number, 1);
}

#[test]
fn deleting_a_game_removes_its_moves() {
    let connection = store();
    let kept = create_game(&connection, 3).unwrap();
    let removed = create_game(&connection, 3).unwrap();
    add_move(&connection, kept.id, 0, Player::X).unwrap();
    add_move(&connection, removed.id, 0, Player::X).unwrap();
    add_move(&connection, removed.id, 1, Player::O).unwrap();
    assert_eq!(count_rows(&connection, "SELECT COUNT(*) FROM game_moves"), 3);

    delete_game(&connection, removed.id).expect("the game is deleted");

    assert_eq!(count_rows(&connection, "SELECT COUNT(*) FROM game_moves"), 1);
    assert_eq!(
        count_rows(&connection, "SELECT COUNT(*) FROM game_moves WHERE game_id = 2"),
        0
    );
    match get_game_moves(&connection, removed.id) {
        Err(ServiceError::NotFound(message)) => assert_eq!(message, "Hra s ID 2 nebyla nalezena"),
        other => panic!("expected not found, got {other:?}"),
    }
    assert!(matches!(get_game_by_id(&connection, removed.id), Err(ServiceError::NotFound(_))));
    assert!(matches!(
        get_game_with_moves(&connection, removed.id),
        Err(ServiceError::NotFound(_))
    ));
    assert_eq!(get_game_moves(&connection, kept.id).unwrap().len(), 1);
}

#[test]
fn deleting_a_missing_game_is_not_found() {
    let connection = store();
    match delete_game(&connection, 42) {
        Err(ServiceError::NotFound(message)) => {
            assert_eq!(message, "Hra s ID 42 nebyla nalezena")
        },
        other => panic!("expected not found, got {other:?}"),
    }
    let game = create_game(&connection, 3).unwrap();
    delete_game(&connection, game.id).unwrap();
    assert!(matches!(delete_game(&connection, game.id), Err(ServiceError::NotFound(_))));
}

#[test]
fn two_attempts_at_one_position_give_one_move() {
    let (first, second) = shared_store("one_position");
    let game = create_game(&first, 3).unwrap();
    let accepted = add_move(&first, game.id, 4, Player::X);
    let rejected = add_move(&second, game.id, 4, Player::X);
    assert_eq!(accepted.unwrap().move_number, 1);
    assert!(matches!(rejected, Err(ServiceError::InvalidInput(_))));
    assert_eq!(
        invalid_input(add_move(&second, game.id, 4, Player::O)),
        "Position 4 is already taken"
    );
    assert_eq!(
        count_rows(&first, "SELECT COUNT(*) FROM game_moves WHERE game_id = 1 AND position = 4"),
        1
    );
    assert_eq!(get_game_moves(&second, game.id).unwrap().len(), 1);
}

#[test]
fn a_rejected_move_leaves_no_open_transaction() {
    let connection = store();
    let game = create_game(&connection, 3).unwrap();
    assert!(add_move(&connection, game.id, 0, Player::O).is_err());
    assert!(connection.is_autocommit());
    assert!(add_move(&connection, 99, 0, Player::X).is_err());
    assert!(connection.is_autocommit());
    add_move(&connection, game.id, 0, Player::X).unwrap();
    assert!(connection.is_autocommit());
}

#[test]
fn a_move_that_fails_halfway_is_rolled_back() {
    let connection = store();
    let game = create_game(&connection, 3).unwrap();
    connection
        .execute_batch(
            "CREATE TRIGGER refuse_turn BEFORE UPDATE OF current_player ON games
             BEGIN SELECT RAISE(ABORT, 'turn refused'); END;",
        )
        .unwrap();
    match add_move(&connection, game.id, 0, Player::X) {
        Err(ServiceError::Database(_)) => {},
        other => panic!("expected a storage failure, got {other:?}"),
    }
    assert!(connection.is_autocommit());
    assert_eq!(count_rows(&connection, "SELECT COUNT(*) FROM game_moves"), 0);
    connection.execute_batch("DROP TRIGGER refuse_turn").unwrap();
    assert_eq!(get_game_by_id(&connection, game.id).unwrap().current_player, Player::X);
    assert_eq!(add_move(&connection, game.id, 0, Player::X).unwrap().move_number, 1);
}

#[test]
fn a_move_in_a_missing_game_is_not_found() {
    let connection = store();
    match add_move(&connection, 7, 0, Player::X) {
        Err(ServiceError::NotFound(message)) => assert_eq!(message, "Hra s ID 7 nebyla nalezena"),
        other => panic!("expected not found, got {other:?}"),
    }
    assert_eq!(count_rows(&connection, "SELECT COUNT(*) FROM game_moves"), 0);
}

#[test]
fn a_finished_game_is_reported_before_a_wrong_turn() {
    let connection = store();
    let game = create_game(&connection, 3).unwrap();
    add_move(&connection, game.id, 0, Player::X).unwrap();
    update_game(&connection, game.id, status_update(GameStatus::Completed)).unwrap();
    assert_eq!(
        invalid_input(add_move(&connection, game.id, 0, Player::X)),
        "Cannot add a move to a finished game"
    );
}

#[test]
fn a_wrong_turn_is_reported_before_a_taken_position() {
    let connection = store();
    let game = create_game(&connection, 3).unwrap();
    add_move(&connection, game.id, 0, Player::X).unwrap();
    assert_eq!(
        invalid_input(add_move(&connection, game.id, 0, Player::X)),
        "It's O's turn, not X's"
    );
}

#[test]
fn get_returns_the_stored_game() {
    let connection = store();
    let created = create_game(&connection, 7).unwrap();
    let fetched = get_game_by_id(&connection, created.id).unwrap();
    assert_eq!(fetched.id, created.id);
    assert_eq!(fetched.board_size, 7);
    assert_eq!(fetched.created_at, created.created_at);
    match get_game_by_id(&connection, 2) {
        Err(ServiceError::NotFound(message)) => assert_eq!(message, "Hra s ID 2 nebyla nalezena"),
        other => panic!("expected not found, got {other:?}"),
    }
    match get_game_by_id(&connection, -5) {
        Err(ServiceError::NotFound(message)) => {
            assert_eq!(message, "Hra s ID -5 nebyla nalezena")
        },
        other => panic!("expected not found, got {other:?}"),
    }
}

#[test]
fn get_with_moves_returns_the_moves_in_order() {
    let connection = store();
    let game = create_game(&connection, 3).unwrap();
    let empty = get_game_with_moves(&connection, game.id).unwrap();
    assert_eq!(empty.game.id, game.id);
    assert!(empty.moves.is_empty());
    add_move(&connection, game.id, 8, Player::X).unwrap();
    add_move(&connection, game.id, 3, Player::O).unwrap();
    add_move(&connection, game.id, 5, Player::X).unwrap();
    let full = get_game_with_moves(&connection, game.id).unwrap();
    assert_eq!(full.game.current_player, Player::O);
    let seen: Vec<(i64, i64, Player)> =
        full.moves.iter().map(|m| (m.move_number, m.position, m.player)).collect();
    assert_eq!(seen, vec![(1, 8, Player::X), (2, 3, Player::O), (3, 5, Player::X)]);
}

#[test]
fn update_applies_exactly_the_supplied_fields() {
    let connection = store();
    let game = create_game(&connection, 3).unwrap();

    let only_status =
        update_game(&connection, game.id, status_update(GameStatus::Completed)).unwrap();
    assert_eq!(only_status.status, GameStatus::Completed);
    assert_eq!(only_status.winner, None);

    let only_winner = update_game(
        &connection,
        game.id,
        GameUpdate { status: None, winner: Some(Some(GameWinner::O)) },
    )
    .unwrap();
    assert_eq!(only_winner.status, GameStatus::Completed);
    assert_eq!(only_winner.winner, Some(GameWinner::O));

    let status_again =
        update_game(&connection, game.id, status_update(GameStatus::Abandoned)).unwrap();
    assert_eq!(status_again.status, GameStatus::Abandoned);
    assert_eq!(status_again.winner, Some(GameWinner::O));

    let cleared =
        update_game(&connection, game.id, GameUpdate { status: None, winner: Some(None) })
            .unwrap();
    assert_eq!(cleared.status, GameStatus::Abandoned);
    assert_eq!(cleared.winner, None);

    let both = update_game(
        &connection,
        game.id,
        GameUpdate { status: Some(GameStatus::InProgress), winner: Some(Some(GameWinner::Draw)) },
    )
    .unwrap();
    assert_eq!(both.status, GameStatus::InProgress);
    assert_eq!(both.winner, Some(GameWinner::Draw));

    let both_cleared = update_game(
        &connection,
        game.id,
        GameUpdate { status: Some(GameStatus::Completed), winner: Some(None) },
    )
    .unwrap();
    assert_eq!(both_cleared.status, GameStatus::Completed);
    assert_eq!(both_cleared.winner, None);
    assert_eq!(both_cleared.current_player, Player::X);
    assert_eq!(both_cleared.board_size, 3);
}

#[test]
fn update_without_fields_returns_the_game_unchanged() {
    let connection = store();
    let game = create_game(&connection, 3).unwrap();
    let same = update_game(&connection, game.id, GameUpdate::default()).unwrap();
    assert_eq!(same.id, game.id);
    assert_eq!(same.status, GameStatus::InProgress);
    assert_eq!(same.winner, None);
    assert_eq!(same.updated_at, game.updated_at);
}

#[test]
fn update_of_a_missing_game_is_not_found() {
    let connection = store();
    for updates in [GameUpdate::default(), status_update(GameStatus::Completed)] {
        match update_game(&connection, 3, updates) {
            Err(ServiceError::NotFound(message)) => {
                assert_eq!(message, "Hra s ID 3 nebyla nalezena")
            },
            other => panic!("expected not found, got {other:?}"),
        }
    }
}

#[test]
fn update_does_not_touch_the_turn() {
    let connection = store();
    let game = create_game(&connection, 3).unwrap();
    add_move(&connection, game.id, 0, Player::X).unwrap();
    let updated = update_game(
        &connection,
        game.id,
        GameUpdate { status: Some(GameStatus::InProgress), winner: Some(Some(GameWinner::X)) },
    )
    .unwrap();
    assert_eq!(updated.current_player, Player::O);
}

#[test]
fn moves_of_a_missing_game_are_not_found() {
    let connection = store();
    assert!(matches!(get_game_moves(&connection, 1), Err(ServiceError::NotFound(_))));
}

#[test]
fn a_store_without_schema_reports_a_storage_failure() {
    let connection = Connection::open_in_memory().unwrap();
    assert!(matches!(create_game(&connection, 3), Err(ServiceError::Database(_))));
    assert!(matches!(get_game_by_id(&connection, 1), Err(ServiceError::Database(_))));
    assert!(matches!(
        get_games(&connection, GameFilters { status: None }),
        Err(ServiceError::Database(_))
    ));
    assert!(matches!(delete_game(&connection, 1), Err(ServiceError::Database(_))));
    assert!(matches!(add_move(&connection, 1, 0, Player::X), Err(ServiceError::Database(_))));
    assert!(connection.is_autocommit());
}

#[test]
fn an_undecodable_row_reports_a_storage_failure() {
    let connection = store();
    let game = create_game(&connection, 3).unwrap();
    connection.execute("UPDATE games SET status = 'paused' WHERE id = ?1", [game.id]).unwrap();
    match get_game_by_id(&connection, game.id) {
        Err(error @ ServiceError::Database(_)) => {
            assert_eq!(error.status_code(), 500);
            assert!(error.message().contains("Invalid game status"));
        },
        other => panic!("expected a storage failure, got {other:?}"),
    }
    connection.execute("UPDATE games SET status = 'IN_PROGRESS' WHERE id = ?1", [game.id]).unwrap();
    assert_eq!(get_game_by_id(&connection, game.id).unwrap().status, GameStatus::InProgress);
    connection
        .execute("UPDATE games SET winner = 'nobody', current_player = 'o' WHERE id = ?1", [game.id])
        .unwrap();
    assert!(matches!(get_game_by_id(&connection, game.id), Err(ServiceError::Database(_))));
    connection.execute("UPDATE games SET winner = 'DRAW' WHERE id = ?1", [game.id]).unwrap();
    let decoded = get_game_by_id(&connection, game.id).unwrap();
    assert_eq!(decoded.winner, Some(GameWinner::Draw));
    assert_eq!(decoded.current_player, Player::O);
}

#[test]
fn the_next_move_follows_the_highest_stored_number() {
    let connection = store();
    let game = create_game(&connection, 3).unwrap();
    connection
        .execute(
            "INSERT INTO game_moves (game_id, move_number, position, player) VALUES (?1, 41, 30, 'X')",
            [game.id],
        )
        .unwrap();
    assert_eq!(add_move(&connection, game.id, 0, Player::X).unwrap().move_number, 42);
}

#[test]
fn no_move_number_follows_the_largest_integer() {
    let connection = store();
    let game = create_game(&connection, 3).unwrap();
    connection
        .execute(
            "INSERT INTO game_moves (game_id, move_number, position, player) VALUES (?1, ?2, 30, 'X')",
            (game.id, i64::MAX),
        )
        .unwrap();
    match add_move(&connection, game.id, 0, Player::X) {
        Err(ServiceError::Internal(message)) => assert_eq!(message, "Move number out of range"),
        other => panic!("expected an internal error, got {other:?}"),
    }
    assert_eq!(count_rows(&connection, "SELECT COUNT(*) FROM game_moves"), 1);
}

#[test]
fn a_column_of_the_wrong_type_reports_a_storage_failure() {
    let connection = store();
    let game = create_game(&connection, 3).unwrap();
    let break_and_mend = [
        ("UPDATE games SET board_size = 'wide' WHERE id = 1", "UPDATE games SET board_size = 3 WHERE id = 1"),
        ("UPDATE games SET winner = x'00ff' WHERE id = 1", "UPDATE games SET winner = NULL WHERE id = 1"),
        ("UPDATE games SET winner = 7 WHERE id = 1", "UPDATE games SET winner = 'x' WHERE id = 1"),
        (
            "UPDATE games SET current_player = CAST(x'ff' AS TEXT) WHERE id = 1",
            "UPDATE games SET current_player = 'X' WHERE id = 1",
        ),
        ("UPDATE games SET updated_at = x'6162' WHERE id = 1", "UPDATE games SET updated_at = 'ab' WHERE id = 1"),
    ];
    for (damage, repair) in break_and_mend {
        connection.execute_batch(damage).unwrap();
        match get_game_by_id(&connection, game.id) {
            Err(ServiceError::Database(_)) => {},
            other => panic!("expected a storage failure after {damage:?}, got {other:?}"),
        }
        assert!(matches!(
            get_games(&connection, GameFilters { status: None }),
            Err(ServiceError::Database(_))
        ));
        connection.execute_batch(repair).unwrap();
        assert!(get_game_by_id(&connection, game.id).is_ok(), "after {repair:?}");
    }
    let mended = get_game_by_id(&connection, game.id).unwrap();
    assert_eq!(mended.winner, Some(GameWinner::X));
    assert_eq!(mended.updated_at, "ab");
    assert_eq!(mended.board_size, 3);
}

#[test]
fn a_move_row_of_the_wrong_type_reports_a_storage_failure() {
    let connection = store();
    let game = create_game(&connection, 3).unwrap();
    add_move(&connection, game.id, 0, Player::X).unwrap();
    connection.execute_batch("UPDATE game_moves SET position = 'corner' WHERE id = 1").unwrap();
    assert!(matches!(get_game_moves(&connection, game.id), Err(ServiceError::Database(_))));
    assert!(matches!(get_game_with_moves(&connection, game.id), Err(ServiceError::Database(_))));
    connection.execute_batch("UPDATE game_moves SET position = 0, player = 'Z' WHERE id = 1").unwrap();
    match get_game_moves(&connection, game.id) {
        Err(error @ ServiceError::Database(_)) => {
            assert!(error.message().contains("Invalid player value"))
        },
        other => panic!("expected a storage failure, got {other:?}"),
    }
    connection.execute_batch("UPDATE game_moves SET player = 'x' WHERE id = 1").unwrap();
    let moves = get_game_moves(&connection, game.id).unwrap();
    assert_eq!(moves.len(), 1);
    assert_eq!((moves[0].id, moves[0].game_id, moves[0].move_number, moves[0].position), (1, 1, 1, 0));
    assert_eq!(moves[0].player, Player::X);
}

#[test]
fn every_field_of_a_game_is_read_from_its_own_column() {
    let connection = store();
    connection
        .execute_batch(
            "INSERT INTO games (id, board_size, status, winner, current_player, created_at, updated_at)
             VALUES (17, 9, 'ABANDONED', 'o', 'o', 'then', 'now')",
        )
        .unwrap();
    let game = get_game_by_id(&connection, 17).unwrap();
    assert_eq!(game.id, 17);
    assert_eq!(game.board_size, 9);
    assert_eq!(game.status, GameStatus::Abandoned);
    assert_eq!(game.winner, Some(GameWinner::O));
    assert_eq!(game.current_player, Player::O);
    assert_eq!(game.created_at, "then");
    assert_eq!(game.updated_at, "now");
    let listed = get_games(&connection, GameFilters { status: None }).unwrap();
    assert_eq!(listed.len(), 1);
    assert_eq!(listed[0].game.id, 17);
    assert_eq!(listed[0].game.status, GameStatus::Abandoned);
    assert_eq!(listed[0].game.created_at, "then");
    assert_eq!(listed[0].move_count, 0);
}

#[test]
fn stored_tokens_are_decoded_in_any_case() {
    let connection = store();
    let game = create_game(&connection, 3).unwrap();
    connection
        .execute(
            "UPDATE games SET status = 'Completed', winner = 'Draw', current_player = 'o' WHERE id = ?1",
            [game.id],
        )
        .unwrap();
    let decoded = get_game_by_id(&connection, game.id).unwrap();
    assert_eq!(decoded.status, GameStatus::Completed);
    assert_eq!(decoded.winner, Some(GameWinner::Draw));
    assert_eq!(decoded.current_player, Player::O);
}

#[test]
fn a_move_is_added_inside_one_transaction() {
    let connection = store();
    let game = create_game(&connection, 3).unwrap();
    connection.execute_batch("BEGIN").unwrap();
    match add_move(&connection, game.id, 0, Player::X) {
        Err(ServiceError::Database(_)) => {},
        other => panic!("expected a storage failure inside a transaction, got {other:?}"),
    }
    connection.execute_batch("ROLLBACK").unwrap();
    assert_eq!(count_rows(&connection, "SELECT COUNT(*) FROM game_moves"), 0);
    assert_eq!(add_move(&connection, game.id, 0, Player::X).unwrap().move_number, 1);
}
