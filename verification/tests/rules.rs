use tictactoe_server::errors::ServiceError;
use tictactoe_server::models::{Game, GameListItem, GameMove, GameStatus, GameWinner, Player};
use tictactoe_server::rules::{
    cap_listing, check_turn, check_vacancy, created_or_internal, deleted_or_missing, first,
    found_or_missing, game_not_found, highest_or_zero, next_move_number, plan_move, plan_update,
    position_taken, recorded_or_internal, updated_or_internal, MovePlan, MAX_RETURNED_GAMES,
};
use tictactoe_server::services::game::GameUpdate;
use tictactoe_server::statements::Command;

fn game(id: i64, status: GameStatus, current_player: Player) -> Game {
    Game {
        id,
        board_size: 3,
        status,
        winner: None,
        current_player,
        created_at: "2024-01-01 00:00:00".to_string(),
        updated_at: "2024-01-01 00:00:00".to_string(),
    }
}

fn invalid_input<T: std::fmt::Debug>(result: Result<T, ServiceError>) -> String {
    match result {
        Err(ServiceError::InvalidInput(message)) => message,
        other => panic!("expected invalid input, got {other:?}"),
    }
}

fn internal<T: std::fmt::Debug>(result: Result<T, ServiceError>) -> String {
    match result {
        Err(ServiceError::Internal(message)) => message,
        other => panic!("expected an internal error, got {other:?}"),
    }
}

fn not_found<T: std::fmt::Debug>(result: Result<T, ServiceError>) -> String {
    match result {
        Err(ServiceError::NotFound(message)) => message,
        other => panic!("expected not found, got {other:?}"),
    }
}

#[test]
fn the_first_move_is_number_one() {
    assert_eq!(next_move_number(0).unwrap(), 1);
}

#[test]
fn the_next_move_follows_the_highest() {
    assert_eq!(next_move_number(1).unwrap(), 2);
    assert_eq!(next_move_number(8).unwrap(), 9);
    assert_eq!(next_move_number(i64::MAX - 1).unwrap(), i64::MAX);
    assert_eq!(next_move_number(-4).unwrap(), -3);
}

#[test]
fn no_number_follows_the_largest() {
    assert_eq!(internal(next_move_number(i64::MAX)), "Move number out of range");
}

#[test]
fn the_turn_check_accepts_the_current_player() {
    assert!(check_turn(&game(1, GameStatus::InProgress, Player::X), Player::X).is_ok());
    assert!(check_turn(&game(1, GameStatus::InProgress, Player::O), Player::O).is_ok());
}

#[test]
fn the_turn_check_rejects_the_other_player() {
    assert_eq!(
        invalid_input(check_turn(&game(1, GameStatus::InProgress, Player::X), Player::O)),
        "It's X's turn, not O's"
    );
    assert_eq!(
        invalid_input(check_turn(&game(1, GameStatus::InProgress, Player::O), Player::X)),
        "It's O's turn, not X's"
    );
}

#[test]
fn the_turn_check_rejects_a_finished_game() {
    for status in [GameStatus::Completed, GameStatus::Abandoned] {
        for current in [Player::X, Player::O] {
            for player in [Player::X, Player::O] {
                assert_eq!(
                    invalid_input(check_turn(&game(1, status, current), player)),
                    "Cannot add a move to a finished game"
                );
            }
        }
    }
}

#[test]
fn the_vacancy_check_rejects_an_occupied_position() {
    assert!(check_vacancy(false, 4).is_ok());
    assert_eq!(invalid_input(check_vacancy(true, 4)), "Position 4 is already taken");
    assert_eq!(invalid_input(check_vacancy(true, 0)), "Position 0 is already taken");
    assert_eq!(invalid_input(check_vacancy(true, 123)), "Position 123 is already taken");
}

#[test]
fn an_accepted_move_is_planned_in_full() {
    let plan = plan_move(&game(5, GameStatus::InProgress, Player::X), false, 0, 4, Player::X)
        .unwrap();
    assert_eq!(
        plan,
        MovePlan { game_id: 5, move_number: 1, position: 4, player: Player::X, next_player: Player::O }
    );
    let plan = plan_move(&game(6, GameStatus::InProgress, Player::O), false, 7, 2, Player::O)
        .unwrap();
    assert_eq!(
        plan,
        MovePlan { game_id: 6, move_number: 8, position: 2, player: Player::O, next_player: Player::X }
    );
}

#[test]
fn a_plan_writes_the_move_and_then_the_turn() {
    let plan =
        MovePlan { game_id: 5, move_number: 3, position: 4, player: Player::X, next_player: Player::O };
    assert_eq!(
        plan.insert_command(),
        Command::InsertMove { game_id: 5, move_number: 3, position: 4, player: Player::X }
    );
    assert_eq!(plan.turn_command(), Command::SetCurrentPlayer { game_id: 5, player: Player::O });
}

#[test]
fn the_checks_apply_in_order() {
    let finished = game(1, GameStatus::Completed, Player::X);
    assert_eq!(
        invalid_input(plan_move(&finished, true, i64::MAX, 0, Player::O)),
        "Cannot add a move to a finished game"
    );
    let running = game(1, GameStatus::InProgress, Player::X);
    assert_eq!(
        invalid_input(plan_move(&running, true, i64::MAX, 0, Player::O)),
        "It's X's turn, not O's"
    );
    assert_eq!(
        invalid_input(plan_move(&running, true, i64::MAX, 0, Player::X)),
        "Position 0 is already taken"
    );
    assert_eq!(
        internal(plan_move(&running, false, i64::MAX, 0, Player::X)),
        "Move number out of range"
    );
    assert!(plan_move(&running, false, 3, 0, Player::X).is_ok());
}

#[test]
fn an_update_without_fields_writes_nothing() {
    assert_eq!(plan_update(1, &GameUpdate::default()), None);
    assert_eq!(plan_update(1, &GameUpdate { status: None, winner: None }), None);
}

#[test]
fn an_update_writes_exactly_the_supplied_fields() {
    assert_eq!(
        plan_update(3, &GameUpdate { status: Some(GameStatus::Completed), winner: None }),
        Some(Command::SetStatus { game_id: 3, status: GameStatus::Completed })
    );
    assert_eq!(
        plan_update(3, &GameUpdate { status: None, winner: Some(Some(GameWinner::O)) }),
        Some(Command::SetWinner { game_id: 3, winner: Some(GameWinner::O) })
    );
    assert_eq!(
        plan_update(3, &GameUpdate { status: None, winner: Some(None) }),
        Some(Command::SetWinner { game_id: 3, winner: None })
    );
    assert_eq!(
        plan_update(
            3,
            &GameUpdate { status: Some(GameStatus::Abandoned), winner: Some(Some(GameWinner::Draw)) }
        ),
        Some(Command::SetStatusAndWinner {
            game_id: 3,
            status: GameStatus::Abandoned,
            winner: Some(GameWinner::Draw)
        })
    );
    assert_eq!(
        plan_update(3, &GameUpdate { status: Some(GameStatus::InProgress), winner: Some(None) }),
        Some(Command::SetStatusAndWinner {
            game_id: 3,
            status: GameStatus::InProgress,
            winner: None
        })
    );
}

#[test]
fn a_found_game_is_returned() {
    let found = found_or_missing(Some(game(4, GameStatus::InProgress, Player::O)), 4).unwrap();
    assert_eq!(found.id, 4);
    assert_eq!(found.current_player, Player::O);
    assert_eq!(created_or_internal(Some(game(4, GameStatus::InProgress, Player::X))).unwrap().id, 4);
    assert_eq!(updated_or_internal(Some(game(9, GameStatus::Completed, Player::X))).unwrap().id, 9);
}

#[test]
fn a_missing_game_is_reported_by_its_identifier() {
    assert_eq!(not_found(found_or_missing(None, 4)), "Hra s ID 4 nebyla nalezena");
    assert_eq!(not_found(found_or_missing(None, 0)), "Hra s ID 0 nebyla nalezena");
    assert_eq!(not_found(found_or_missing(None, -12)), "Hra s ID -12 nebyla nalezena");
    match game_not_found(31) {
        ServiceError::NotFound(message) => assert_eq!(message, "Hra s ID 31 nebyla nalezena"),
        other => panic!("expected not found, got {other:?}"),
    }
}

#[test]
fn a_game_missing_after_a_write_is_an_internal_error() {
    assert_eq!(internal(created_or_internal(None)), "Failed to load newly created game");
    assert_eq!(internal(updated_or_internal(None)), "Hra po aktualizaci nebyla nalezena");
    assert_eq!(internal(recorded_or_internal(None)), "Failed to load newly recorded move");
}

#[test]
fn a_recorded_move_is_returned() {
    let entry = GameMove {
        id: 11,
        game_id: 2,
        move_number: 3,
        position: 4,
        player: Player::X,
        created_at: "2024-01-01 00:00:00".to_string(),
    };
    let returned = recorded_or_internal(Some(entry)).unwrap();
    assert_eq!((returned.id, returned.game_id, returned.move_number), (11, 2, 3));
}

#[test]
fn a_deletion_that_removed_nothing_is_not_found() {
    assert!(deleted_or_missing(1, 5).is_ok());
    assert!(deleted_or_missing(2, 5).is_ok());
    assert_eq!(not_found(deleted_or_missing(0, 5)), "Hra s ID 5 nebyla nalezena");
}

#[test]
fn first_takes_the_leading_item() {
    assert_eq!(first(Vec::<i64>::new()), None);
    assert_eq!(first(vec![7]), Some(7));
    assert_eq!(first(vec![3, 1, 2]), Some(3));
    assert_eq!(first(vec!["a".to_string(), "b".to_string()]), Some("a".to_string()));
}

#[test]
fn a_listing_is_cut_at_the_cap() {
    assert_eq!(MAX_RETURNED_GAMES, 100);
    let listing = |n: i64| -> Vec<GameListItem> {
        (0..n)
            .map(|id| GameListItem {
                game: game(id, GameStatus::InProgress, Player::X),
                move_count: id,
            })
            .collect()
    };
    assert!(cap_listing(listing(0)).is_empty());
    let short = cap_listing(listing(3));
    assert_eq!(short.iter().map(|item| item.game.id).collect::<Vec<_>>(), vec![0, 1, 2]);
    assert_eq!(cap_listing(listing(100)).len(), 100);
    let cut = cap_listing(listing(101));
    assert_eq!(cut.len(), 100);
    assert_eq!(cut[0].game.id, 0);
    assert_eq!(cut[99].game.id, 99);
    assert_eq!(cap_listing(listing(250)).len(), 100);
}

#[test]
fn a_position_is_taken_where_the_store_found_a_move() {
    assert!(!position_taken(&Vec::new()));
    assert!(position_taken(&vec![12]));
    assert!(position_taken(&vec![0]));
    assert!(position_taken(&vec![3, 4]));
}

#[test]
fn the_highest_number_is_the_first_of_the_answer() {
    assert_eq!(highest_or_zero(Vec::new()), 0);
    assert_eq!(highest_or_zero(vec![7]), 7);
    assert_eq!(highest_or_zero(vec![0]), 0);
    assert_eq!(highest_or_zero(vec![i64::MAX]), i64::MAX);
    assert_eq!(highest_or_zero(vec![5, 9]), 5);
    assert_eq!(highest_or_zero(vec![-2]), -2);
}
