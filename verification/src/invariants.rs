//! What holds of every store that the engine's operations produce.

use vstd::prelude::*;
use crate::ledger::{
    count, created_after, highest, highest_or_zero, moves_of, occupied, passes, selected,
    turn_after,
    well_ordered, without_game, without_id, GameRecord, Ledger, ListedGame, MoveOutcome,
    MoveRecord, Operation,
};
use crate::errors::ServiceError;
use crate::models::{GameStatus, GameWinner, Player};
use crate::rules::{move_verdict, reports, MovePlan, Verdict};
use crate::services::game::GameUpdate;

verus! {

proof fn lemma_push(moves: Seq<MoveRecord>, entry: MoveRecord)
    ensures
        moves.push(entry).drop_last() == moves,
        moves.push(entry).last() == entry,
{
    assert(moves.push(entry).drop_last() =~= moves);
}

/// A game none of whose moves is stored has no move counted, no position
/// occupied and no highest move number.
proof fn lemma_absent_game(moves: Seq<MoveRecord>, game_id: i64)
    requires
        forall|i: int| 0 <= i < moves.len() ==> (#[trigger] moves[i]).game_id != game_id,
    ensures
        count(moves, game_id) == 0,
        highest(moves, game_id) is None,
        moves_of(moves, game_id).len() == 0,
        forall|position: i64| !occupied(moves, game_id, position),
    decreases moves.len(),
{
    if moves.len() > 0 {
        let rest = moves.drop_last();
        assert(forall|i: int| 0 <= i < rest.len() ==> rest[i] == moves[i]);
        lemma_absent_game(rest, game_id);
        assert(moves.last() == moves[moves.len() - 1]);
        assert forall|position: i64| !occupied(moves, game_id, position) by {
            assert(!occupied(rest, game_id, position));
        }
    }
}

/// In a well-ordered store the highest move number of a game is the number
/// of its moves.
pub proof fn lemma_highest_is_count(moves: Seq<MoveRecord>, game_id: i64)
    requires
        well_ordered(moves),
    ensures
        highest_or_zero(moves, game_id) == count(moves, game_id),
        highest(moves, game_id) is None <==> count(moves, game_id) == 0,
    decreases moves.len(),
{
    if moves.len() > 0 {
        lemma_highest_is_count(moves.drop_last(), game_id);
    }
}

/// The position of a stored move is occupied.
proof fn lemma_stored_is_occupied(moves: Seq<MoveRecord>, i: int)
    requires
        0 <= i < moves.len(),
    ensures
        occupied(moves, moves[i].game_id, moves[i].position),
    decreases moves.len(),
{
    if i < moves.len() - 1 {
        lemma_stored_is_occupied(moves.drop_last(), i);
    }
}

/// Removing the moves of one game leaves no move of it, and leaves the
/// moves of every other game counted and placed as before.
proof fn lemma_without_game(moves: Seq<MoveRecord>, removed: i64)
    ensures
        forall|i: int|
            0 <= i < without_game(moves, removed).len() ==> (#[trigger] without_game(
                moves,
                removed,
            )[i]).game_id != removed,
        forall|i: int|
            0 <= i < without_game(moves, removed).len() ==> exists|j: int|
                0 <= j < moves.len() && moves[j] == #[trigger] without_game(moves, removed)[i],
        forall|game_id: i64|
            game_id != removed ==> #[trigger] count(without_game(moves, removed), game_id)
                == count(moves, game_id),
        forall|game_id: i64, position: i64|
            game_id != removed ==> (#[trigger] occupied(
                without_game(moves, removed),
                game_id,
                position,
            ) <==> occupied(moves, game_id, position)),
        forall|game_id: i64|
            game_id != removed ==> #[trigger] moves_of(without_game(moves, removed), game_id)
                == moves_of(moves, game_id),
        well_ordered(moves) ==> well_ordered(without_game(moves, removed)),
    decreases moves.len(),
{
    if moves.len() > 0 {
        let rest = moves.drop_last();
        let last = moves.last();
        let kept = without_game(rest, removed);
        let left = without_game(moves, removed);
        lemma_without_game(rest, removed);
        if last.game_id != removed {
            lemma_push(kept, last);
        }
        assert forall|game_id: i64| game_id != removed implies #[trigger] count(left, game_id)
            == count(moves, game_id) by {
            assert(count(kept, game_id) == count(rest, game_id));
        }
        assert forall|game_id: i64, position: i64| game_id != removed implies (#[trigger] occupied(
            left,
            game_id,
            position,
        ) <==> occupied(moves, game_id, position)) by {
            assert(occupied(kept, game_id, position) <==> occupied(rest, game_id, position));
        }
        assert forall|game_id: i64| game_id != removed implies #[trigger] moves_of(left, game_id)
            == moves_of(moves, game_id) by {
            assert(moves_of(kept, game_id) == moves_of(rest, game_id));
        }
        assert forall|i: int| 0 <= i < left.len() implies exists|j: int|
            0 <= j < moves.len() && moves[j] == #[trigger] left[i] by {
            if i < kept.len() {
                let j = choose|j: int| 0 <= j < rest.len() && rest[j] == kept[i];
                assert(moves[j] == left[i]);
            } else {
                assert(moves[moves.len() - 1] == left[i]);
            }
        }
    }
}

/// Removing an identifier leaves the others, each as often as before.
proof fn lemma_without_id(ids: Seq<i64>, removed: i64)
    ensures
        forall|id: i64|
            #[trigger] without_id(ids, removed).contains(id) <==> ids.contains(id) && id
                != removed,
        ids.no_duplicates() ==> without_id(ids, removed).no_duplicates(),
    decreases ids.len(),
{
    if ids.len() > 0 {
        let rest = ids.drop_last();
        let kept = without_id(rest, removed);
        lemma_without_id(rest, removed);
        assert forall|id: i64| #[trigger]
            without_id(ids, removed).contains(id) <==> ids.contains(id) && id != removed by {
            lemma_contains_last(ids, id);
            if ids.last() != removed {
                lemma_contains_last(kept.push(ids.last()), id);
                assert(kept.push(ids.last()).drop_last() =~= kept);
            }
        }
        if ids.no_duplicates() {
            assert(rest.no_duplicates());
            if ids.last() != removed {
                assert(!rest.contains(ids.last())) by {
                    if rest.contains(ids.last()) {
                        let i = choose|i: int| 0 <= i < rest.len() && rest[i] == ids.last();
                        assert(ids[i] == ids[ids.len() - 1]);
                    }
                }
                lemma_push_fresh(kept, ids.last());
            }
        }
    }
}

/// A sequence holds a value where it is its last element or the elements
/// before hold it.
proof fn lemma_contains_last(ids: Seq<i64>, id: i64)
    requires
        ids.len() > 0,
    ensures
        ids.contains(id) <==> ids.last() == id || ids.drop_last().contains(id),
{
    let rest = ids.drop_last();
    if ids.contains(id) {
        let i = choose|i: int| 0 <= i < ids.len() && ids[i] == id;
        if i < ids.len() - 1 {
            assert(rest[i] == id);
        }
    }
    if rest.contains(id) {
        let i = choose|i: int| 0 <= i < rest.len() && rest[i] == id;
        assert(ids[i] == id);
    }
    if ids.last() == id {
        assert(ids[ids.len() - 1] == id);
    }
}

/// Appending a value that a sequence without duplicates does not hold gives
/// a sequence without duplicates.
proof fn lemma_push_fresh(ids: Seq<i64>, id: i64)
    requires
        ids.no_duplicates(),
        !ids.contains(id),
    ensures
        ids.push(id).no_duplicates(),
{
    assert forall|i: int, j: int|
        0 <= i < ids.push(id).len() && 0 <= j < ids.push(id).len() && i != j implies ids.push(
        id,
    )[i] != ids.push(id)[j] by {
        if i < ids.len() && j < ids.len() {
        } else if i < ids.len() {
            assert(ids.contains(ids[i]));
        } else {
            assert(ids.contains(ids[j]));
        }
    }
}

/// In a well-ordered store no two moves share a game and a position.
pub proof fn positions_are_distinct(moves: Seq<MoveRecord>, i: int, j: int)
    requires
        well_ordered(moves),
        0 <= i < j < moves.len(),
        moves[i].game_id == moves[j].game_id,
    ensures
        moves[i].position != moves[j].position,
    decreases moves.len(),
{
    if j == moves.len() - 1 {
        lemma_stored_is_occupied(moves.drop_last(), i);
    } else {
        positions_are_distinct(moves.drop_last(), i, j);
    }
}

/// In a well-ordered store the moves of a game, in insertion order, are
/// numbered 1, 2, 3, ... without a gap, up to the number of its moves, and
/// are made by X and O in turn, X first.
pub proof fn move_numbers_are_gapless(moves: Seq<MoveRecord>, game_id: i64)
    requires
        well_ordered(moves),
    ensures
        moves_of(moves, game_id).len() == count(moves, game_id),
        forall|k: int|
            0 <= k < moves_of(moves, game_id).len() ==> (#[trigger] moves_of(
                moves,
                game_id,
            )[k]).move_number == k + 1,
        forall|k: int|
            0 <= k < moves_of(moves, game_id).len() ==> (#[trigger] moves_of(
                moves,
                game_id,
            )[k]).player == turn_after(k as nat),
        forall|k: int|
            0 <= k < moves_of(moves, game_id).len() ==> (#[trigger] moves_of(
                moves,
                game_id,
            )[k]).game_id == game_id,
    decreases moves.len(),
{
    if moves.len() > 0 {
        move_numbers_are_gapless(moves.drop_last(), game_id);
    }
}

/// The store before any game was created meets the invariants.
pub proof fn empty_is_well_formed()
    ensures
        Ledger::empty().wf(),
{
}

/// Creating a game under an identifier that no game has keeps the
/// invariants, and the new game is in progress, without a winner, with X to
/// move and without moves.
pub proof fn create_keeps_invariants(ledger: Ledger, game_id: i64, board_size: i64)
    requires
        ledger.wf(),
        !ledger.games.contains_key(game_id),
    ensures
        ledger.create_game(game_id, board_size).wf(),
        ledger.create_game(game_id, board_size).games[game_id].status == GameStatus::InProgress,
        ledger.create_game(game_id, board_size).games[game_id].winner is None,
        ledger.create_game(game_id, board_size).games[game_id].current_player == Player::X,
        ledger.create_game(game_id, board_size).games[game_id].board_size == board_size,
        count(ledger.create_game(game_id, board_size).moves, game_id) == 0,
{
    lemma_absent_game(ledger.moves, game_id);
    let after = ledger.create_game(game_id, board_size);
    lemma_push_fresh(ledger.created, game_id);
    assert forall|id: i64| after.created.contains(id) <==> #[trigger] after.games.contains_key(
        id,
    ) by {
        lemma_contains_last(after.created, id);
        assert(after.created.drop_last() =~= ledger.created);
        assert(ledger.created.contains(id) <==> ledger.games.contains_key(id));
    }
    assert forall|other: i64| #[trigger] after.games.contains_key(other) implies after.games[other].current_player
        == turn_after(count(after.moves, other)) by {
        if other != game_id {
            assert(ledger.games.contains_key(other));
        }
    }
}

/// Updating a game keeps the invariants, changes exactly the supplied
/// fields of that game, and changes neither its turn, nor any move, nor any
/// other game.
pub proof fn update_keeps_invariants(ledger: Ledger, game_id: i64, updates: GameUpdate)
    requires
        ledger.wf(),
    ensures
        ledger.update_game(game_id, updates).0.wf(),
        ledger.update_game(game_id, updates).1 == ledger.games.contains_key(game_id),
        ledger.update_game(game_id, updates).0.moves == ledger.moves,
        ledger.update_game(game_id, updates).0.games.dom() == ledger.games.dom(),
        forall|other: i64|
            other != game_id && ledger.games.contains_key(other) ==> #[trigger] ledger.update_game(
                game_id,
                updates,
            ).0.games[other] == ledger.games[other],
        ledger.games.contains_key(game_id) ==> {
            let before = ledger.games[game_id];
            let after = ledger.update_game(game_id, updates).0.games[game_id];
            &&& after.board_size == before.board_size
            &&& after.current_player == before.current_player
            &&& after.status == match updates.status {
                Some(status) => status,
                None => before.status,
            }
            &&& after.winner == match updates.winner {
                Some(winner) => winner,
                None => before.winner,
            }
        },
{
    let after = ledger.update_game(game_id, updates).0;
    assert(after.games.dom() =~= ledger.games.dom());
    assert forall|other: i64| #[trigger] after.games.contains_key(other) implies after.games[other].current_player
        == turn_after(count(after.moves, other)) by {
        assert(ledger.games.contains_key(other));
    }
}

/// Cascade delete: deleting a game removes it and all its moves, after which
/// listing its moves reports it as missing; the moves of every other game
/// stay as they were, and the invariants are kept.
pub proof fn delete_cascades(ledger: Ledger, game_id: i64)
    requires
        ledger.wf(),
    ensures
        ledger.delete_game(game_id).1 == ledger.games.contains_key(game_id),
        !ledger.delete_game(game_id).0.games.contains_key(game_id),
        forall|i: int|
            0 <= i < ledger.delete_game(game_id).0.moves.len() ==> (
            #[trigger] ledger.delete_game(game_id).0.moves[i]).game_id != game_id,
        ledger.delete_game(game_id).0.game_moves(game_id) is None,
        forall|other: i64|
            other != game_id ==> #[trigger] ledger.delete_game(game_id).0.game_moves(other)
                == ledger.game_moves(other),
        ledger.delete_game(game_id).0.wf(),
{
    let after = ledger.delete_game(game_id).0;
    if ledger.games.contains_key(game_id) {
        lemma_without_game(ledger.moves, game_id);
        lemma_without_id(ledger.created, game_id);
        assert forall|id: i64| after.created.contains(id) <==> #[trigger] after.games.contains_key(
            id,
        ) by {
            assert(ledger.created.contains(id) <==> ledger.games.contains_key(id));
        }
        assert forall|i: int| 0 <= i < after.moves.len() implies after.games.contains_key(
            #[trigger] after.moves[i].game_id,
        ) by {
            let j = choose|j: int| 0 <= j < ledger.moves.len() && ledger.moves[j] == after.moves[i];
            assert(ledger.games.contains_key(ledger.moves[j].game_id));
        }
        assert forall|other: i64| #[trigger] after.games.contains_key(other) implies after.games[other].current_player
            == turn_after(count(after.moves, other)) by {
            assert(ledger.games.contains_key(other));
            assert(count(without_game(ledger.moves, game_id), other) == count(
                ledger.moves,
                other,
            ));
        }
        assert forall|other: i64| other != game_id implies #[trigger] after.game_moves(other)
            == ledger.game_moves(other) by {
            assert(moves_of(without_game(ledger.moves, game_id), other) == moves_of(
                ledger.moves,
                other,
            ));
        }
    } else {
        assert forall|i: int| 0 <= i < after.moves.len() implies (#[trigger] after.moves[i]).game_id
            != game_id by {
            assert(ledger.games.contains_key(ledger.moves[i].game_id));
        }
    }
}

/// Adding a move keeps the invariants. An accepted move is appended under
/// the number that follows the moves the game had, at a position that was
/// free, and hands the turn to the other side; any other outcome leaves the
/// store as it was.
pub proof fn add_move_keeps_invariants(
    ledger: Ledger,
    game_id: i64,
    position: i64,
    player: Player,
)
    requires
        ledger.wf(),
    ensures
        ledger.add_move(game_id, position, player).0.wf(),
        match ledger.add_move(game_id, position, player).1 {
            MoveOutcome::Accepted(entry) => {
                let after = ledger.add_move(game_id, position, player).0;
                &&& ledger.games.contains_key(game_id)
                &&& ledger.games[game_id].status == GameStatus::InProgress
                &&& ledger.games[game_id].current_player == player
                &&& !occupied(ledger.moves, game_id, position)
                &&& entry == MoveRecord {
                    game_id,
                    move_number: (count(ledger.moves, game_id) + 1) as i64,
                    position,
                    player,
                }
                &&& after.moves == ledger.moves.push(entry)
                &&& after.games.dom() == ledger.games.dom()
                &&& after.games[game_id].current_player == player.opponent()
                &&& count(after.moves, game_id) == count(ledger.moves, game_id) + 1
            },
            _ => ledger.add_move(game_id, position, player).0 == ledger,
        },
{
    let after = ledger.add_move(game_id, position, player).0;
    if ledger.add_move(game_id, position, player).1 is Accepted {
        let entry = ledger.add_move(game_id, position, player).1->Accepted_0;
        lemma_highest_is_count(ledger.moves, game_id);
        lemma_push(ledger.moves, entry);
        assert(after.moves == ledger.moves.push(entry));
        assert(after.games.dom() =~= ledger.games.dom());
        assert forall|i: int| 0 <= i < after.moves.len() implies after.games.contains_key(
            #[trigger] after.moves[i].game_id,
        ) by {
            if i < ledger.moves.len() {
                assert(ledger.games.contains_key(ledger.moves[i].game_id));
            }
        }
        assert forall|other: i64| #[trigger] after.games.contains_key(other) implies after.games[other].current_player
            == turn_after(count(after.moves, other)) by {
            assert(ledger.games.contains_key(other));
        }
    }
}

/// The engine decides as the model does: where the status and the turn the
/// engine read, the occupancy it found and the highest move number it was
/// answered are those of the store, the verdict it takes is the outcome of
/// adding the move in the model, and the commands of its plan make the
/// store of the model.
pub proof fn decision_is_the_models(
    ledger: Ledger,
    game_id: i64,
    position: i64,
    player: Player,
    status: GameStatus,
    current_player: Player,
    taken: bool,
    highest_number: i64,
)
    requires
        ledger.games.contains_key(game_id),
        status == ledger.games[game_id].status,
        current_player == ledger.games[game_id].current_player,
        taken == occupied(ledger.moves, game_id, position),
        highest_number == highest_or_zero(ledger.moves, game_id),
    ensures
        match move_verdict(status, current_player, taken, highest_number, player) {
            Verdict::Accepted { move_number, next_player } => {
                let plan = MovePlan { game_id, move_number, position, player, next_player };
                ledger.add_move(game_id, position, player) == (
                    ledger.apply(plan.insertion(), 0).apply(plan.handover(), 0),
                    MoveOutcome::Accepted(MoveRecord { game_id, move_number, position, player }),
                )
            },
            rejection => ledger.add_move(game_id, position, player) == (
                ledger,
                MoveOutcome::Rejected(rejection),
            ),
        },
{
}

/// A legal move is accepted: in a game in progress with fewer than
/// `i64::MAX` moves, a move by the side whose turn it is to a free position is
/// inserted after the moves the game had, under the number that follows
/// them, and hands the turn to the other side. Nothing else changes.
pub proof fn legal_move_is_accepted(ledger: Ledger, game_id: i64, position: i64, player: Player)
    requires
        ledger.wf(),
        ledger.games.contains_key(game_id),
        ledger.games[game_id].status == GameStatus::InProgress,
        ledger.games[game_id].current_player == player,
        !occupied(ledger.moves, game_id, position),
        count(ledger.moves, game_id) < i64::MAX,
    ensures
        ({
            let n = count(ledger.moves, game_id);
            let entry = MoveRecord { game_id, move_number: (n + 1) as i64, position, player };
            let after = ledger.add_move(game_id, position, player).0;
            &&& ledger.add_move(game_id, position, player).1 == MoveOutcome::Accepted(entry)
            &&& after.moves == ledger.moves.push(entry)
            &&& moves_of(after.moves, game_id) == moves_of(ledger.moves, game_id).push(entry)
            &&& count(after.moves, game_id) == n + 1
            &&& after.games[game_id].current_player == player.opponent()
            &&& after.games[game_id].current_player == turn_after(n + 1)
            &&& after.games[game_id].status == GameStatus::InProgress
            &&& after.games.dom() == ledger.games.dom()
            &&& after.created == ledger.created
            &&& forall|other: i64|
                other != game_id && ledger.games.contains_key(other) ==> #[trigger] after.games[other]
                    == ledger.games[other]
            &&& after.wf()
        }),
{
    lemma_highest_is_count(ledger.moves, game_id);
    add_move_keeps_invariants(ledger, game_id, position, player);
    let n = count(ledger.moves, game_id);
    let entry = MoveRecord { game_id, move_number: (n + 1) as i64, position, player };
    lemma_push(ledger.moves, entry);
}

/// Terminal lock: once a game is no longer in progress, every attempt to add
/// a move to it is rejected as finished, which is reported as invalid input,
/// and nothing is inserted.
pub proof fn finished_game_is_locked(ledger: Ledger, game_id: i64, position: i64, player: Player)
    requires
        ledger.games.contains_key(game_id),
        ledger.games[game_id].status != GameStatus::InProgress,
    ensures
        ledger.add_move(game_id, position, player) == (
            ledger,
            MoveOutcome::Rejected(Verdict::Finished),
        ),
        forall|error: ServiceError|
            reports(
                error,
                Verdict::Finished,
                ledger.games[game_id].current_player,
                position,
                player,
            ) ==> error is InvalidInput,
{
}

/// Wrong-turn rejection: in a game in progress, a move by the side whose
/// turn it is not is rejected as out of turn, which is reported as invalid
/// input, and the store stays as it was.
pub proof fn wrong_turn_is_rejected(ledger: Ledger, game_id: i64, position: i64, player: Player)
    requires
        ledger.games.contains_key(game_id),
        ledger.games[game_id].status == GameStatus::InProgress,
        ledger.games[game_id].current_player != player,
    ensures
        ledger.add_move(game_id, position, player) == (
            ledger,
            MoveOutcome::Rejected(Verdict::WrongTurn),
        ),
        forall|error: ServiceError|
            reports(
                error,
                Verdict::WrongTurn,
                ledger.games[game_id].current_player,
                position,
                player,
            ) ==> error is InvalidInput,
{
}

/// Of two attempts at one position of one game, made one after the other,
/// at most one is accepted: after an accepted move, a second attempt at the
/// same position is rejected, whichever side makes it, is reported as
/// invalid input, and inserts nothing.
pub proof fn one_move_per_position(
    ledger: Ledger,
    game_id: i64,
    position: i64,
    first: Player,
    second: Player,
)
    requires
        ledger.add_move(game_id, position, first).1 is Accepted,
    ensures
        ({
            let after = ledger.add_move(game_id, position, first).0;
            &&& after.add_move(game_id, position, second).0 == after
            &&& after.add_move(game_id, position, second).1 == MoveOutcome::Rejected(
                if second == first {
                    Verdict::WrongTurn
                } else {
                    Verdict::Taken
                },
            )
            &&& forall|error: ServiceError|
                reports(
                    error,
                    after.add_move(game_id, position, second).1->Rejected_0,
                    after.games[game_id].current_player,
                    position,
                    second,
                ) ==> error is InvalidInput
        }),
{
    let entry = ledger.add_move(game_id, position, first).1->Accepted_0;
    lemma_push(ledger.moves, entry);
}

/// Replaying attempts that are all accepted hands the turn over once per
/// attempt.
proof fn lemma_replay_turns(ledger: Ledger, game_id: i64, requests: Seq<(i64, Player)>)
    requires
        ledger.games.contains_key(game_id),
        ledger.all_accepted(game_id, requests),
    ensures
        ledger.replay(game_id, requests).games.contains_key(game_id),
        ledger.games[game_id].current_player == Player::X ==> ledger.replay(
            game_id,
            requests,
        ).games[game_id].current_player == turn_after(requests.len()),
        ledger.games[game_id].current_player == Player::O ==> ledger.replay(
            game_id,
            requests,
        ).games[game_id].current_player == turn_after(requests.len() + 1),
    decreases requests.len(),
{
    if requests.len() > 0 {
        lemma_replay_turns(ledger, game_id, requests.drop_last());
    }
}

/// Turn alternation: when a game in which it is X's turn receives N moves
/// that are all accepted, it is X's turn afterwards if N is even and O's if
/// N is odd.
pub proof fn turns_alternate(ledger: Ledger, game_id: i64, requests: Seq<(i64, Player)>)
    requires
        ledger.games.contains_key(game_id),
        ledger.games[game_id].current_player == Player::X,
        ledger.all_accepted(game_id, requests),
    ensures
        ledger.replay(game_id, requests).games[game_id].current_player == (if requests.len() % 2
            == 0 {
            Player::X
        } else {
            Player::O
        }),
{
    lemma_replay_turns(ledger, game_id, requests);
}

/// Replaying attempts keeps the invariants.
pub proof fn replay_keeps_invariants(ledger: Ledger, game_id: i64, requests: Seq<(i64, Player)>)
    requires
        ledger.wf(),
    ensures
        ledger.replay(game_id, requests).wf(),
    decreases requests.len(),
{
    if requests.len() > 0 {
        replay_keeps_invariants(ledger, game_id, requests.drop_last());
        add_move_keeps_invariants(
            ledger.replay(game_id, requests.drop_last()),
            game_id,
            requests.last().0,
            requests.last().1,
        );
    }
}

/// What a selection holds: only created games that pass the filter, all of
/// them, and the later created before the earlier.
proof fn lemma_selected(created: Seq<i64>, games: Map<i64, GameRecord>, status: Option<GameStatus>)
    ensures
        selected(created, games, status).len() <= created.len(),
        forall|k: int|
            0 <= k < selected(created, games, status).len() ==> {
                let id = #[trigger] selected(created, games, status)[k];
                created.contains(id) && games.contains_key(id) && passes(games[id], status)
            },
        forall|i: int|
            0 <= i < created.len() && games.contains_key(#[trigger] created[i]) && passes(
                games[created[i]],
                status,
            ) ==> selected(created, games, status).contains(created[i]),
        forall|k1: int, k2: int|
            0 <= k1 < k2 < selected(created, games, status).len() ==> created_after(
                created,
                #[trigger] selected(created, games, status)[k1],
                #[trigger] selected(created, games, status)[k2],
            ),
    decreases created.len(),
{
    if created.len() > 0 {
        let rest = created.drop_last();
        let last = created.last();
        let older = selected(rest, games, status);
        let all = selected(created, games, status);
        lemma_selected(rest, games, status);
        let taken = games.contains_key(last) && passes(games[last], status);
        assert forall|k: int| 0 <= k < all.len() implies {
            let id = #[trigger] all[k];
            created.contains(id) && games.contains_key(id) && passes(games[id], status)
        } by {
            let id = all[k];
            lemma_contains_last(created, id);
            if taken && k > 0 {
                assert(all[k] == older[k - 1]);
            } else if !taken {
                assert(all[k] == older[k]);
            }
        }
        assert forall|i: int|
            0 <= i < created.len() && games.contains_key(#[trigger] created[i]) && passes(
                games[created[i]],
                status,
            ) implies all.contains(created[i]) by {
            if i < created.len() - 1 {
                assert(rest[i] == created[i]);
                let k = choose|k: int| 0 <= k < older.len() && older[k] == rest[i];
                if taken {
                    assert(all[k + 1] == older[k]);
                } else {
                    assert(all[k] == older[k]);
                }
            } else {
                assert(all[0] == last);
            }
        }
        assert forall|k1: int, k2: int| 0 <= k1 < k2 < all.len() implies created_after(
            created,
            #[trigger] all[k1],
            #[trigger] all[k2],
        ) by {
            if taken {
                assert(all[k2] == older[k2 - 1]);
                if k1 == 0 {
                    assert(rest.contains(older[k2 - 1]));
                    let j = choose|j: int| 0 <= j < rest.len() && rest[j] == older[k2 - 1];
                    let i = created.len() - 1;
                    assert(0 <= j < i < created.len() && created[i] == all[k1] && created[j]
                        == all[k2]);
                } else {
                    assert(all[k1] == older[k1 - 1]);
                    assert(created_after(rest, older[k1 - 1], older[k2 - 1]));
                    let (i, j) = choose|i: int, j: int|
                        0 <= j < i < rest.len() && #[trigger] rest[i] == older[k1 - 1]
                            && #[trigger] rest[j] == older[k2 - 1];
                    assert(0 <= j < i < created.len() && created[i] == all[k1] && created[j]
                        == all[k2]);
                }
            } else {
                assert(created_after(rest, older[k1], older[k2]));
                let (i, j) = choose|i: int, j: int|
                    0 <= j < i < rest.len() && #[trigger] rest[i] == older[k1] && #[trigger] rest[j]
                        == older[k2];
                assert(0 <= j < i < created.len() && created[i] == all[k1] && created[j]
                    == all[k2]);
            }
        }
    }
}

/// A listing returns exactly the games that pass its filter, each with the
/// number of its moves, the most recently created first, and never more than
/// its limit: every line is a stored game that passes the filter, with its
/// move count; a line that comes earlier is of a game that was created
/// later; and where no more games pass the filter than the limit allows,
/// every stored game that passes it has a line.
pub proof fn listing_is_faithful(ledger: Ledger, status: Option<GameStatus>, limit: nat)
    requires
        ledger.wf(),
    ensures
        ledger.list_games(status, limit).len() <= limit,
        ledger.list_games(status, limit).len() <= ledger.newest_first(status).len(),
        forall|k: int|
            0 <= k < ledger.list_games(status, limit).len() ==> {
                let line = #[trigger] ledger.list_games(status, limit)[k];
                &&& ledger.games.contains_key(line.game_id)
                &&& passes(ledger.games[line.game_id], status)
                &&& line.move_count == count(ledger.moves, line.game_id)
            },
        forall|k1: int, k2: int|
            0 <= k1 < k2 < ledger.list_games(status, limit).len() ==> created_after(
                ledger.created,
                (#[trigger] ledger.list_games(status, limit)[k1]).game_id,
                (#[trigger] ledger.list_games(status, limit)[k2]).game_id,
            ),
        ledger.newest_first(status).len() <= limit ==> forall|game_id: i64|
            #[trigger] ledger.games.contains_key(game_id) && passes(ledger.games[game_id], status)
                ==> exists|k: int|
                0 <= k < ledger.list_games(status, limit).len() && (#[trigger] ledger.list_games(
                    status,
                    limit,
                )[k]).game_id == game_id,
{
    let all = ledger.newest_first(status);
    let list = ledger.list_games(status, limit);
    lemma_selected(ledger.created, ledger.games, status);
    assert forall|k: int| 0 <= k < list.len() implies (#[trigger] list[k]).game_id == all[k]
        && list[k].move_count == count(ledger.moves, all[k]) by {}
    assert forall|k1: int, k2: int| 0 <= k1 < k2 < list.len() implies created_after(
        ledger.created,
        (#[trigger] list[k1]).game_id,
        (#[trigger] list[k2]).game_id,
    ) by {
        assert(list[k1].game_id == all[k1] && list[k2].game_id == all[k2]);
    }
    if all.len() <= limit {
        assert forall|game_id: i64| #[trigger]
            ledger.games.contains_key(game_id) && passes(
                ledger.games[game_id],
                status,
            ) implies exists|k: int|
            0 <= k < list.len() && (#[trigger] list[k]).game_id == game_id by {
            assert(ledger.created.contains(game_id));
            let i = choose|i: int| 0 <= i < ledger.created.len() && ledger.created[i] == game_id;
            assert(all.contains(ledger.created[i]));
            let k = choose|k: int| 0 <= k < all.len() && all[k] == game_id;
            assert(list[k].game_id == game_id);
        }
    }
}

/// The lines of the games `ids`, in their order, except the game `left_out`:
/// the game `moved` with one move, the others with none.
pub open spec fn lines_without(ids: Seq<i64>, left_out: i64, moved: i64) -> Seq<ListedGame> {
    ids.filter(|id: i64| id != left_out).map_values(
        |id: i64|
            ListedGame {
                game_id: id,
                move_count: if id == moved {
                    1
                } else {
                    0
                },
            },
    )
}

/// The store after three games were created one after the other on an empty
/// store, X moved in the first, and the game `completed` was completed.
pub open spec fn three_games(
    first: i64,
    second: i64,
    third: i64,
    board_size: i64,
    position: i64,
    completed: i64,
    winner: Option<Option<GameWinner>>,
) -> Ledger {
    Ledger::empty().step(Operation::Create { game_id: first, board_size }).step(
        Operation::Create { game_id: second, board_size },
    ).step(Operation::Create { game_id: third, board_size }).step(
        Operation::AddMove { game_id: first, position, player: Player::X },
    ).step(
        Operation::Update {
            game_id: completed,
            updates: GameUpdate { status: Some(GameStatus::Completed), winner },
        },
    )
}

/// After three games were created and one of them was completed, the
/// listing of the games in progress returns exactly the other two, the later
/// created first, each with the number of its moves; the listing of the
/// completed games returns exactly the completed one.
pub proof fn listing_after_three_games(
    first: i64,
    second: i64,
    third: i64,
    board_size: i64,
    position: i64,
    completed: i64,
    winner: Option<Option<GameWinner>>,
)
    requires
        first != second,
        first != third,
        second != third,
        completed == first || completed == second || completed == third,
    ensures
        ({
            let ledger = three_games(
                first,
                second,
                third,
                board_size,
                position,
                completed,
                winner,
            );
            &&& ledger.list_games(Some(GameStatus::InProgress), 100) == lines_without(
                seq![third, second, first],
                completed,
                first,
            )
            &&& ledger.list_games(Some(GameStatus::InProgress), 100).len() == 2
            &&& ledger.list_games(Some(GameStatus::Completed), 100) == seq![
                ListedGame {
                    game_id: completed,
                    move_count: if completed == first {
                        1
                    } else {
                        0
                    },
                },
            ]
        }),
{
    let one = Ledger::empty().step(Operation::Create { game_id: first, board_size });
    let two = one.step(Operation::Create { game_id: second, board_size });
    let three = two.step(Operation::Create { game_id: third, board_size });
    let four = three.step(Operation::AddMove { game_id: first, position, player: Player::X });
    let ledger = four.step(
        Operation::Update {
            game_id: completed,
            updates: GameUpdate { status: Some(GameStatus::Completed), winner },
        },
    );
    let entry = MoveRecord { game_id: first, move_number: 1, position, player: Player::X };
    let created = seq![first, second, third];
    assert(one.created =~= seq![first]);
    assert(two.created =~= seq![first, second]);
    assert(three.created =~= created);
    assert(three.moves =~= Seq::<MoveRecord>::empty());
    assert(three.games.contains_key(first) && three.games.contains_key(second)
        && three.games.contains_key(third));
    assert(four.moves =~= seq![entry]) by {
        assert(!occupied(three.moves, first, position));
        assert(highest(three.moves, first) is None);
    }
    assert(four.created == created);
    assert(ledger.created == created);
    assert(ledger.moves == four.moves);
    assert(ledger.games.contains_key(first) && ledger.games.contains_key(second)
        && ledger.games.contains_key(third));
    assert(count(ledger.moves, first) == 1 && count(ledger.moves, second) == 0 && count(
        ledger.moves,
        third,
    ) == 0) by {
        reveal_with_fuel(count, 3);
        assert(seq![entry].drop_last() =~= Seq::<MoveRecord>::empty());
    }
    assert(created.drop_last() =~= seq![first, second]);
    assert(seq![first, second].drop_last() =~= seq![first]);
    assert(seq![first].drop_last() =~= Seq::<i64>::empty());
    let wanted = Some(GameStatus::InProgress);
    let done = Some(GameStatus::Completed);
    let ids = seq![third, second, first];
    reveal_with_fuel(selected, 4);
    reveal_with_fuel(Seq::filter, 4);
    assert(ids.drop_last() =~= seq![third, second]);
    assert(seq![third, second].drop_last() =~= seq![third]);
    assert(seq![third].drop_last() =~= Seq::<i64>::empty());
    if completed == first {
        assert(ledger.newest_first(wanted) =~= seq![third, second]);
        assert(ids.filter(|id: i64| id != completed) =~= seq![third, second]);
        assert(ledger.newest_first(done) =~= seq![first]);
    } else if completed == second {
        assert(ledger.newest_first(wanted) =~= seq![third, first]);
        assert(ids.filter(|id: i64| id != completed) =~= seq![third, first]);
        assert(ledger.newest_first(done) =~= seq![second]);
    } else {
        assert(ledger.newest_first(wanted) =~= seq![second, first]);
        assert(ids.filter(|id: i64| id != completed) =~= seq![second, first]);
        assert(ledger.newest_first(done) =~= seq![third]);
    }
    assert(ledger.list_games(wanted, 100) =~= lines_without(ids, completed, first));
    assert(ledger.list_games(done, 100) =~= seq![
        ListedGame {
            game_id: completed,
            move_count: if completed == first {
                1
            } else {
                0
            },
        },
    ]);
}

/// Whatever operations the engine has carried out on a store that was
/// empty, the store meets the invariants.
pub proof fn every_store_is_well_formed(history: Seq<Operation>)
    ensures
        Ledger::after(history).wf(),
    decreases history.len(),
{
    if history.len() > 0 {
        let before = Ledger::after(history.drop_last());
        every_store_is_well_formed(history.drop_last());
        match history.last() {
            Operation::Create { game_id, board_size } => {
                if !before.games.contains_key(game_id) {
                    create_keeps_invariants(before, game_id, board_size);
                }
            },
            Operation::Update { game_id, updates } => {
                update_keeps_invariants(before, game_id, updates);
            },
            Operation::Delete { game_id } => {
                delete_cascades(before, game_id);
            },
            Operation::AddMove { game_id, position, player } => {
                add_move_keeps_invariants(before, game_id, position, player);
            },
        }
    }
}

/// Occupancy: whatever operations the engine has carried out, no two stored
/// moves share a game and a position.
pub proof fn occupancy(history: Seq<Operation>, i: int, j: int)
    requires
        0 <= i < j < Ledger::after(history).moves.len(),
    ensures
        ({
            let moves = Ledger::after(history).moves;
            moves[i].game_id == moves[j].game_id ==> moves[i].position != moves[j].position
        }),
{
    every_store_is_well_formed(history);
    let moves = Ledger::after(history).moves;
    if moves[i].game_id == moves[j].game_id {
        positions_are_distinct(moves, i, j);
    }
}

/// Sequence integrity: whatever operations the engine has carried out, the
/// stored moves of every game are numbered 1 to their count without a gap,
/// increasing in the order of insertion, and every move belongs to a stored
/// game.
pub proof fn sequence_integrity(history: Seq<Operation>, game_id: i64)
    ensures
        ({
            let ledger = Ledger::after(history);
            let moves = moves_of(ledger.moves, game_id);
            &&& moves.len() == count(ledger.moves, game_id)
            &&& forall|k: int| 0 <= k < moves.len() ==> (#[trigger] moves[k]).move_number == k + 1
            &&& forall|k: int| 0 <= k < moves.len() ==> (#[trigger] moves[k]).game_id == game_id
            &&& moves.len() > 0 ==> ledger.games.contains_key(game_id)
        }),
{
    every_store_is_well_formed(history);
    let ledger = Ledger::after(history);
    move_numbers_are_gapless(ledger.moves, game_id);
    if !ledger.games.contains_key(game_id) {
        lemma_absent_game(ledger.moves, game_id);
    }
}

/// The turn: whatever operations the engine has carried out, in every
/// stored game it is X's turn after an even number of moves and O's after
/// an odd number.
pub proof fn turn_follows_the_count(history: Seq<Operation>, game_id: i64)
    requires
        Ledger::after(history).games.contains_key(game_id),
    ensures
        Ledger::after(history).games[game_id].current_player == turn_after(
            count(Ledger::after(history).moves, game_id),
        ),
{
    every_store_is_well_formed(history);
}

} // verus!
