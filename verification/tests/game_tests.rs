use tic_tac_toe::board::Board;
use tic_tac_toe::board::Mark;
use tic_tac_toe::detector::Outcome;
use tic_tac_toe::game::AccountId;
use tic_tac_toe::game::Caller;
use tic_tac_toe::game::GameState;
use tic_tac_toe::game::JoinError;
use tic_tac_toe::game::PlaceError;
use tic_tac_toe::game::Settlement;

fn acct(n: u64) -> AccountId {
    AccountId { w0: n, w1: 0, w2: 0, w3: 0 }
}

fn active_game(stake: u64) -> (GameState, AccountId, AccountId) {
    let a = acct(1);
    let b = acct(2);
    let mut g = GameState::init(stake);
    g.join(Caller::Account(a), stake, stake).unwrap();
    g.join(Caller::Account(b), stake, 2 * stake).unwrap();
    (g, a, b)
}

#[test]
fn init_builds_fresh_state() {
    let g = GameState::init(10);
    assert_eq!(g.seat_x, None);
    assert_eq!(g.seat_o, None);
    assert_eq!(g.stake, 10);
    assert!(!g.active);
    assert_eq!(g.turn, Mark::X);
    assert_eq!(g.board, Board::empty());
}

#[test]
fn first_join_takes_seat_x_second_activates() {
    let a = acct(1);
    let b = acct(2);
    let mut g = GameState::init(10);
    assert_eq!(g.join(Caller::Account(a), 10, 10), Ok(()));
    assert_eq!(g.seat_x, Some(a));
    assert_eq!(g.seat_o, None);
    assert!(!g.active);
    assert_eq!(g.join(Caller::Account(b), 10, 20), Ok(()));
    assert_eq!(g.seat_x, Some(a));
    assert_eq!(g.seat_o, Some(b));
    assert!(g.active);
}

#[test]
fn third_join_fails_with_game_full() {
    let (mut g, _, _) = active_game(10);
    let before = g;
    assert_eq!(g.join(Caller::Account(acct(3)), 10, 30), Err(JoinError::GameFull));
    assert_eq!(g, before);
}

#[test]
fn join_rejects_wrong_stake() {
    let mut g = GameState::init(10);
    let before = g;
    assert_eq!(g.join(Caller::Account(acct(1)), 9, 9), Err(JoinError::WrongStake));
    assert_eq!(g, before);
    assert_eq!(g.join(Caller::Account(acct(1)), 11, 11), Err(JoinError::WrongStake));
    assert_eq!(g, before);
}

#[test]
fn join_rejects_contract_caller() {
    let mut g = GameState::init(10);
    let before = g;
    assert_eq!(g.join(Caller::Contract, 10, 10), Err(JoinError::InvalidParticipant));
    assert_eq!(g, before);
}

#[test]
fn join_rejects_balance_mismatch() {
    let mut g = GameState::init(10);
    let before = g;
    assert_eq!(g.join(Caller::Account(acct(1)), 10, 25), Err(JoinError::BalanceMismatch));
    assert_eq!(g, before);
    g.join(Caller::Account(acct(1)), 10, 10).unwrap();
    let before2 = g;
    assert_eq!(g.join(Caller::Account(acct(2)), 10, 21), Err(JoinError::BalanceMismatch));
    assert_eq!(g, before2);
}

#[test]
fn join_on_active_game_with_free_seat_reports_already_active() {
    // A state with the O seat free yet already active is not reachable
    // through the engine; built by hand it is rejected before any seat
    // is touched.
    let mut g = GameState::init(10);
    g.seat_x = Some(acct(1));
    g.active = true;
    let before = g;
    assert_eq!(g.join(Caller::Account(acct(2)), 10, 20), Err(JoinError::GameAlreadyActive));
    assert_eq!(g, before);
}

#[test]
fn held_balance_matches_seats_filled() {
    // N valid joins are accepted exactly when the held balance is N times
    // the stake.
    let mut g = GameState::init(7);
    assert_eq!(g.join(Caller::Account(acct(1)), 7, 7), Ok(()));
    assert_eq!(g.join(Caller::Account(acct(2)), 7, 14), Ok(()));
}

#[test]
fn place_requires_active_game() {
    let mut g = GameState::init(10);
    let before = g;
    assert_eq!(g.place(Caller::Account(acct(1)), 0, 0), Err(PlaceError::GameNotActive));
    assert_eq!(g, before);
}

#[test]
fn place_rejects_caller_out_of_turn() {
    let (mut g, a, b) = active_game(10);
    let before = g;
    assert_eq!(g.place(Caller::Account(b), 0, 20), Err(PlaceError::NotYourTurn));
    assert_eq!(g.place(Caller::Contract, 0, 20), Err(PlaceError::NotYourTurn));
    assert_eq!(g, before);
    g.place(Caller::Account(a), 0, 20).unwrap();
    let before2 = g;
    assert_eq!(g.place(Caller::Account(a), 1, 20), Err(PlaceError::NotYourTurn));
    assert_eq!(g, before2);
}

#[test]
fn place_rejects_index_out_of_range() {
    let (mut g, a, _) = active_game(10);
    let before = g;
    assert_eq!(g.place(Caller::Account(a), 9, 20), Err(PlaceError::IndexOutOfRange));
    assert_eq!(g.place(Caller::Account(a), 200, 20), Err(PlaceError::IndexOutOfRange));
    assert_eq!(g, before);
}

#[test]
fn occupied_cell_cannot_be_placed_into_again() {
    let (mut g, a, b) = active_game(10);
    let (board, out, pay) = g.place(Caller::Account(a), 4, 20).unwrap();
    assert_eq!(board.cell_at(4), Ok(Some(Mark::X)));
    assert_eq!(out, Outcome::Running);
    assert_eq!(pay, Settlement::NoPayout);
    let before = g;
    assert_eq!(g.place(Caller::Account(b), 4, 20), Err(PlaceError::CellOccupied));
    assert_eq!(g, before);
}

#[test]
fn turn_alternates_on_every_valid_placement() {
    let (mut g, a, b) = active_game(10);
    assert_eq!(g.turn, Mark::X);
    g.place(Caller::Account(a), 0, 20).unwrap();
    assert_eq!(g.turn, Mark::O);
    g.place(Caller::Account(b), 3, 20).unwrap();
    assert_eq!(g.turn, Mark::X);
    g.place(Caller::Account(a), 1, 20).unwrap();
    assert_eq!(g.turn, Mark::O);
}

#[test]
fn place_on_corrupt_state_reports_internal_fault() {
    let mut g = GameState::init(10);
    g.active = true;
    let before = g;
    assert_eq!(g.place(Caller::Account(acct(1)), 0, 0), Err(PlaceError::InternalFault));
    assert_eq!(g, before);
}

#[test]
fn full_game_to_a_win_pays_the_winner_everything() {
    // Stake 10: A and B each deposit 10; A completes the top row and the
    // whole held balance of 20 goes to A, the game deactivates, the turn
    // resets to X, and the held balance drops to 0.
    let a = acct(100);
    let b = acct(200);
    let mut g = GameState::init(10);
    let mut held: u64 = 0;
    held += 10;
    assert_eq!(g.join(Caller::Account(a), 10, held), Ok(()));
    held += 10;
    assert_eq!(g.join(Caller::Account(b), 10, held), Ok(()));
    assert!(g.active);
    assert_eq!(held, 20);
    g.place(Caller::Account(a), 0, held).unwrap();
    g.place(Caller::Account(b), 3, held).unwrap();
    g.place(Caller::Account(a), 1, held).unwrap();
    g.place(Caller::Account(b), 4, held).unwrap();
    let (board, out, pay) = g.place(Caller::Account(a), 2, held).unwrap();
    assert_eq!(out, Outcome::Win(Mark::X));
    assert_eq!(board.cell_at(0), Ok(Some(Mark::X)));
    assert_eq!(board.cell_at(1), Ok(Some(Mark::X)));
    assert_eq!(board.cell_at(2), Ok(Some(Mark::X)));
    assert_eq!(pay, Settlement::ToWinner { to: a, amount: 20 });
    held -= 20;
    assert_eq!(held, 0);
    assert!(!g.active);
    assert_eq!(g.turn, Mark::X);
    let before = g;
    assert_eq!(g.place(Caller::Account(b), 5, held), Err(PlaceError::GameNotActive));
    assert_eq!(g.join(Caller::Account(acct(3)), 10, 10), Err(JoinError::GameFull));
    assert_eq!(g, before);
}

#[test]
fn win_for_o_pays_seat_o() {
    let (mut g, a, b) = active_game(10);
    g.place(Caller::Account(a), 0, 20).unwrap();
    g.place(Caller::Account(b), 3, 20).unwrap();
    g.place(Caller::Account(a), 1, 20).unwrap();
    g.place(Caller::Account(b), 4, 20).unwrap();
    g.place(Caller::Account(a), 8, 20).unwrap();
    let (_, out, pay) = g.place(Caller::Account(b), 5, 20).unwrap();
    assert_eq!(out, Outcome::Win(Mark::O));
    assert_eq!(pay, Settlement::ToWinner { to: b, amount: 20 });
    assert!(!g.active);
    assert_eq!(g.turn, Mark::X);
}

#[test]
fn draw_splits_the_held_balance_evenly() {
    // X: cells 0, 2, 3, 7, 8; O: cells 1, 4, 5, 6 — full board, no triple.
    let (mut g, a, b) = active_game(10);
    g.place(Caller::Account(a), 0, 20).unwrap();
    g.place(Caller::Account(b), 1, 20).unwrap();
    g.place(Caller::Account(a), 2, 20).unwrap();
    g.place(Caller::Account(b), 4, 20).unwrap();
    g.place(Caller::Account(a), 3, 20).unwrap();
    g.place(Caller::Account(b), 5, 20).unwrap();
    g.place(Caller::Account(a), 7, 20).unwrap();
    g.place(Caller::Account(b), 6, 20).unwrap();
    let (board, out, pay) = g.place(Caller::Account(a), 8, 20).unwrap();
    assert!(board.is_full());
    assert_eq!(out, Outcome::Draw);
    assert_eq!(pay, Settlement::SplitEven { to_x: a, to_o: b, each: 10 });
    assert!(!g.active);
    assert_eq!(g.turn, Mark::X);
}

#[test]
fn odd_balance_draw_leaves_the_remainder_unpaid() {
    // The two halves of an odd held balance sum to one unit less than the
    // balance; the remainder stays with the host.
    let (mut g, a, b) = active_game(10);
    g.place(Caller::Account(a), 0, 21).unwrap();
    g.place(Caller::Account(b), 1, 21).unwrap();
    g.place(Caller::Account(a), 2, 21).unwrap();
    g.place(Caller::Account(b), 4, 21).unwrap();
    g.place(Caller::Account(a), 3, 21).unwrap();
    g.place(Caller::Account(b), 5, 21).unwrap();
    g.place(Caller::Account(a), 7, 21).unwrap();
    g.place(Caller::Account(b), 6, 21).unwrap();
    let (_, out, pay) = g.place(Caller::Account(a), 8, 21).unwrap();
    assert_eq!(out, Outcome::Draw);
    assert_eq!(pay, Settlement::SplitEven { to_x: a, to_o: b, each: 10 });
}

#[test]
fn same_account_may_hold_both_seats() {
    let a = acct(1);
    let mut g = GameState::init(10);
    assert_eq!(g.join(Caller::Account(a), 10, 10), Ok(()));
    assert_eq!(g.join(Caller::Account(a), 10, 20), Ok(()));
    assert_eq!(g.seat_x, Some(a));
    assert_eq!(g.seat_o, Some(a));
    assert!(g.active);
}
