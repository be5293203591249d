//! Laws of the engine, proved once and for all over the spec transitions
//! that the executable entry points are pinned to.

use vstd::prelude::*;
use crate::board::Mark;
use crate::board::all_empty;
use crate::detector::Outcome;
use crate::detector::outcome_of;
use crate::detector::wins;
use crate::game::AccountId;
use crate::game::Caller;
use crate::game::GameState;
use crate::game::JoinError;
use crate::game::PlaceError;
use crate::game::Settlement;
use crate::game::current_seat;
use crate::game::is_initial;
use crate::game::seats_filled;
use crate::game::settlement_total;
use crate::game::spec_join;
use crate::game::spec_place;

verus! {

/// A board with nine empty cells is still running: no mark wins and the
/// board is not full.
pub proof fn lemma_empty_board_running(b: Seq<Option<Mark>>)
    requires
        b.len() == 9,
        all_empty(b),
    ensures
        outcome_of(b) is Running,
{
    assert(b[0] is None);
    assert(b[4] is None);
    assert(b[8] is None);
}

/// Writing one mark into a board gives the other mark no new winning
/// triple: every cell of such a triple would have to hold the other mark
/// already.
pub proof fn lemma_update_no_new_win(b: Seq<Option<Mark>>, i: int, m: Mark, other: Mark)
    requires
        b.len() == 9,
        0 <= i < 9,
        m != other,
        !wins(b, other),
    ensures
        !wins(b.update(i, Some(m)), other),
{
}

/// A successful join leads from a well-formed state to a well-formed state.
pub proof fn lemma_join_preserves_wf(s: GameState, caller: Caller, amount: u64, balance: u64)
    requires
        s.wf(),
        spec_join(s, caller, amount, balance) is Ok,
    ensures
        spec_join(s, caller, amount, balance).unwrap().wf(),
{
    let s2 = spec_join(s, caller, amount, balance).unwrap();
    if s2.active {
        lemma_empty_board_running(s2.board@);
    }
}

/// A successful placement leads from a well-formed state to a well-formed
/// state.
pub proof fn lemma_place_preserves_wf(s: GameState, caller: Caller, index: u8, balance: u64)
    requires
        s.wf(),
        spec_place(s, caller, index, balance) is Ok,
    ensures
        spec_place(s, caller, index, balance).unwrap().0.wf(),
{
}

/// From a well-formed state no placement ever reports an internal fault:
/// the seats of an active game are filled, and one new mark on a board that
/// was still running cannot make both marks win at once.
pub proof fn lemma_place_no_internal_fault(s: GameState, caller: Caller, index: u8, balance: u64)
    requires
        s.wf(),
    ensures
        spec_place(s, caller, index, balance) != Err::<(GameState, Outcome, Settlement),
            PlaceError,
        >(PlaceError::InternalFault),
{
    if s.active && index < 9 && s.board@[index as int] is None {
        let b2 = s.board.spec_place(index as int, s.turn);
        assert(b2@ == s.board@.update(index as int, Some(s.turn)));
        lemma_update_no_new_win(
            s.board@,
            index as int,
            s.turn,
            s.turn.spec_other(),
        );
        assert(!(wins(b2@, Mark::X) && wins(b2@, Mark::O)));
    }
}

/// Seat assignment: from a fresh game, the first valid join fills the X
/// seat without activating the game, the second fills the O seat and
/// activates it, and a third join — whatever its caller, deposit and
/// balance — fails with `GameFull`.
pub proof fn lemma_seat_assignment(
    stake: u64,
    s0: GameState,
    first: AccountId,
    second: AccountId,
    third: Caller,
    amount3: u64,
    balance2: u64,
    balance3: u64,
)
    requires
        is_initial(s0, stake),
        balance2 as int == 2 * (stake as int),
    ensures
        ({
            let r1 = spec_join(s0, Caller::Account(first), stake, stake);
            &&& r1 is Ok
            &&& r1.unwrap().seat_x == Some(first)
            &&& r1.unwrap().seat_o is None
            &&& !r1.unwrap().active
            &&& ({
                let r2 = spec_join(r1.unwrap(), Caller::Account(second), stake, balance2);
                &&& r2 is Ok
                &&& r2.unwrap().seat_x == Some(first)
                &&& r2.unwrap().seat_o == Some(second)
                &&& r2.unwrap().active
                &&& spec_join(r2.unwrap(), third, amount3, balance3) == Err::<
                    GameState,
                    JoinError,
                >(JoinError::GameFull)
            })
        }),
{
}

/// Stake conservation at the door: a join succeeds only when the held
/// balance equals the stake times the seats filled afterwards, and every
/// successful join fills exactly one more seat.
pub proof fn lemma_join_stake_conservation(s: GameState, caller: Caller, amount: u64, balance: u64)
    requires
        s.wf(),
        spec_join(s, caller, amount, balance) is Ok,
    ensures
        amount == s.stake,
        balance as int == (s.stake as int) * seats_filled(spec_join(s, caller, amount, balance).unwrap()),
        seats_filled(spec_join(s, caller, amount, balance).unwrap()) == seats_filled(s) + 1,
        spec_join(s, caller, amount, balance).unwrap().stake == s.stake,
{
    let s2 = spec_join(s, caller, amount, balance).unwrap();
    if s.seat_x is None {
        assert(seats_filled(s2) == 1);
        assert((s.stake as int) * 1 == s.stake as int);
    } else {
        assert(seats_filled(s2) == 2);
        assert((s.stake as int) * 2 == 2 * (s.stake as int));
    }
}

/// Settlement accounting: a win releases the whole held balance to one
/// seat; a draw releases half to each seat, never more than the balance and
/// exactly the balance when it is even; a running game releases nothing. A
/// terminal outcome deactivates the game; a running one keeps it active.
pub proof fn lemma_settlement_accounting(s: GameState, caller: Caller, index: u8, balance: u64)
    requires
        spec_place(s, caller, index, balance) is Ok,
    ensures
        ({
            let (s2, out, pay) = spec_place(s, caller, index, balance).unwrap();
            &&& out matches Outcome::Win(m) ==> settlement_total(pay) == balance as int
                && pay == (Settlement::ToWinner {
                to: if m == Mark::X {
                    s.seat_x.unwrap()
                } else {
                    s.seat_o.unwrap()
                },
                amount: balance,
            })
            &&& out is Draw ==> settlement_total(pay) == 2 * ((balance as int) / 2)
                && settlement_total(pay) <= balance as int
                && (balance as int % 2 == 0 ==> settlement_total(pay) == balance as int)
                && pay == (Settlement::SplitEven {
                to_x: s.seat_x.unwrap(),
                to_o: s.seat_o.unwrap(),
                each: balance / 2,
            })
            &&& out is Running ==> settlement_total(pay) == 0
            &&& s2.active <==> out is Running
        }),
{
}

/// Turn alternation: a placement that keeps the game running flips the turn
/// to the other mark, so the turn never repeats across consecutive valid
/// placements; and the successful caller is always the seat whose turn it
/// was, so placements alternate strictly between the two seats.
pub proof fn lemma_turn_alternation(s: GameState, caller: Caller, index: u8, balance: u64)
    requires
        spec_place(s, caller, index, balance) is Ok,
    ensures
        caller == Caller::Account(current_seat(s)),
        ({
            let (s2, out, pay) = spec_place(s, caller, index, balance).unwrap();
            &&& out is Running ==> s2.turn == s.turn.spec_other() && s2.turn != s.turn
            &&& !(out is Running) ==> s2.turn == Mark::X
        }),
{
}

/// No double occupancy: a successful placement fills exactly one cell,
/// which was empty and now holds the mover's mark, and leaves every other
/// cell unchanged; an occupied cell can never be placed into again, and
/// once the game is active every placement into an occupied cell by the
/// seat whose turn it is fails with exactly `CellOccupied`. Occupied cells
/// are never cleared or overwritten.
pub proof fn lemma_no_double_occupancy(
    s: GameState,
    caller: Caller,
    index: u8,
    balance: u64,
    caller2: Caller,
    balance2: u64,
)
    requires
        spec_place(s, caller, index, balance) is Ok,
    ensures
        ({
            let s2 = spec_place(s, caller, index, balance).unwrap().0;
            &&& s.board@[index as int] is None
            &&& s2.board@[index as int] == Some(s.turn)
            &&& forall|j: int| 0 <= j < 9 && j != index ==> s2.board@[j] == s.board@[j]
            &&& spec_place(s2, caller2, index, balance2) is Err
            &&& s2.active && caller2 == Caller::Account(current_seat(s2)) ==> spec_place(
                s2,
                caller2,
                index,
                balance2,
            ) == Err::<(GameState, Outcome, Settlement), PlaceError>(PlaceError::CellOccupied)
            &&& forall|j: int|
                0 <= j < 9 && s.board@[j] is Some ==> s2.board@[j] == s.board@[j]
        }),
{
}

} // verus!
