//! The win detector: a pure map from a board to its outcome.

use vstd::prelude::*;
use crate::board::Board;
use crate::board::Mark;
use crate::board::board_full;

verus! {

/// The terminal-or-not classification of a board: a win for one mark, a
/// draw, or a game still running. Derived from the board, never stored.
#[derive(Clone, Copy, PartialEq, Eq, Debug, Structural)]
pub enum Outcome {
    Win(Mark),
    Draw,
    Running,
}

/// An internal fault of the detector: the board satisfies winning triples of
/// both marks at once, which no sequence of valid moves can produce.
#[derive(Clone, Copy, PartialEq, Eq, Debug, Structural)]
pub enum BoardFault {
    MultipleWinners,
}

/// True iff cells `i`, `j` and `k` all hold the mark `m`.
pub open spec fn triple_win(b: Seq<Option<Mark>>, m: Mark, i: int, j: int, k: int) -> bool {
    &&& b[i] == Some(m)
    &&& b[j] == Some(m)
    &&& b[k] == Some(m)
}

/// True iff the mark `m` holds one of the eight winning triples: three rows,
/// three columns, two diagonals.
pub open spec fn wins(b: Seq<Option<Mark>>, m: Mark) -> bool {
    ||| triple_win(b, m, 0, 1, 2)
    ||| triple_win(b, m, 3, 4, 5)
    ||| triple_win(b, m, 6, 7, 8)
    ||| triple_win(b, m, 0, 3, 6)
    ||| triple_win(b, m, 1, 4, 7)
    ||| triple_win(b, m, 2, 5, 8)
    ||| triple_win(b, m, 0, 4, 8)
    ||| triple_win(b, m, 2, 4, 6)
}

/// The outcome of a board: a win if one mark holds a winning triple, a draw
/// if the board is full with no winning triple, else still running.
/// Meaningful only when not both marks win at once; `check_winner` rejects
/// that case instead of picking a side.
pub open spec fn outcome_of(b: Seq<Option<Mark>>) -> Outcome {
    if wins(b, Mark::X) {
        Outcome::Win(Mark::X)
    } else if wins(b, Mark::O) {
        Outcome::Win(Mark::O)
    } else if board_full(b) {
        Outcome::Draw
    } else {
        Outcome::Running
    }
}

/// Returns true iff the given cell holds exactly the mark `m`.
fn cell_is(c: Option<Mark>, m: Mark) -> (r: bool)
    ensures
        r == (c == Some(m)),
{
    match c {
        Some(x) => x == m,
        None => false,
    }
}

/// Returns true iff cells `i`, `j` and `k` all hold the mark `m`.
fn has_triple(b: &Board, m: Mark, i: usize, j: usize, k: usize) -> (r: bool)
    requires
        i < 9,
        j < 9,
        k < 9,
    ensures
        r == triple_win(b@, m, i as int, j as int, k as int),
{
    cell_is(b.cells[i], m) && cell_is(b.cells[j], m) && cell_is(b.cells[k], m)
}

/// Returns true iff the mark `m` holds one of the eight winning triples.
pub fn has_win(b: &Board, m: Mark) -> (r: bool)
    ensures
        r == wins(b@, m),
{
    has_triple(b, m, 0, 1, 2) || has_triple(b, m, 3, 4, 5) || has_triple(b, m, 6, 7, 8)
        || has_triple(b, m, 0, 3, 6) || has_triple(b, m, 1, 4, 7) || has_triple(b, m, 2, 5, 8)
        || has_triple(b, m, 0, 4, 8) || has_triple(b, m, 2, 4, 6)
}

/// Maps a board to its outcome, checking all eight winning triples. A board
/// on which both marks hold a winning triple is an impossible state under
/// the game's rules; it is reported as a fault, never resolved by picking
/// one side.
pub fn check_winner(b: &Board) -> (r: Result<Outcome, BoardFault>)
    ensures
        r is Ok <==> !(wins(b@, Mark::X) && wins(b@, Mark::O)),
        r is Ok ==> r == Ok::<Outcome, BoardFault>(outcome_of(b@)),
        r is Err ==> r == Err::<Outcome, BoardFault>(BoardFault::MultipleWinners),
{
    let x_wins = has_win(b, Mark::X);
    let o_wins = has_win(b, Mark::O);
    if x_wins && o_wins {
        Err(BoardFault::MultipleWinners)
    } else if x_wins {
        Ok(Outcome::Win(Mark::X))
    } else if o_wins {
        Ok(Outcome::Win(Mark::O))
    } else if b.is_full() {
        Ok(Outcome::Draw)
    } else {
        Ok(Outcome::Running)
    }
}

} // verus!
