//! The board model: a fixed grid of nine optional marks, pure data.

use vstd::prelude::*;

verus! {

broadcast use vstd::array::group_array_axioms;

/// One player's mark. Exactly two values, compared by equality.
#[derive(Clone, Copy, PartialEq, Eq, Debug, Structural)]
pub enum Mark {
    X,
    O,
}

impl Mark {
    /// The mark of the other player.
    pub open spec fn spec_other(self) -> Mark {
        match self {
            Mark::X => Mark::O,
            Mark::O => Mark::X,
        }
    }

    /// Returns the mark of the other player.
    #[verifier::when_used_as_spec(spec_other)]
    pub fn other(self) -> (r: Mark)
        ensures
            r == self.spec_other(),
    {
        match self {
            Mark::X => Mark::O,
            Mark::O => Mark::X,
        }
    }
}

/// Why a board operation was rejected.
#[derive(Clone, Copy, PartialEq, Eq, Debug, Structural)]
pub enum BoardError {
    /// The cell index is not in the range 0..9.
    IndexOutOfRange,
    /// The target cell already holds a mark.
    CellOccupied,
}

/// True iff every cell of the board is empty.
pub open spec fn all_empty(b: Seq<Option<Mark>>) -> bool {
    forall|i: int| 0 <= i < b.len() ==> b[i] is None
}

/// True iff every cell of the board is occupied.
pub open spec fn board_full(b: Seq<Option<Mark>>) -> bool {
    forall|i: int| 0 <= i < b.len() ==> b[i] is Some
}

/// A 3x3 grid of cells in row-major order: the cell at row `r`, column `c`
/// is index `3 * r + c`. A cell is empty or holds one mark.
#[derive(Clone, Copy, PartialEq, Eq, Debug)]
pub struct Board {
    pub cells: [Option<Mark>; 9],
}

impl View for Board {
    type V = Seq<Option<Mark>>;

    open spec fn view(&self) -> Seq<Option<Mark>> {
        self.cells@
    }
}

impl Board {
    /// The board with the mark `m` written into cell `index`, all other
    /// cells unchanged.
    pub open spec fn spec_place(self, index: int, m: Mark) -> Board {
        Board { cells: vstd::array::spec_array_update(self.cells, index, Some(m)) }
    }

    /// Returns the board with all nine cells empty.
    pub fn empty() -> (r: Board)
        ensures
            r@.len() == 9,
            all_empty(r@),
    {
        Board { cells: [None; 9] }
    }

    /// Returns the content of cell `index`, or an error if the index is not
    /// a cell of the grid.
    pub fn cell_at(&self, index: u8) -> (r: Result<Option<Mark>, BoardError>)
        ensures
            index < 9 ==> r == Ok::<Option<Mark>, BoardError>(self@[index as int]),
            index >= 9 ==> r == Err::<Option<Mark>, BoardError>(BoardError::IndexOutOfRange),
    {
        if index < 9 {
            Ok(self.cells[index as usize])
        } else {
            Err(BoardError::IndexOutOfRange)
        }
    }

    /// Returns a board with `m` written into cell `index`. Fails if the
    /// index is out of range or the cell is already occupied; exactly one
    /// cell transitions from empty to occupied, all others are unchanged.
    pub fn place(&self, index: u8, m: Mark) -> (r: Result<Board, BoardError>)
        ensures
            index >= 9 ==> r == Err::<Board, BoardError>(BoardError::IndexOutOfRange),
            index < 9 && self@[index as int] is Some ==> r == Err::<Board, BoardError>(
                BoardError::CellOccupied,
            ),
            index < 9 && self@[index as int] is None ==> r == Ok::<Board, BoardError>(
                self.spec_place(index as int, m),
            ),
            r matches Ok(b2) ==> b2@ == self@.update(index as int, Some(m)),
    {
        if index >= 9 {
            return Err(BoardError::IndexOutOfRange);
        }
        let idx = index as usize;
        if self.cells[idx].is_some() {
            return Err(BoardError::CellOccupied);
        }
        let mut cells = self.cells;
        cells[idx] = Some(m);
        let b2 = Board { cells };
        proof {
            assert(b2.cells@ =~= self.spec_place(index as int, m).cells@);
            assert(b2.cells == self.spec_place(index as int, m).cells);
        }
        Ok(b2)
    }

    /// Returns true iff all nine cells are occupied.
    pub fn is_full(&self) -> (r: bool)
        ensures
            r == board_full(self@),
    {
        let mut i: usize = 0;
        while i < 9
            invariant
                0 <= i <= 9,
                forall|j: int| 0 <= j < i ==> self@[j] is Some,
            decreases 9 - i,
        {
            if self.cells[i].is_none() {
                return false;
            }
            i += 1;
        }
        true
    }
}

} // verus!
