//! The game state machine: join protocol, move protocol, and settlement.

use vstd::prelude::*;
use crate::board::Board;
use crate::board::BoardError;
use crate::board::Mark;
use crate::board::all_empty;
use crate::detector::Outcome;
use crate::detector::check_winner;
use crate::detector::outcome_of;
use crate::detector::wins;

verus! {

/// An account identity, held as plain words. The hosting ledger's 32-byte
/// account address converts to and from the four words exactly; this engine
/// only ever compares identities for equality.
#[derive(Clone, Copy, PartialEq, Eq, Hash, Debug, Structural)]
pub struct AccountId {
    pub w0: u64,
    pub w1: u64,
    pub w2: u64,
    pub w3: u64,
}

/// The identity behind a call: a single account, or an aggregate (contract)
/// identity, which is never admitted as a participant.
#[derive(Clone, Copy, PartialEq, Eq, Debug, Structural)]
pub enum Caller {
    Account(AccountId),
    Contract,
}

/// Why a join call was rejected. A rejected join leaves the state unchanged.
#[derive(Clone, Copy, PartialEq, Eq, Debug, Structural)]
pub enum JoinError {
    /// Both seats are already taken.
    GameFull,
    /// The game is already running.
    GameAlreadyActive,
    /// The deposited amount is not exactly the stake.
    WrongStake,
    /// The caller is an aggregate identity, not a single account.
    InvalidParticipant,
    /// The held balance does not equal the stake times the seats then filled.
    BalanceMismatch,
}

/// Why a placement call was rejected. A rejected placement leaves the state
/// unchanged.
#[derive(Clone, Copy, PartialEq, Eq, Debug, Structural)]
pub enum PlaceError {
    /// The game is not running.
    GameNotActive,
    /// The caller does not hold the seat whose turn it is.
    NotYourTurn,
    /// The cell index is not in the range 0..9.
    IndexOutOfRange,
    /// The target cell already holds a mark.
    CellOccupied,
    /// An invariant of the engine does not hold of the stored state: a seat
    /// is missing from an active game, or both marks win at once. Never
    /// returned from a well-formed state.
    InternalFault,
}

/// The funds a finished placement releases. The host performs the transfers
/// after the state change is final; a running game releases nothing.
#[derive(Clone, Copy, PartialEq, Eq, Debug, Structural)]
pub enum Settlement {
    /// The game goes on: no funds move.
    NoPayout,
    /// The whole held balance goes to the winner's seat.
    ToWinner { to: AccountId, amount: u64 },
    /// A draw: each seat receives half of the held balance, rounded down.
    /// An odd balance leaves one indivisible unit with the host.
    SplitEven { to_x: AccountId, to_o: AccountId, each: u64 },
}

/// The sum a settlement pays out.
pub open spec fn settlement_total(p: Settlement) -> int {
    match p {
        Settlement::NoPayout => 0,
        Settlement::ToWinner { to, amount } => amount as int,
        Settlement::SplitEven { to_x, to_o, each } => 2 * (each as int),
    }
}

/// The root entity of one game: seats, board, stake, active flag, and whose
/// turn it is. Created once per game; the stake never changes afterwards.
#[derive(Clone, Copy, PartialEq, Eq, Debug)]
pub struct GameState {
    /// The participant holding the X seat, once joined.
    pub seat_x: Option<AccountId>,
    /// The participant holding the O seat, once joined.
    pub seat_o: Option<AccountId>,
    /// The grid of marks placed so far.
    pub board: Board,
    /// The fixed per-player buy-in, set at creation.
    pub stake: u64,
    /// True only while both seats are filled and no terminal outcome has
    /// been reached.
    pub active: bool,
    /// The mark that moves next.
    pub turn: Mark,
}

/// True iff `s` is the state a game starts in with the given stake: both
/// seats empty, an empty board, inactive, X to move first.
pub open spec fn is_initial(s: GameState, stake: u64) -> bool {
    &&& s.seat_x is None
    &&& s.seat_o is None
    &&& all_empty(s.board@)
    &&& s.stake == stake
    &&& !s.active
    &&& s.turn == Mark::X
}

/// The number of seats filled, 0 to 2.
pub open spec fn seats_filled(s: GameState) -> int {
    (if s.seat_x is Some { 1int } else { 0int }) + (if s.seat_o is Some { 1int } else { 0int })
}

/// The account whose turn it is: the X seat when X moves, the O seat when O
/// moves. Meaningful only when both seats are filled.
pub open spec fn current_seat(s: GameState) -> AccountId {
    if s.turn == Mark::X {
        s.seat_x.unwrap()
    } else {
        s.seat_o.unwrap()
    }
}

/// What a join call does: the new state on success, or the exact error. The
/// held `balance` is what the host reports after this call's deposit of
/// `amount` was taken in; a valid first join holds exactly the stake, a
/// valid second join exactly twice the stake.
pub open spec fn spec_join(s: GameState, caller: Caller, amount: u64, balance: u64) -> Result<
    GameState,
    JoinError,
> {
    if s.seat_x is Some && s.seat_o is Some {
        Err(JoinError::GameFull)
    } else if s.active {
        Err(JoinError::GameAlreadyActive)
    } else if amount != s.stake {
        Err(JoinError::WrongStake)
    } else if !(caller is Account) {
        Err(JoinError::InvalidParticipant)
    } else if s.seat_x is None {
        if balance != s.stake {
            Err(JoinError::BalanceMismatch)
        } else {
            Ok(GameState { seat_x: Some(caller->0), ..s })
        }
    } else {
        if balance as int != 2 * (s.stake as int) {
            Err(JoinError::BalanceMismatch)
        } else {
            Ok(GameState { seat_o: Some(caller->0), active: true, ..s })
        }
    }
}

/// What a placement call does: the new state, the outcome of the updated
/// board, and the settlement it releases on success; or the exact error.
/// The held `balance` is what the host reports for this game.
pub open spec fn spec_place(s: GameState, caller: Caller, index: u8, balance: u64) -> Result<
    (GameState, Outcome, Settlement),
    PlaceError,
> {
    if !s.active {
        Err(PlaceError::GameNotActive)
    } else if s.seat_x is None || s.seat_o is None {
        Err(PlaceError::InternalFault)
    } else if caller != Caller::Account(current_seat(s)) {
        Err(PlaceError::NotYourTurn)
    } else if index >= 9 {
        Err(PlaceError::IndexOutOfRange)
    } else if s.board@[index as int] is Some {
        Err(PlaceError::CellOccupied)
    } else {
        let b2 = s.board.spec_place(index as int, s.turn);
        if wins(b2@, Mark::X) && wins(b2@, Mark::O) {
            Err(PlaceError::InternalFault)
        } else {
            let out = outcome_of(b2@);
            let s2 = GameState {
                board: b2,
                active: out is Running,
                turn: if out is Running {
                    s.turn.spec_other()
                } else {
                    Mark::X
                },
                ..s
            };
            Ok((s2, out, spec_settlement(out, s.seat_x.unwrap(), s.seat_o.unwrap(), balance)))
        }
    }
}

/// The settlement an outcome releases from the held balance: everything to
/// the winner's seat, half to each seat on a draw, nothing while running.
pub open spec fn spec_settlement(
    out: Outcome,
    seat_x: AccountId,
    seat_o: AccountId,
    balance: u64,
) -> Settlement {
    match out {
        Outcome::Win(m) => Settlement::ToWinner {
            to: if m == Mark::X {
                seat_x
            } else {
                seat_o
            },
            amount: balance,
        },
        Outcome::Draw => Settlement::SplitEven { to_x: seat_x, to_o: seat_o, each: balance / 2 },
        Outcome::Running => Settlement::NoPayout,
    }
}

/// Computes the settlement an outcome releases.
fn settle(out: Outcome, seat_x: AccountId, seat_o: AccountId, balance: u64) -> (r: Settlement)
    ensures
        r == spec_settlement(out, seat_x, seat_o, balance),
{
    match out {
        Outcome::Win(Mark::X) => Settlement::ToWinner { to: seat_x, amount: balance },
        Outcome::Win(Mark::O) => Settlement::ToWinner { to: seat_o, amount: balance },
        Outcome::Draw => Settlement::SplitEven { to_x: seat_x, to_o: seat_o, each: balance / 2 },
        Outcome::Running => Settlement::NoPayout,
    }
}

impl GameState {
    /// Well-formedness: every state a game can reach satisfies this. An
    /// active game has both seats filled and a board that is still running;
    /// the O seat is never filled before the X seat; before both seats are
    /// filled the board is untouched.
    pub open spec fn wf(self) -> bool {
        &&& self.active ==> self.seat_x is Some && self.seat_o is Some
        &&& self.seat_o is Some ==> self.seat_x is Some
        &&& self.active ==> outcome_of(self.board@) is Running
        &&& (self.seat_x is None || self.seat_o is None) ==> all_empty(self.board@)
    }

    /// Constructs the state of a fresh game with the given stake: both seats
    /// empty, an empty board, inactive, X to move first.
    pub fn init(stake: u64) -> (r: GameState)
        ensures
            is_initial(r, stake),
            r.wf(),
    {
        GameState {
            seat_x: None,
            seat_o: None,
            board: Board::empty(),
            stake,
            active: false,
            turn: Mark::X,
        }
    }

    /// Admits one depositor to the first free seat, exactly as `spec_join`
    /// says: the first valid join fills the X seat, the second fills the O
    /// seat and activates the game, and each requires the deposit to equal
    /// the stake and the held balance to match the seats filled. A rejected
    /// call changes nothing.
    pub fn join(&mut self, caller: Caller, amount: u64, balance: u64) -> (r: Result<(), JoinError>)
        ensures
            spec_join(*old(self), caller, amount, balance) matches Ok(s2) ==> r is Ok
                && *final(self) == s2,
            spec_join(*old(self), caller, amount, balance) matches Err(e) ==> r == Err::<
                (),
                JoinError,
            >(e),
            r is Err ==> *final(self) == *old(self),
    {
        if self.seat_x.is_some() && self.seat_o.is_some() {
            return Err(JoinError::GameFull);
        }
        if self.active {
            return Err(JoinError::GameAlreadyActive);
        }
        if amount != self.stake {
            return Err(JoinError::WrongStake);
        }
        let account = match caller {
            Caller::Account(a) => a,
            Caller::Contract => {
                return Err(JoinError::InvalidParticipant);
            },
        };
        if self.seat_x.is_none() {
            if balance != self.stake {
                return Err(JoinError::BalanceMismatch);
            }
            self.seat_x = Some(account);
            Ok(())
        } else {
            if !(self.stake <= u64::MAX / 2 && balance == 2 * self.stake) {
                return Err(JoinError::BalanceMismatch);
            }
            self.seat_o = Some(account);
            self.active = true;
            Ok(())
        }
    }

    /// Validates and applies one placement, exactly as `spec_place` says:
    /// the caller must hold the seat whose turn it is, the cell must exist
    /// and be empty. On success the mark is placed, the turn flips, and the
    /// outcome of the updated board decides the settlement; a terminal
    /// outcome deactivates the game and resets the turn to X. Returns the
    /// updated board, the outcome, and the settlement the host must pay
    /// out. A rejected call changes nothing.
    pub fn place(&mut self, caller: Caller, index: u8, balance: u64) -> (r: Result<
        (Board, Outcome, Settlement),
        PlaceError,
    >)
        ensures
            spec_place(*old(self), caller, index, balance) matches Ok(t) ==> (r matches Ok(rr)
                && rr.0 == t.0.board && rr.1 == t.1 && rr.2 == t.2 && *final(self) == t.0),
            spec_place(*old(self), caller, index, balance) matches Err(e) ==> r == Err::<
                (Board, Outcome, Settlement),
                PlaceError,
            >(e),
            r is Err ==> *final(self) == *old(self),
    {
        if !self.active {
            return Err(PlaceError::GameNotActive);
        }
        let (seat_x, seat_o) = match (self.seat_x, self.seat_o) {
            (Some(x), Some(o)) => (x, o),
            _ => {
                return Err(PlaceError::InternalFault);
            },
        };
        let mover = match self.turn {
            Mark::X => seat_x,
            Mark::O => seat_o,
        };
        if caller != Caller::Account(mover) {
            return Err(PlaceError::NotYourTurn);
        }
        let b2 = match self.board.place(index, self.turn) {
            Err(BoardError::IndexOutOfRange) => {
                return Err(PlaceError::IndexOutOfRange);
            },
            Err(BoardError::CellOccupied) => {
                return Err(PlaceError::CellOccupied);
            },
            Ok(b2) => b2,
        };
        let out = match check_winner(&b2) {
            Err(_) => {
                return Err(PlaceError::InternalFault);
            },
            Ok(out) => out,
        };
        self.board = b2;
        match out {
            Outcome::Running => {
                self.turn = self.turn.other();
            },
            _ => {
                self.turn = Mark::X;
                self.active = false;
            },
        }
        Ok((b2, out, settle(out, seat_x, seat_o, balance)))
    }
}

} // verus!
