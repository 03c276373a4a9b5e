//! The game engine: a 3x3 board, whose turn it is, and the winning line once
//! there is one.
//!
//! Cells are numbered 0 to 8, row by row. The eight winning lines are numbered
//! 0 to 7: the rows from the top (0, 1, 2), the columns from the left
//! (3, 4, 5), the diagonal from the top left (6) and the diagonal from the top
//! right (7).

use std::ops::Deref;
use vstd::prelude::*;

verus! {

/// What a cell holds: one of the two players' marks, or nothing.
#[derive(Clone, Copy, Debug, PartialEq, Eq, Structural)]
pub enum State {
    X,
    O,
    N,
}

impl State {
    /// The other player's mark; an empty cell has no other side.
    pub open spec fn inverted(self) -> State {
        match self {
            State::X => State::O,
            State::O => State::X,
            State::N => State::N,
        }
    }

    /// The mark that a coin picks: `X` for heads, `O` for tails.
    pub open spec fn picked(heads: bool) -> State {
        if heads {
            State::X
        } else {
            State::O
        }
    }

    /// The mark that a coin picks: `X` for heads, `O` for tails.
    pub fn pick(heads: bool) -> (r: State)
        ensures
            r == State::picked(heads),
    {
        if heads {
            State::X
        } else {
            State::O
        }
    }

    /// Hands the turn to the other player.
    pub fn invert(&mut self)
        ensures
            *final(self) == old(self).inverted(),
    {
        *self = match *self {
            State::X => State::O,
            State::O => State::X,
            State::N => State::N,
        }
    }
}

impl Default for State {
    fn default() -> (s: State)
        ensures
            s == State::N,
    {
        State::N
    }
}

/// The cell at position `k` (0, 1 or 2) of a winning line.
pub open spec fn line_cell(line: int, k: int) -> int {
    if line < 3 {
        3 * line + k
    } else if line < 6 {
        (line - 3) + 3 * k
    } else if line == 6 {
        4 * k
    } else {
        2 + 2 * k
    }
}

/// Whether the cell `idx` lies on `line`.
pub open spec fn on_line(idx: int, line: int) -> bool {
    line_cell(line, 0) == idx || line_cell(line, 1) == idx || line_cell(line, 2) == idx
}

/// Three in a row: the three cells of `line` hold the same mark.
pub open spec fn line_won(cells: Seq<State>, line: int) -> bool {
    &&& 0 <= line < 8
    &&& cells[line_cell(line, 0)] != State::N
    &&& cells[line_cell(line, 0)] == cells[line_cell(line, 1)]
    &&& cells[line_cell(line, 1)] == cells[line_cell(line, 2)]
}

/// The line that a mark just placed at `idx` is found to complete, if any.
///
/// Only lines through `idx` are looked at, and the first hit counts: the row
/// of `idx`, then its column, then its diagonals. In the centre that is the
/// diagonal from the top right before the one from the top left.
pub open spec fn win_at(cells: Seq<State>, idx: int) -> Option<u8> {
    let row = idx / 3;
    let col = idx % 3;
    if row < 3 && line_won(cells, row) {
        Some(row as u8)
    } else if line_won(cells, 3 + col) {
        Some((3 + col) as u8)
    } else if idx == 4 {
        if line_won(cells, 7) {
            Some(7u8)
        } else if line_won(cells, 6) {
            Some(6u8)
        } else {
            None
        }
    } else if idx % 4 == 0 {
        if line_won(cells, 6) {
            Some(6u8)
        } else {
            None
        }
    } else if idx % 2 == 0 {
        if line_won(cells, 7) {
            Some(7u8)
        } else {
            None
        }
    } else {
        None
    }
}

/// The winning line at `idx` together with the mark that fills it.
pub open spec fn win_with_mark(cells: Seq<State>, idx: int) -> Option<(State, u8)> {
    match win_at(cells, idx) {
        Some(line) => Some((cells[line_cell(line as int, 0)], line)),
        None => None,
    }
}

/// A game as the contracts see it.
#[verifier::ext_equal]
pub struct Game {
    /// The nine cells, row by row.
    pub cells: Seq<State>,
    /// Who moves next; once the game is won, the winner.
    pub state: State,
    /// The winning line, once there is one.
    pub done: Option<u8>,
}

impl Game {
    /// The empty board with `first` to move.
    pub open spec fn fresh(first: State) -> Game {
        Game { cells: Seq::new(9, |i: int| State::N), state: first, done: None }
    }

    /// What holds of every game that play can reach: there are nine cells,
    /// somebody is to move, a recorded win is on the board and belongs to
    /// `state`, and no win on the board goes unrecorded.
    pub open spec fn wf(self) -> bool {
        &&& self.cells.len() == 9
        &&& self.state != State::N
        &&& match self.done {
            Some(line) => line_won(self.cells, line as int) && self.cells[line_cell(
                line as int,
                0,
            )] == self.state,
            None => forall|line: int| 0 <= line < 8 ==> !line_won(self.cells, line),
        }
    }

    /// The mark at `idx`; outside the board there is none.
    pub open spec fn get(self, idx: int) -> State {
        if 0 <= idx < 9 {
            self.cells[idx]
        } else {
            State::N
        }
    }

    /// Whether every cell holds a mark.
    pub open spec fn full(self) -> bool {
        forall|i: int| 0 <= i < 9 ==> self.cells[i] != State::N
    }

    /// A full board without a winner.
    pub open spec fn draw(self) -> bool {
        self.done is None && self.full()
    }

    /// Whether a move at `idx` is accepted: the game is undecided and `idx`
    /// names an empty cell.
    pub open spec fn can_set(self, idx: int) -> bool {
        &&& self.done is None
        &&& 0 <= idx < 9
        &&& self.cells[idx] == State::N
    }

    /// The game after an accepted move at `idx`.
    pub open spec fn placed(self, idx: int) -> Game {
        let cells = self.cells.update(idx, self.state);
        match win_at(cells, idx) {
            Some(line) => Game { cells, state: self.state, done: Some(line) },
            None => Game { cells, state: self.state.inverted(), done: None },
        }
    }

    /// The game after a move at `idx` was tried: unchanged where the move is
    /// rejected.
    pub open spec fn set(self, idx: int) -> Game {
        if self.can_set(idx) {
            self.placed(idx)
        } else {
            self
        }
    }

    /// The game after the moves of `moves` were tried one after another.
    pub open spec fn set_all(self, moves: Seq<int>) -> Game
        decreases moves.len(),
    {
        if moves.len() == 0 {
            self
        } else {
            self.set(moves[0]).set_all(moves.drop_first())
        }
    }
}

/// Flips a coin: calls `rand::random::<bool>()`, which draws from the
/// thread's generator. Nothing is claimed of the outcome.
#[verifier::external_body]
fn coin() -> (heads: bool) {
    rand::random()
}

/// The board, the player to move and the winning line.
#[derive(Debug)]
pub struct TicTacToe {
    cells: [State; 9],
    state: State,
    done: Option<u8>,
}

impl View for TicTacToe {
    type V = Game;

    closed spec fn view(&self) -> Game {
        Game { cells: self.cells@, state: self.state, done: self.done }
    }
}

impl Clone for TicTacToe {
    fn clone(&self) -> (r: Self)
        ensures
            r@ == self@,
    {
        proof {
            use_type_invariant(self);
        }
        TicTacToe { cells: self.cells, state: self.state, done: self.done }
    }
}

impl Deref for TicTacToe {
    type Target = [State; 9];

    /// The nine cells, row by row.
    fn deref(&self) -> (r: &[State; 9])
        ensures
            r@ == self@.cells,
    {
        &self.cells
    }
}

impl TicTacToe {
    #[verifier::type_invariant]
    spec fn inv(self) -> bool {
        self@.wf()
    }

    /// A new game on an empty board. `first` moves first; where it is
    /// `State::N`, a coin is flipped for it.
    pub fn new(first: State) -> (g: Self)
        ensures
            g@ == Game::fresh(g@.state),
            g@.state != State::N,
            first != State::N ==> g@.state == first,
            g@.wf(),
    {
        let first = match first {
            State::N => State::pick(coin()),
            x => x,
        };
        TicTacToe { cells: [State::N; 9], state: first, done: None }
    }

    /// Plays the mark of the player to move at `idx`. Returns whether the move
    /// was accepted; a rejected move changes nothing. An accepted move that
    /// completes a line ends the game, any other hands the turn over.
    pub fn set(&mut self, idx: usize) -> (r: bool)
        ensures
            r == old(self)@.can_set(idx as int),
            final(self)@ == old(self)@.set(idx as int),
            final(self)@.wf(),
    {
        proof {
            use_type_invariant(&*self);
        }
        if self.done.is_some() || idx >= 9 {
            return false;
        }
        if self.cells[idx] != State::N {
            return false;
        }
        let mut cells = self.cells;
        cells[idx] = self.state;
        let mut state = self.state;
        let done = match Self::calc_on(&cells, idx) {
            Some((mark, line)) => {
                state = mark;
                Some(line)
            },
            None => {
                state.invert();
                None
            },
        };
        proof {
            lemma_placed_wf(old(self)@, idx as int);
        }
        *self = TicTacToe { cells, state, done };
        true
    }

    /// The winning line, once the game is won.
    pub fn done(&self) -> (r: Option<u8>)
        ensures
            r == self@.done,
            self@.wf(),
    {
        proof {
            use_type_invariant(self);
        }
        self.done
    }

    /// Who moves next; once the game is won, the winner.
    pub fn state(&self) -> (r: State)
        ensures
            r == self@.state,
            r != State::N,
    {
        proof {
            use_type_invariant(self);
        }
        self.state
    }

    /// The mark at `idx`, or `State::N` outside the board.
    pub fn get(&self, idx: usize) -> (r: State)
        ensures
            r == self@.get(idx as int),
    {
        if idx < 9 {
            self.cells[idx]
        } else {
            State::N
        }
    }

    /// Row `row` of the board, if it holds three equal marks.
    fn calc_row(cells: &[State; 9], row: usize) -> (r: Option<(State, u8)>)
        ensures
            r == if row < 3 && line_won(cells@, row as int) {
                Some((cells@[3 * row], row as u8))
            } else {
                None
            },
    {
        if row >= 3 {
            return None;
        }
        let idx: usize = row * 3;
        let state = cells[idx];
        if state != State::N && state == cells[idx + 1] && state == cells[idx + 2] {
            Some((state, row as u8))
        } else {
            None
        }
    }

    /// Column `col` of the board, if it holds three equal marks.
    fn calc_col(cells: &[State; 9], col: usize) -> (r: Option<(State, u8)>)
        ensures
            r == if col < 3 && line_won(cells@, 3 + col) {
                Some((cells@[col as int], (3 + col) as u8))
            } else {
                None
            },
    {
        if col >= 3 {
            return None;
        }
        let state = cells[col];
        if state != State::N && state == cells[3 + col] && state == cells[6 + col] {
            Some((state, col as u8 + 3))
        } else {
            None
        }
    }

    /// A diagonal of the board, if it holds three equal marks: the one from
    /// the top right where `right` is set, else the one from the top left.
    fn calc_dia(cells: &[State; 9], right: bool) -> (r: Option<(State, u8)>)
        ensures
            r == if right {
                if line_won(cells@, 7) {
                    Some((cells@[2], 7u8))
                } else {
                    None
                }
            } else {
                if line_won(cells@, 6) {
                    Some((cells@[0], 6u8))
                } else {
                    None
                }
            },
    {
        if right {
            let state = cells[2];
            if state != State::N && state == cells[4] && state == cells[6] {
                Some((state, 7))
            } else {
                None
            }
        } else {
            let state = cells[0];
            if state != State::N && state == cells[4] && state == cells[8] {
                Some((state, 6))
            } else {
                None
            }
        }
    }

    /// The row that cell `idx` lies in.
    fn row_of(idx: usize) -> (r: usize)
        ensures
            r == idx / 3,
    {
        // 0 1 2 3 4 5 6 7 8
        //   0     1     2
        idx / 3
    }

    /// The column that cell `idx` lies in.
    fn col_of(idx: usize) -> (r: usize)
        ensures
            r == idx % 3,
    {
        // 0 3 6 1 4 7 2 5 8
        //   0     1     2
        idx % 3
    }

    /// The win check on a board that a mark was just written to at `idx`.
    fn calc_on(cells: &[State; 9], idx: usize) -> (r: Option<(State, u8)>)
        ensures
            r == win_with_mark(cells@, idx as int),
    {
        let row = Self::calc_row(cells, Self::row_of(idx));
        if row.is_some() {
            return row;
        }
        let col = Self::calc_col(cells, Self::col_of(idx));
        if col.is_some() {
            return col;
        }
        if idx == 4 {
            let right = Self::calc_dia(cells, true);
            if right.is_some() {
                right
            } else {
                Self::calc_dia(cells, false)
            }
        } else if idx % 4 == 0 {
            Self::calc_dia(cells, false)
        } else if idx % 2 == 0 {
            Self::calc_dia(cells, true)
        } else {
            None
        }
    }

    /// The line through cell `idx` that holds three equal marks, with the
    /// mark, if there is one: the check that follows a move at `idx`.
    pub fn calc(&self, idx: usize) -> (r: Option<(State, u8)>)
        ensures
            r == win_with_mark(self@.cells, idx as int),
    {
        Self::calc_on(&self.cells, idx)
    }

    /// Whether the game has ended without a winner: the board is full and no
    /// line is won.
    pub fn draw(&self) -> (r: bool)
        ensures
            r == self@.draw(),
    {
        if self.done.is_some() {
            return false;
        }
        let mut i: usize = 0;
        while i < 9
            invariant
                i <= 9,
                forall|j: int| 0 <= j < i ==> self.cells@[j] != State::N,
            decreases 9 - i,
        {
            if self.cells[i] == State::N {
                return false;
            }
            i += 1;
        }
        true
    }
}

/// The win check names only lines that are won, and on the board only lines
/// that pass through the cell it was asked about.
pub proof fn lemma_win_at_sound(cells: Seq<State>, idx: int)
    ensures
        win_at(cells, idx) matches Some(line) ==> line_won(cells, line as int),
        win_at(cells, idx) matches Some(line) ==> 0 <= idx < 9 ==> on_line(idx, line as int),
{
}

/// The win check misses no line: where a line through `idx` is won, it
/// reports a win.
pub proof fn lemma_win_at_complete(cells: Seq<State>, idx: int, line: int)
    requires
        0 <= idx < 9,
        on_line(idx, line),
        line_won(cells, line),
    ensures
        win_at(cells, idx) is Some,
{
}

/// A legal move keeps a game well formed.
pub proof fn lemma_placed_wf(g: Game, idx: int)
    requires
        g.wf(),
        g.can_set(idx),
    ensures
        g.placed(idx).wf(),
{
    let cells = g.cells.update(idx, g.state);
    lemma_win_at_sound(cells, idx);
    if win_at(cells, idx) is None {
        assert forall|line: int| 0 <= line < 8 implies !line_won(cells, line) by {
            if on_line(idx, line) {
                if line_won(cells, line) {
                    lemma_win_at_complete(cells, idx, line);
                }
            } else {
                assert(!line_won(g.cells, line));
            }
        }
    }
}

/// Whatever moves are tried, in whatever order, a well-formed game stays well
/// formed.
pub proof fn lemma_set_all_wf(g: Game, moves: Seq<int>)
    requires
        g.wf(),
    ensures
        g.set_all(moves).wf(),
    decreases moves.len(),
{
    if moves.len() > 0 {
        if g.can_set(moves[0]) {
            lemma_placed_wf(g, moves[0]);
        }
        lemma_set_all_wf(g.set(moves[0]), moves.drop_first());
    }
}

/// Every game that play can reach from an empty board is well formed.
pub proof fn lemma_reachable_wf(first: State, moves: Seq<int>)
    requires
        first != State::N,
    ensures
        Game::fresh(first).wf(),
        Game::fresh(first).set_all(moves).wf(),
{
    lemma_set_all_wf(Game::fresh(first), moves);
}

/// A move at a cell that holds a mark is rejected and changes nothing.
pub proof fn lemma_occupied_cell_rejects(g: Game, idx: int)
    requires
        0 <= idx < 9,
        g.cells[idx] != State::N,
    ensures
        !g.can_set(idx),
        g.set(idx) == g,
{
}

/// A mark, once on the board, stays where it is whatever moves are tried
/// afterwards.
pub proof fn lemma_marks_stay(g: Game, moves: Seq<int>, i: int)
    requires
        0 <= i < 9,
        g.cells.len() == 9,
        g.cells[i] != State::N,
    ensures
        g.set_all(moves).cells[i] == g.cells[i],
    decreases moves.len(),
{
    if moves.len() > 0 {
        lemma_marks_stay(g.set(moves[0]), moves.drop_first(), i);
    }
}

/// In a well-formed game a draw is a full board without three in a row.
pub proof fn lemma_draw_has_no_line(g: Game)
    requires
        g.wf(),
    ensures
        g.draw() <==> g.full() && forall|line: int| 0 <= line < 8 ==> !line_won(g.cells, line),
{
    if g.done is Some {
        assert(line_won(g.cells, g.done->0 as int));
    }
}

/// Placing the third mark of a line wins the game, whichever of the three
/// cells comes last: the player to move has the two other cells of `line`
/// and plays the empty cell `idx` of it. The game then records a won line
/// through `idx` for that player; it is `line` itself unless the move
/// completes another line as well.
pub proof fn lemma_third_mark_wins(g: Game, line: int, idx: int)
    requires
        g.wf(),
        g.can_set(idx),
        0 <= line < 8,
        on_line(idx, line),
        forall|k: int|
            0 <= k < 3 && line_cell(line, k) != idx ==> g.cells[#[trigger] line_cell(line, k)]
                == g.state,
    ensures
        line_won(g.set(idx).cells, line),
        g.set(idx).state == g.state,
        g.set(idx).done matches Some(found) && on_line(idx, found as int) && line_won(
            g.set(idx).cells,
            found as int,
        ),
        (forall|other: int|
            0 <= other < 8 && other != line && on_line(idx, other) ==> !line_won(
                g.set(idx).cells,
                other,
            )) ==> g.set(idx).done == Some(line as u8),
{
    let cells = g.cells.update(idx, g.state);
    assert(cells[line_cell(line, 0)] == g.state);
    assert(cells[line_cell(line, 1)] == g.state);
    assert(cells[line_cell(line, 2)] == g.state);
    assert(line_won(cells, line));
    lemma_win_at_complete(cells, idx, line);
    lemma_win_at_sound(cells, idx);
}

/// No false win: a well-formed game whose board has no three in a row is
/// undecided, and the win check finds nothing on such a board.
pub proof fn lemma_no_line_no_outcome(g: Game, idx: int)
    requires
        g.wf(),
        forall|line: int| 0 <= line < 8 ==> !line_won(g.cells, line),
    ensures
        g.done is None,
        win_at(g.cells, idx) is None,
        win_with_mark(g.cells, idx) is None,
{
    lemma_win_at_sound(g.cells, idx);
    if g.done is Some {
        assert(line_won(g.cells, g.done->0 as int));
    }
}

/// A decided game is final: every further move is rejected, and no sequence
/// of moves changes anything.
pub proof fn lemma_decided_is_final(g: Game, moves: Seq<int>)
    requires
        g.done is Some,
    ensures
        forall|idx: int| !g.can_set(idx) && g.set(idx) == g,
        g.set_all(moves) == g,
    decreases moves.len(),
{
    if moves.len() > 0 {
        lemma_decided_is_final(g, moves.drop_first());
    }
}

} // verus!
