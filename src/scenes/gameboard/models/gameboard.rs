//! A sudoku board in play: the puzzle, the player's entries, the solution.
use vstd::prelude::*;

use crate::input::Axis;

verus! {

/// Order of the board: its side is `ORDER * ORDER` cells.
pub const ORDER: u8 = 3;

/// Cells in a row or a column.
pub const SIDE: u8 = 9;

/// Cells on the board.
pub const N_CELLS: usize = 81;

/// A cell, by column and row, counted from zero at the top left.
#[derive(Debug, Copy, Clone, PartialEq, Eq, Structural)]
pub struct Point(pub u8, pub u8);

/// The point lies on the board.
pub open spec fn on_board(p: Point) -> bool {
    p.0 < SIDE && p.1 < SIDE
}

/// Where the cell of `p` is kept, row by row.
pub open spec fn cell_index(p: Point) -> int {
    p.1 * SIDE + p.0
}

/// The next index along a row or column of `n` cells, wrapping at the end.
pub open spec fn wrap_next(i: u8, n: u8) -> u8 {
    if i == n - 1 {
        0
    } else {
        (i + 1) as u8
    }
}

/// The previous index along a row or column of `n` cells, wrapping at the start.
pub open spec fn wrap_prev(i: u8, n: u8) -> u8 {
    if i == 0 {
        (n - 1) as u8
    } else {
        (i - 1) as u8
    }
}

/// The selection after a move: the centre when nothing was selected;
/// otherwise one step along the axis, wrapping at the edges, up being
/// the positive vertical direction and right the positive horizontal one.
pub open spec fn moved_selection(selected: Option<Point>, axis: Axis, positive: bool) -> Point {
    match selected {
        None => Point(SIDE / 2, SIDE / 2),
        Some(p) => Point(
            if axis == Axis::Horz {
                if positive {
                    wrap_next(p.0, SIDE)
                } else {
                    wrap_prev(p.0, SIDE)
                }
            } else {
                p.0
            },
            if axis == Axis::Vert {
                if positive {
                    wrap_prev(p.1, SIDE)
                } else {
                    wrap_next(p.1, SIDE)
                }
            } else {
                p.1
            },
        ),
    }
}

/// A solution for a puzzle: every cell holds a digit from 1 to 9, and every
/// cell that the puzzle gives holds the given digit.
pub open spec fn solution_fits(problem: Seq<Option<u8>>, solution: Seq<Option<u8>>) -> bool {
    &&& problem.len() == N_CELLS
    &&& solution.len() == N_CELLS
    &&& forall|i: int| 0 <= i < N_CELLS ==> (#[trigger] solution[i] matches Some(d) && 1 <= d <= 9)
    &&& forall|i: int| 0 <= i < N_CELLS ==> (#[trigger] problem[i] is None || problem[i] == solution[i])
}

/// What sudoku's solver makes of a puzzle written as text: the puzzle's
/// cells and the solution's cells, row by row, or nothing.
pub uninterp spec fn solved_puzzle(puzzle: Seq<char>) -> Option<(Seq<Option<u8>>, Seq<Option<u8>>)>;

/// Relies on sudoku's `Sudoku::from_str` to read a puzzle of nine rows of
/// nine digits or `_` (with `|` ignored), on `Sudoku::solve_one` to solve it,
/// and on `Sudoku::iter` to read both grids' 81 cells row by row, an empty
/// cell as `None` and a filled one as its digit.
#[verifier::external_body]
fn solve_puzzle(puzzle: &str) -> (r: Option<(Vec<Option<u8>>, Vec<Option<u8>>)>)
    ensures
        match r {
            Some((p, s)) => solved_puzzle(puzzle@) == Some((p@, s@)),
            None => solved_puzzle(puzzle@) is None,
        },
        r matches Some((p, s)) ==> {
            &&& p@.len() == N_CELLS
            &&& s@.len() == N_CELLS
            &&& forall|i: int| 0 <= i < N_CELLS ==> (#[trigger] p@[i] matches Some(d) ==> 1 <= d <= 9)
        },
{
    let problem = sudoku::Sudoku::from_str(puzzle).ok()?;
    let solution = problem.solve_one()?;
    Some((problem.iter().collect(), solution.iter().collect()))
}

/// Where the cell of `p` is kept.
fn index_of(p: Point) -> (r: usize)
    requires
        on_board(p),
    ensures
        r == cell_index(p),
        r < N_CELLS,
{
    p.1 as usize * 9 + p.0 as usize
}

pub struct Gameboard {
    problem: Vec<Option<u8>>,
    current: Vec<Option<u8>>,
    solution: Vec<Option<u8>>,
    moves: usize,
    selected_cell: Option<Point>,
}

impl Gameboard {
    #[verifier::type_invariant]
    spec fn inv(&self) -> bool {
        &&& self.problem@.len() == N_CELLS
        &&& self.current@.len() == N_CELLS
        &&& self.solution@.len() == N_CELLS
        &&& match self.selected_cell {
            Some(p) => on_board(p),
            None => true,
        }
    }

    /// Every grid of the board holds all its cells.
    pub open spec fn has_all_cells(&self) -> bool {
        &&& self.spec_problem().len() == N_CELLS
        &&& self.spec_current().len() == N_CELLS
        &&& self.spec_solution().len() == N_CELLS
    }

    /// The puzzle as given: a cell holds a digit or is empty.
    pub closed spec fn spec_problem(&self) -> Seq<Option<u8>> {
        self.problem@
    }

    /// The board as the player has filled it.
    pub closed spec fn spec_current(&self) -> Seq<Option<u8>> {
        self.current@
    }

    /// The solved board.
    pub closed spec fn spec_solution(&self) -> Seq<Option<u8>> {
        self.solution@
    }

    /// How many entries and removals the player has made.
    pub closed spec fn spec_moves(&self) -> nat {
        self.moves as nat
    }

    /// The selected cell, if any.
    pub closed spec fn spec_selected(&self) -> Option<Point> {
        self.selected_cell
    }

    /// A board in play from a puzzle and its solution, each given row by
    /// row; nothing unless the solution fits the puzzle.
    pub fn new(problem: Vec<Option<u8>>, solution: Vec<Option<u8>>) -> (r: Option<Self>)
        ensures
            r is Some <==> solution_fits(problem@, solution@),
            r matches Some(b) ==> {
                &&& b.spec_problem() == problem@
                &&& b.spec_current() == problem@
                &&& b.spec_solution() == solution@
                &&& b.spec_moves() == 0
                &&& b.spec_selected() is None
                &&& b.has_all_cells()
            },
    {
        if problem.len() != N_CELLS || solution.len() != N_CELLS {
            return None;
        }
        let mut i: usize = 0;
        while i < N_CELLS
            invariant
                i <= N_CELLS,
                problem@.len() == N_CELLS,
                solution@.len() == N_CELLS,
                forall|j: int| 0 <= j < i ==> (#[trigger] solution@[j] matches Some(d) && 1 <= d <= 9),
                forall|j: int|
                    0 <= j < i ==> (#[trigger] problem@[j] is None || problem@[j] == solution@[j]),
            decreases N_CELLS - i,
        {
            match solution[i] {
                Some(d) => {
                    if d < 1 || d > 9 {
                        return None;
                    }
                },
                None => {
                    return None;
                },
            }
            if problem[i].is_some() && problem[i] != solution[i] {
                return None;
            }
            i = i + 1;
        }
        let current = problem.clone();
        Some(Gameboard { problem, current, solution, moves: 0, selected_cell: None })
    }

    /// A board in play from a puzzle written as nine rows of nine digits or
    /// `_`, solved by sudoku's solver; nothing if the text is no puzzle, the
    /// solver finds no solution, or its solution does not fit the puzzle.
    pub fn from_puzzle(puzzle: &str) -> (r: Option<Self>)
        ensures
            r is Some <==> (solved_puzzle(puzzle@) matches Some((p, s)) && solution_fits(p, s)),
            r matches Some(b) ==> (solved_puzzle(puzzle@) matches Some((p, s)) && {
                &&& b.spec_problem() == p
                &&& b.spec_current() == p
                &&& b.spec_solution() == s
                &&& b.spec_moves() == 0
                &&& b.spec_selected() is None
                &&& b.has_all_cells()
            }),
    {
        match solve_puzzle(puzzle) {
            Some((problem, solution)) => Gameboard::new(problem, solution),
            None => None,
        }
    }

    /// Whether `value` is what the solution holds at `point`.
    pub fn insertion_is_correct(&self, point: Point, value: u8) -> (r: bool)
        requires
            on_board(point),
        ensures
            self.has_all_cells(),
            r == (self.spec_solution()[cell_index(point)] == Some(value)),
    {
        proof {
            use_type_invariant(self);
        }
        let i = index_of(point);
        match self.solution[i] {
            Some(v) => v == value,
            None => false,
        }
    }

    /// Writes `value` at `point` and counts the move.
    pub fn insert(&mut self, point: Point, value: u8)
        requires
            on_board(point),
            old(self).spec_moves() < usize::MAX,
        ensures
            old(self).has_all_cells(),
            final(self).has_all_cells(),
            final(self).spec_current() == old(self).spec_current().update(
                cell_index(point),
                Some(value),
            ),
            final(self).spec_moves() == old(self).spec_moves() + 1,
            final(self).spec_problem() == old(self).spec_problem(),
            final(self).spec_solution() == old(self).spec_solution(),
            final(self).spec_selected() == old(self).spec_selected(),
    {
        proof {
            use_type_invariant(&*self);
        }
        let i = index_of(point);
        self.current[i] = Some(value);
        self.moves = self.moves + 1;
    }

    /// Empties the cell at `point`, counts the move, and hands back what the
    /// cell held.
    pub fn remove(&mut self, point: Point) -> (r: Option<u8>)
        requires
            on_board(point),
            old(self).spec_moves() < usize::MAX,
        ensures
            old(self).has_all_cells(),
            final(self).has_all_cells(),
            r == old(self).spec_current()[cell_index(point)],
            final(self).spec_current() == old(self).spec_current().update(cell_index(point), None),
            final(self).spec_moves() == old(self).spec_moves() + 1,
            final(self).spec_problem() == old(self).spec_problem(),
            final(self).spec_solution() == old(self).spec_solution(),
            final(self).spec_selected() == old(self).spec_selected(),
    {
        proof {
            use_type_invariant(&*self);
        }
        self.moves = self.moves + 1;
        let i = index_of(point);
        let value = self.current[i];
        self.current[i] = None;
        value
    }

    /// Whether the player may change the cell: the puzzle leaves it empty.
    pub fn is_mutable(&self, point: Point) -> (r: bool)
        requires
            on_board(point),
        ensures
            self.has_all_cells(),
            r == (self.spec_problem()[cell_index(point)] is None),
    {
        proof {
            use_type_invariant(self);
        }
        let i = index_of(point);
        self.problem[i].is_none()
    }

    /// Rows and columns of the board.
    pub fn size(&self) -> (r: [u8; 2])
        ensures
            r@ == seq![SIDE, SIDE],
    {
        let dim = ORDER * ORDER;
        let r = [dim, dim];
        assert(r@ =~= seq![SIDE, SIDE]);
        r
    }

    /// Every point of the board, row by row.
    pub fn points(&self) -> (r: Vec<Point>)
        ensures
            r@.len() == N_CELLS,
            forall|i: int|
                0 <= i < N_CELLS ==> #[trigger] r@[i] == Point((i % 9) as u8, (i / 9) as u8),
    {
        let mut r: Vec<Point> = Vec::new();
        let mut y: u8 = 0;
        while y < SIDE
            invariant
                y <= SIDE,
                r@.len() == y * 9,
                forall|i: int|
                    0 <= i < y * 9 ==> #[trigger] r@[i] == Point((i % 9) as u8, (i / 9) as u8),
            decreases SIDE - y,
        {
            let mut x: u8 = 0;
            while x < SIDE
                invariant
                    y < SIDE,
                    x <= SIDE,
                    r@.len() == y * 9 + x,
                    forall|i: int|
                        0 <= i < y * 9 + x ==> #[trigger] r@[i] == Point(
                            (i % 9) as u8,
                            (i / 9) as u8,
                        ),
                decreases SIDE - x,
            {
                proof {
                    let k = y * 9 + x;
                    assert(k % 9 == x as int && k / 9 == y as int) by (nonlinear_arith)
                        requires
                            k == y * 9 + x,
                            x < 9,
                    ;
                }
                r.push(Point(x, y));
                x = x + 1;
            }
            y = y + 1;
        }
        r
    }

    /// Whether the player's board is the solution.
    pub fn is_solved(&self) -> (r: bool)
        ensures
            self.has_all_cells(),
            r == (self.spec_current() == self.spec_solution()),
    {
        proof {
            use_type_invariant(self);
        }
        let mut i: usize = 0;
        while i < N_CELLS
            invariant
                i <= N_CELLS,
                self.problem@.len() == N_CELLS,
                self.current@.len() == N_CELLS,
                self.solution@.len() == N_CELLS,
                forall|j: int| 0 <= j < i ==> self.current@[j] == self.solution@[j],
            decreases N_CELLS - i,
        {
            if self.current[i] != self.solution[i] {
                return false;
            }
            i = i + 1;
        }
        assert(self.current@ =~= self.solution@);
        true
    }

    /// Moves the selection one cell along `axis`, wrapping at the edges; with
    /// nothing selected, selects the centre.
    pub fn move_selected_cell(&mut self, axis: Axis, is_positive: bool)
        ensures
            old(self).has_all_cells(),
            final(self).has_all_cells(),
            final(self).spec_selected() == Some(
                moved_selection(old(self).spec_selected(), axis, is_positive),
            ),
            final(self).spec_problem() == old(self).spec_problem(),
            final(self).spec_current() == old(self).spec_current(),
            final(self).spec_solution() == old(self).spec_solution(),
            final(self).spec_moves() == old(self).spec_moves(),
    {
        proof {
            use_type_invariant(&*self);
        }
        let size = self.size();
        let nrows = size[0];
        let ncols = size[1];
        let center_x = nrows / 2;
        let center_y = ncols / 2;
        let next = match self.selected_cell {
            Some(current) => {
                let (x, y) = (current.0, current.1);
                let new_x = if axis == Axis::Horz {
                    if is_positive {
                        if x == nrows - 1 {
                            0
                        } else {
                            x + 1
                        }
                    } else if x == 0 {
                        nrows - 1
                    } else {
                        x - 1
                    }
                } else {
                    x
                };
                let new_y = if axis == Axis::Vert {
                    if is_positive {
                        if y == 0 {
                            ncols - 1
                        } else {
                            y - 1
                        }
                    } else if y == ncols - 1 {
                        0
                    } else {
                        y + 1
                    }
                } else {
                    y
                };
                Point(new_x, new_y)
            },
            None => Point(center_x, center_y),
        };
        self.selected_cell = Some(next);
    }

    /// How many entries and removals the player has made.
    pub fn moves(&self) -> (r: usize)
        ensures
            self.has_all_cells(),
            r == self.spec_moves(),
    {
        proof {
            use_type_invariant(self);
        }
        self.moves
    }

    /// The selected cell, if any.
    pub fn selected_cell(&self) -> (r: Option<Point>)
        ensures
            self.has_all_cells(),
            r == self.spec_selected(),
            r matches Some(p) ==> on_board(p),
    {
        proof {
            use_type_invariant(self);
        }
        self.selected_cell
    }

    /// Selects a cell, or clears the selection.
    pub fn set_selected_cell(&mut self, cell: Option<Point>)
        requires
            cell matches Some(p) ==> on_board(p),
        ensures
            old(self).has_all_cells(),
            final(self).has_all_cells(),
            final(self).spec_selected() == cell,
            final(self).spec_problem() == old(self).spec_problem(),
            final(self).spec_current() == old(self).spec_current(),
            final(self).spec_solution() == old(self).spec_solution(),
            final(self).spec_moves() == old(self).spec_moves(),
    {
        proof {
            use_type_invariant(&*self);
        }
        self.selected_cell = cell;
    }

    /// What the player's board holds at `point`.
    pub fn value_at(&self, point: Point) -> (r: Option<u8>)
        requires
            on_board(point),
        ensures
            self.has_all_cells(),
            r == self.spec_current()[cell_index(point)],
    {
        proof {
            use_type_invariant(self);
        }
        self.current[index_of(point)]
    }

    /// What the solution holds at `point`.
    pub fn solution_at(&self, point: Point) -> (r: Option<u8>)
        requires
            on_board(point),
        ensures
            self.has_all_cells(),
            r == self.spec_solution()[cell_index(point)],
    {
        proof {
            use_type_invariant(self);
        }
        self.solution[index_of(point)]
    }
}

} // verus!
