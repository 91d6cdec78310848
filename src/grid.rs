//! The grid of squares, addressed by (row, column), and the single-step
//! movement rules.
use vstd::prelude::*;

use crate::terrain::{Being, Square, TerrainBlock, TerrainGround};

verus! {

/// A cardinal direction. North and East increase the row and the column;
/// South and West decrease them.
#[derive(PartialEq, Eq, Structural, Debug, Clone, Copy)]
pub enum Direction {
    West,
    East,
    North,
    South,
}

/// Why a being cannot make a requested step.
#[derive(PartialEq, Eq, Structural, Debug, Clone, Copy)]
pub enum MovementError {
    /// The source square holds no being.
    NoBeingInSquare,
    /// The source or the destination lies outside the grid.
    SquareOutsideGridBoundary,
    /// The destination square already holds a being.
    BeingAlreadyInSquare,
    /// The destination's ground cannot be walked on.
    TerrainGroundUnsuitable,
}

/// A grid of `size.0` rows and `size.1` columns, stored row by row: the
/// square at `(r, c)` is stored at `r * size.1 + c`.
#[derive(Debug, PartialEq)]
pub struct Grid {
    pub size: (usize, usize),
    pub squares: Vec<Square>,
}

impl Clone for Grid {
    fn clone(&self) -> (r: Grid)
        ensures
            r.size == self.size,
            r.squares@ == self.squares@,
    {
        let mut squares: Vec<Square> = Vec::with_capacity(self.squares.len());
        let mut i: usize = 0;
        while i < self.squares.len()
            invariant
                i <= self.squares@.len(),
                squares@ == self.squares@.subrange(0, i as int),
            decreases self.squares@.len() - i,
        {
            squares.push(self.squares[i]);
            i = i + 1;
        }
        assert(squares@ == self.squares@);
        Grid { size: self.size, squares }
    }
}

/// The coordinate one step from `coord` in `direction`, with negative
/// components where the step leaves the first quadrant.
pub open spec fn step(coord: (usize, usize), direction: Direction) -> (int, int) {
    match direction {
        Direction::West => (coord.0 as int, coord.1 - 1),
        Direction::East => (coord.0 as int, coord.1 + 1),
        Direction::North => (coord.0 + 1, coord.1 as int),
        Direction::South => (coord.0 - 1, coord.1 as int),
    }
}

impl Grid {
    /// A grid whose square count matches its dimensions.
    pub open spec fn wf(self) -> bool {
        self.squares@.len() == self.size.0 * self.size.1
    }

    /// Where the square at `coord` is stored.
    pub open spec fn linear_index(self, coord: (int, int)) -> int {
        coord.0 * self.size.1 + coord.1
    }

    /// Whether the storage index of `coord` falls inside the stored squares.
    pub open spec fn is_stored(self, coord: (int, int)) -> bool {
        0 <= self.linear_index(coord) < self.squares@.len()
    }

    /// The square stored for `coord`.
    pub open spec fn square(self, coord: (int, int)) -> Square
        recommends
            self.is_stored(coord),
    {
        self.squares@[self.linear_index(coord)]
    }

    /// Whether `coord` lies within the grid's dimensions.
    pub open spec fn within(self, coord: (int, int)) -> bool {
        0 <= coord.0 < self.size.0 && 0 <= coord.1 < self.size.1
    }

    /// The outcome of asking a being at `coord` to step in `direction`.
    pub open spec fn move_outcome(self, coord: (usize, usize), direction: Direction) -> Result<
        (usize, usize),
        MovementError,
    > {
        let src = (coord.0 as int, coord.1 as int);
        let dst = step(coord, direction);
        if !self.within(src) || !self.is_stored(src) {
            Err(MovementError::SquareOutsideGridBoundary)
        } else if self.square(src).beings is None {
            Err(MovementError::NoBeingInSquare)
        } else if !self.within(dst) || !self.is_stored(dst) {
            Err(MovementError::SquareOutsideGridBoundary)
        } else if self.square(dst).beings is Some {
            Err(MovementError::BeingAlreadyInSquare)
        } else if !self.square(dst).ground.walkable() {
            Err(MovementError::TerrainGroundUnsuitable)
        } else {
            Ok((dst.0 as usize, dst.1 as usize))
        }
    }

    /// The storage index of `coord`, when it falls inside the stored squares.
    fn storage_index(&self, coord: (usize, usize)) -> (r: Option<usize>)
        ensures
            r is Some <==> self.is_stored((coord.0 as int, coord.1 as int)),
            r is Some ==> r->0 == self.linear_index((coord.0 as int, coord.1 as int)),
    {
        let len = self.squares.len();
        match coord.0.checked_mul(self.size.1) {
            None => None,
            Some(base) => match base.checked_add(coord.1) {
                None => None,
                Some(index) => {
                    if index < len {
                        Some(index)
                    } else {
                        None
                    }
                },
            },
        }
    }

    /// The coordinate one step from `coord` in `direction`, when it lies
    /// within the grid's dimensions.
    fn neighbour(&self, coord: (usize, usize), direction: Direction) -> (r: Option<(usize, usize)>)
        ensures
            r == (if self.within(step(coord, direction)) {
                Some((step(coord, direction).0 as usize, step(coord, direction).1 as usize))
            } else {
                None
            }),
    {
        let (rows, cols) = self.size;
        let (row, col) = coord;
        let (r, c) = match direction {
            Direction::West => {
                if col == 0 {
                    return None;
                }
                (row, col - 1)
            },
            Direction::East => {
                if cols == 0 || col >= cols - 1 {
                    return None;
                }
                (row, col + 1)
            },
            Direction::North => {
                if rows == 0 || row >= rows - 1 {
                    return None;
                }
                (row + 1, col)
            },
            Direction::South => {
                if row == 0 {
                    return None;
                }
                (row - 1, col)
            },
        };
        if r < rows && c < cols {
            Some((r, c))
        } else {
            None
        }
    }

    /// Checks whether the being at `coord` may step one square in
    /// `direction`, and returns the square it would reach. The grid is left
    /// as it is.
    pub fn move_being_in_coord(&self, coord: (usize, usize), direction: Direction) -> (r: Result<
        (usize, usize),
        MovementError,
    >)
        ensures
            r == self.move_outcome(coord, direction),
    {
        if coord.0 >= self.size.0 || coord.1 >= self.size.1 {
            return Err(MovementError::SquareOutsideGridBoundary);
        }
        let src = match self.storage_index(coord) {
            Some(i) => i,
            None => return Err(MovementError::SquareOutsideGridBoundary),
        };
        if self.squares[src].beings.is_none() {
            return Err(MovementError::NoBeingInSquare);
        }
        let target = match self.neighbour(coord, direction) {
            Some(t) => t,
            None => return Err(MovementError::SquareOutsideGridBoundary),
        };
        let dst = match self.storage_index(target) {
            Some(i) => i,
            None => return Err(MovementError::SquareOutsideGridBoundary),
        };
        let square = &self.squares[dst];
        if square.beings.is_some() {
            return Err(MovementError::BeingAlreadyInSquare);
        }
        if square.ground.is_walkable() {
            Ok(target)
        } else {
            Err(MovementError::TerrainGroundUnsuitable)
        }
    }

    /// A grid of `rows` by `cols` squares, each of soil with no block and no
    /// being.
    pub fn generate_empty(rows: usize, cols: usize) -> (r: Grid)
        requires
            rows * cols <= usize::MAX,
        ensures
            r.size == (rows, cols),
            r.wf(),
            r.squares@.len() == rows * cols,
            forall|i: int| 0 <= i < r.squares@.len() ==> r.squares@[i] == Square::spec_empty(),
    {
        let count = rows * cols;
        let mut squares: Vec<Square> = Vec::with_capacity(count);
        let mut n: usize = 0;
        while n < count
            invariant
                n <= count,
                squares@.len() == n,
                forall|i: int| 0 <= i < squares@.len() ==> squares@[i] == Square::spec_empty(),
            decreases count - n,
        {
            squares.push(Square::empty());
            n = n + 1;
        }
        Grid { size: (rows, cols), squares }
    }

    /// Whether `coord` names a square of the grid: within its dimensions and
    /// stored.
    pub open spec fn addresses(self, coord: (usize, usize)) -> bool {
        self.within((coord.0 as int, coord.1 as int)) && self.is_stored(
            (coord.0 as int, coord.1 as int),
        )
    }

    /// The square at `coord`, if `coord` names one.
    pub fn square_at(&self, coord: (usize, usize)) -> (r: Option<Square>)
        ensures
            r == (if self.addresses(coord) {
                Some(self.square((coord.0 as int, coord.1 as int)))
            } else {
                None
            }),
    {
        if coord.0 >= self.size.0 || coord.1 >= self.size.1 {
            return None;
        }
        match self.storage_index(coord) {
            Some(i) => Some(self.squares[i]),
            None => None,
        }
    }

    /// Puts `being` on the square at `coord` (or clears it, with `None`).
    /// Fails, changing nothing, when `coord` names no square.
    pub fn set_being(&mut self, coord: (usize, usize), being: Option<Being>) -> (r: Result<
        (),
        MovementError,
    >)
        ensures
            r is Ok <==> old(self).addresses(coord),
            final(self).size == old(self).size,
            r is Ok ==> final(self).squares@ == old(self).squares@.update(
                old(self).linear_index((coord.0 as int, coord.1 as int)),
                Square { beings: being, ..old(self).square((coord.0 as int, coord.1 as int)) },
            ),
            r is Err ==> r == Err::<(), MovementError>(MovementError::SquareOutsideGridBoundary)
                && final(self).squares@ == old(self).squares@,
            old(self).wf() ==> final(self).wf(),
    {
        if coord.0 >= self.size.0 || coord.1 >= self.size.1 {
            return Err(MovementError::SquareOutsideGridBoundary);
        }
        match self.storage_index(coord) {
            Some(i) => {
                let square = self.squares[i];
                self.squares.set(i, Square { beings: being, ..square });
                Ok(())
            },
            None => Err(MovementError::SquareOutsideGridBoundary),
        }
    }

    /// Puts `block` on the square at `coord` (or clears it, with `None`).
    /// Fails, changing nothing, when `coord` names no square.
    pub fn set_block(&mut self, coord: (usize, usize), block: Option<TerrainBlock>) -> (r: Result<
        (),
        MovementError,
    >)
        ensures
            r is Ok <==> old(self).addresses(coord),
            final(self).size == old(self).size,
            r is Ok ==> final(self).squares@ == old(self).squares@.update(
                old(self).linear_index((coord.0 as int, coord.1 as int)),
                Square { block: block, ..old(self).square((coord.0 as int, coord.1 as int)) },
            ),
            r is Err ==> r == Err::<(), MovementError>(MovementError::SquareOutsideGridBoundary)
                && final(self).squares@ == old(self).squares@,
            old(self).wf() ==> final(self).wf(),
    {
        if coord.0 >= self.size.0 || coord.1 >= self.size.1 {
            return Err(MovementError::SquareOutsideGridBoundary);
        }
        match self.storage_index(coord) {
            Some(i) => {
                let square = self.squares[i];
                self.squares.set(i, Square { block: block, ..square });
                Ok(())
            },
            None => Err(MovementError::SquareOutsideGridBoundary),
        }
    }

    /// The squares after the being at `from` has stepped onto `to`.
    pub open spec fn moved(self, from: (int, int), to: (int, int)) -> Seq<Square> {
        self.squares@.update(
            self.linear_index(from),
            Square { beings: None, ..self.square(from) },
        ).update(self.linear_index(to), Square { beings: self.square(from).beings, ..self.square(to) })
    }

    /// Validates a step of the being at `coord` in `direction` and, when it
    /// is allowed, carries it out: the source square is cleared and the
    /// being stands on the destination. A refused step changes nothing.
    pub fn attempt_move(&mut self, coord: (usize, usize), direction: Direction) -> (r: Result<
        (usize, usize),
        MovementError,
    >)
        ensures
            r == old(self).move_outcome(coord, direction),
            final(self).size == old(self).size,
            r is Ok ==> final(self).squares@ == old(self).moved(
                (coord.0 as int, coord.1 as int),
                step(coord, direction),
            ),
            r is Err ==> final(self).squares@ == old(self).squares@,
            old(self).wf() ==> final(self).wf(),
    {
        let target = match self.move_being_in_coord(coord, direction) {
            Ok(t) => t,
            Err(e) => return Err(e),
        };
        let src = match self.storage_index(coord) {
            Some(i) => i,
            None => return Err(MovementError::SquareOutsideGridBoundary),
        };
        let dst = match self.storage_index(target) {
            Some(i) => i,
            None => return Err(MovementError::SquareOutsideGridBoundary),
        };
        let from = self.squares[src];
        let to = self.squares[dst];
        self.squares.set(src, Square { beings: None, ..from });
        self.squares.set(dst, Square { beings: from.beings, ..to });
        Ok(target)
    }
}

/// A step from a square of the grid that holds no being fails, whatever the
/// direction.
pub proof fn lemma_empty_source_fails(grid: Grid, coord: (usize, usize), direction: Direction)
    requires
        grid.within((coord.0 as int, coord.1 as int)),
        grid.is_stored((coord.0 as int, coord.1 as int)),
        grid.square((coord.0 as int, coord.1 as int)).beings is None,
    ensures
        grid.move_outcome(coord, direction) == Err::<(usize, usize), MovementError>(
            MovementError::NoBeingInSquare,
        ),
{
}

/// A being cannot step onto a neighbouring square of the grid that another
/// being holds.
pub proof fn lemma_occupied_destination_fails(
    grid: Grid,
    coord: (usize, usize),
    direction: Direction,
)
    requires
        grid.within((coord.0 as int, coord.1 as int)),
        grid.is_stored((coord.0 as int, coord.1 as int)),
        grid.square((coord.0 as int, coord.1 as int)).beings is Some,
        grid.within(step(coord, direction)),
        grid.is_stored(step(coord, direction)),
        grid.square(step(coord, direction)).beings is Some,
    ensures
        grid.move_outcome(coord, direction) == Err::<(usize, usize), MovementError>(
            MovementError::BeingAlreadyInSquare,
        ),
{
}

/// A being cannot step onto a free neighbouring square of stone.
pub proof fn lemma_stone_destination_fails(grid: Grid, coord: (usize, usize), direction: Direction)
    requires
        grid.within((coord.0 as int, coord.1 as int)),
        grid.is_stored((coord.0 as int, coord.1 as int)),
        grid.square((coord.0 as int, coord.1 as int)).beings is Some,
        grid.within(step(coord, direction)),
        grid.is_stored(step(coord, direction)),
        grid.square(step(coord, direction)).beings is None,
        grid.square(step(coord, direction)).ground == TerrainGround::Stone,
    ensures
        grid.move_outcome(coord, direction) == Err::<(usize, usize), MovementError>(
            MovementError::TerrainGroundUnsuitable,
        ),
{
}

/// A being may step onto a free neighbouring square of walkable ground, and
/// the step leads exactly to that neighbour. The outcome depends on the grid,
/// the coordinate and the direction alone, so asking twice about an
/// unchanged grid gives the same answer.
pub proof fn lemma_free_walkable_destination_succeeds(
    grid: Grid,
    coord: (usize, usize),
    direction: Direction,
)
    requires
        grid.within((coord.0 as int, coord.1 as int)),
        grid.is_stored((coord.0 as int, coord.1 as int)),
        grid.square((coord.0 as int, coord.1 as int)).beings is Some,
        grid.within(step(coord, direction)),
        grid.is_stored(step(coord, direction)),
        grid.square(step(coord, direction)).beings is None,
        grid.square(step(coord, direction)).ground.walkable(),
    ensures
        grid.move_outcome(coord, direction) == Ok::<(usize, usize), MovementError>(
            (step(coord, direction).0 as usize, step(coord, direction).1 as usize),
        ),
        step(coord, direction).0 as usize as int == step(coord, direction).0,
        step(coord, direction).1 as usize as int == step(coord, direction).1,
{
}

/// On a grid whose square count matches its dimensions, every coordinate
/// within the grid is stored, and two different coordinates are stored at
/// different places.
pub proof fn lemma_storage_one_to_one(grid: Grid, a: (usize, usize), b: (usize, usize))
    requires
        grid.wf(),
        grid.within((a.0 as int, a.1 as int)),
        grid.within((b.0 as int, b.1 as int)),
    ensures
        grid.is_stored((a.0 as int, a.1 as int)),
        a != b ==> grid.linear_index((a.0 as int, a.1 as int)) != grid.linear_index(
            (b.0 as int, b.1 as int),
        ),
{
    let rows = grid.size.0 as int;
    let cols = grid.size.1 as int;
    let (ar, ac, br, bc) = (a.0 as int, a.1 as int, b.0 as int, b.1 as int);
    assert(0 <= ar * cols + ac < rows * cols) by (nonlinear_arith)
        requires
            0 <= ar < rows,
            0 <= ac < cols,
    ;
    if ar < br {
        assert(ar * cols + ac < br * cols + bc) by (nonlinear_arith)
            requires
                ar < br,
                0 <= ac < cols,
                0 <= bc,
        ;
    } else if br < ar {
        assert(br * cols + bc < ar * cols + ac) by (nonlinear_arith)
            requires
                br < ar,
                0 <= bc < cols,
                0 <= ac,
        ;
    }
}

} // verus!
