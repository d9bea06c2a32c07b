//! A grid of cells, each holding a list of values.
//!
//! The grid is a lookup structure, not a source of truth: it shows where
//! values stand relative to each other.

use crate::misc::ivec2::IVec2;
use vstd::prelude::*;
use vstd::std_specs::cmp::PartialEqSpec;

verus! {

/// Why a grid operation failed.
#[derive(Clone, Copy, PartialEq, Eq, Debug, Structural)]
pub enum GridError {
    /// The position lies outside the grid.
    OutOfBounds(IVec2),
}

/// The number of cells of a grid of the given size; none when a side is not positive.
pub open spec fn cell_count(width: i32, height: i32) -> int {
    if width > 0 && height > 0 {
        width * height
    } else {
        0
    }
}

/// Whether `pos` lies inside a grid of the given size.
pub open spec fn in_bounds(width: i32, height: i32, pos: IVec2) -> bool {
    0 <= pos.x < width && 0 <= pos.y < height
}

/// The cell that holds position `pos`, row by row.
pub open spec fn cell_index(width: i32, pos: IVec2) -> int {
    pos.y * width + pos.x
}

proof fn lemma_index_in_range(width: i32, height: i32, pos: IVec2)
    requires
        in_bounds(width, height, pos),
    ensures
        0 <= cell_index(width, pos) < cell_count(width, height),
{
    let w = width as int;
    let h = height as int;
    let x = pos.x as int;
    let y = pos.y as int;
    assert(y * w + x < w * h) by (nonlinear_arith)
        requires
            0 <= x < w,
            0 <= y < h,
    ;
    assert(0 <= y * w) by (nonlinear_arith)
        requires
            0 <= y,
            0 <= w,
    ;
}

/// A `width` by `height` grid of lists of values.
pub struct Grid<T> {
    width: i32,
    height: i32,
    grid: Vec<Vec<T>>,
}

impl<T> Grid<T> {
    #[verifier::type_invariant]
    spec fn inv(self) -> bool {
        &&& self.grid@.len() == cell_count(self.width, self.height)
        &&& cell_count(self.width, self.height) <= i32::MAX
    }

    /// The width.
    pub closed spec fn width_spec(&self) -> i32 {
        self.width
    }

    /// The height.
    pub closed spec fn height_spec(&self) -> i32 {
        self.height
    }

    /// The cells, row by row.
    pub closed spec fn cells(&self) -> Seq<Seq<T>> {
        self.grid@.map_values(|c: Vec<T>| c@)
    }

    /// The values at `pos`, which must lie in the grid.
    pub open spec fn cell_at(&self, pos: IVec2) -> Seq<T> {
        self.cells()[cell_index(self.width_spec(), pos)]
    }

    /// An empty `width` by `height` grid.
    pub fn new(width: i32, height: i32) -> (r: Grid<T>)
        requires
            cell_count(width, height) <= i32::MAX,
        ensures
            r.width_spec() == width,
            r.height_spec() == height,
            r.cells().len() == cell_count(width, height),
            forall|i: int| 0 <= i < r.cells().len() ==> r.cells()[i].len() == 0,
    {
        let n: i32 = if width > 0 && height > 0 {
            width * height
        } else {
            0
        };
        let mut grid: Vec<Vec<T>> = Vec::new();
        let mut i: i32 = 0;
        while i < n
            invariant
                0 <= i <= n,
                grid@.len() == i,
                forall|j: int| 0 <= j < i ==> grid@[j]@.len() == 0,
            decreases n - i,
        {
            grid.push(Vec::new());
            i = i + 1;
        }
        Grid { width, height, grid }
    }

    /// Whether `pos` lies inside the grid.
    pub fn bounds_check(&self, pos: &IVec2) -> (r: bool)
        ensures
            r == in_bounds(self.width_spec(), self.height_spec(), *pos),
    {
        0 <= pos.x && pos.x < self.width && 0 <= pos.y && pos.y < self.height
    }

    /// The index of the cell at `pos`, row by row; an error outside the grid.
    pub fn pos_to_index(&self, pos: &IVec2) -> (r: Result<usize, GridError>)
        ensures
            r is Ok <==> in_bounds(self.width_spec(), self.height_spec(), *pos),
            r matches Ok(i) ==> i == cell_index(self.width_spec(), *pos) && i < self.cells().len(),
            r matches Err(e) ==> e == GridError::OutOfBounds(*pos),
    {
        if self.bounds_check(pos) {
            proof {
                use_type_invariant(self);
                lemma_index_in_range(self.width, self.height, *pos);
            }
            Ok((pos.y * self.width + pos.x) as usize)
        } else {
            Err(GridError::OutOfBounds(*pos))
        }
    }

    /// The values at `pos`; an error outside the grid.
    pub fn get_cell(&self, pos: &IVec2) -> (r: Result<&Vec<T>, GridError>)
        ensures
            r is Ok <==> in_bounds(self.width_spec(), self.height_spec(), *pos),
            r matches Ok(c) ==> c@ == self.cell_at(*pos),
            r matches Err(e) ==> e == GridError::OutOfBounds(*pos),
    {
        let ind = self.pos_to_index(pos)?;
        Ok(&self.grid[ind])
    }

    /// Adds `val` to the values at `pos`; an error outside the grid, which is
    /// then left as it was.
    pub fn insert_at(&mut self, pos: &IVec2, val: T) -> (r: Result<(), GridError>)
        ensures
            r is Ok <==> in_bounds(old(self).width_spec(), old(self).height_spec(), *pos),
            r matches Err(e) ==> e == GridError::OutOfBounds(*pos),
            final(self).width_spec() == old(self).width_spec(),
            final(self).height_spec() == old(self).height_spec(),
            r is Ok ==> final(self).cells() == old(self).cells().update(
                cell_index(old(self).width_spec(), *pos),
                old(self).cell_at(*pos).push(val),
            ),
            r is Err ==> final(self).cells() == old(self).cells(),
    {
        let ind = self.pos_to_index(pos)?;
        proof {
            use_type_invariant(&*self);
        }
        let mut cell: Vec<T> = Vec::new();
        std::mem::swap(&mut cell, &mut self.grid[ind]);
        cell.push(val);
        std::mem::swap(&mut cell, &mut self.grid[ind]);
        proof {
            assert(self.cells() =~= old(self).cells().update(
                cell_index(old(self).width_spec(), *pos),
                old(self).cell_at(*pos).push(val),
            ));
        }
        Ok(())
    }

    /// A handle on the values at `pos`; an error outside the grid.
    pub fn get_cell_mut(&mut self, pos: &IVec2) -> (r: Result<&mut Vec<T>, GridError>)
        ensures
            r is Ok <==> in_bounds(old(self).width_spec(), old(self).height_spec(), *pos),
            r matches Err(e) ==> e == GridError::OutOfBounds(*pos),
            r matches Ok(c) ==> c@ == old(self).cell_at(*pos),
            r matches Ok(c) ==> final(self).cells() == old(self).cells().update(
                cell_index(old(self).width_spec(), *pos),
                final(c)@,
            ),
            r is Err ==> final(self).cells() == old(self).cells(),
            final(self).width_spec() == old(self).width_spec(),
            final(self).height_spec() == old(self).height_spec(),
    {
        let ind = self.pos_to_index(pos)?;
        proof {
            use_type_invariant(&*self);
        }
        Ok(&mut self.grid[ind])
    }

    /// Whether no value stands at `pos`; an error outside the grid.
    pub fn empty_at(&self, pos: &IVec2) -> (r: Result<bool, GridError>)
        ensures
            r is Ok <==> in_bounds(self.width_spec(), self.height_spec(), *pos),
            r matches Ok(b) ==> b == (self.cell_at(*pos).len() == 0),
            r matches Err(e) ==> e == GridError::OutOfBounds(*pos),
    {
        Ok(self.get_cell(pos)?.len() == 0)
    }

    /// Empties every cell.
    pub fn clear(&mut self)
        ensures
            final(self).width_spec() == old(self).width_spec(),
            final(self).height_spec() == old(self).height_spec(),
            final(self).cells().len() == old(self).cells().len(),
            forall|i: int| 0 <= i < final(self).cells().len() ==> final(self).cells()[i].len() == 0,
    {
        proof {
            use_type_invariant(&*self);
        }
        let n = self.grid.len();
        let mut i: usize = 0;
        while i < n
            invariant
                0 <= i <= n,
                n == self.grid@.len(),
                n == old(self).grid@.len(),
                n == cell_count(self.width, self.height),
                n <= i32::MAX,
                self.width == old(self).width,
                self.height == old(self).height,
                forall|j: int| 0 <= j < i ==> self.grid@[j]@.len() == 0,
            decreases n - i,
        {
            let mut cell: Vec<T> = Vec::new();
            std::mem::swap(&mut cell, &mut self.grid[i]);
            i = i + 1;
        }
    }

    /// The width.
    pub fn width(&self) -> (r: i32)
        ensures
            r == self.width_spec(),
    {
        self.width
    }

    /// The height.
    pub fn height(&self) -> (r: i32)
        ensures
            r == self.height_spec(),
    {
        self.height
    }
}

impl<T: PartialEq> Grid<T> {
    /// Whether a value equal to `val` stands at `pos`; an error outside the
    /// grid. Exact for types whose `==` follows their specified equality.
    pub fn contains_at(&self, pos: &IVec2, val: T) -> (r: Result<bool, GridError>)
        ensures
            r is Ok <==> in_bounds(self.width_spec(), self.height_spec(), *pos),
            r matches Err(e) ==> e == GridError::OutOfBounds(*pos),
            T::obeys_eq_spec() ==> (r matches Ok(b) ==> b == exists|i: int|
                0 <= i < self.cell_at(*pos).len() && self.cell_at(*pos)[i].eq_spec(&val)),
    {
        let cell = self.get_cell(pos)?;
        let mut i: usize = 0;
        while i < cell.len()
            invariant
                i <= cell@.len(),
                cell@ == self.cell_at(*pos),
                in_bounds(self.width_spec(), self.height_spec(), *pos),
                T::obeys_eq_spec() ==> forall|j: int| 0 <= j < i ==> !cell@[j].eq_spec(&val),
            decreases cell@.len() - i,
        {
            if cell[i] == val {
                return Ok(true);
            }
            i = i + 1;
        }
        Ok(false)
    }
}

} // verus!
