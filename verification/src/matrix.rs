//! Dense two-dimensional tables of cells, rows being samples.
//!
//! The cell type is a parameter: nothing here computes with a cell, cells are
//! only stored, copied and handed back.

use vstd::prelude::*;
use crate::error::PipelineError;

verus! {

/// A rectangular table of cells stored row by row.
#[derive(Debug)]
pub struct Matrix<T> {
    cells: Vec<Vec<T>>,
    cols: usize,
}

impl<T> View for Matrix<T> {
    type V = Seq<Seq<T>>;

    /// The rows of the matrix, each a sequence of cells.
    closed spec fn view(&self) -> Seq<Seq<T>> {
        rows_of(self.cells)
    }
}

/// The rows held by a vector of vectors, as sequences.
pub open spec fn rows_of<T>(rows: Vec<Vec<T>>) -> Seq<Seq<T>> {
    Seq::new(rows@.len(), |r: int| rows@[r]@)
}

/// `true` when every row of `rows` has exactly `width` cells.
pub open spec fn rectangular<T>(rows: Seq<Seq<T>>, width: nat) -> bool {
    forall|r: int| 0 <= r < rows.len() ==> (#[trigger] rows[r]).len() == width
}

/// The rows `start..end` of `rows`, each cut down to the columns `left..right`.
pub open spec fn window_of<T>(rows: Seq<Seq<T>>, start: int, end: int, left: int, right: int) -> Seq<
    Seq<T>,
> {
    Seq::new((end - start) as nat, |r: int| rows[start + r].subrange(left, right))
}

/// Column `c` of `rows`, read from top to bottom.
pub open spec fn column_of<T>(rows: Seq<Seq<T>>, c: int) -> Seq<T> {
    Seq::new(rows.len(), |r: int| rows[r][c])
}

impl<T> Matrix<T> {
    /// Number of columns, also defined for a matrix without rows.
    pub closed spec fn width(&self) -> nat {
        self.cols as nat
    }

    /// Number of rows.
    pub open spec fn height(&self) -> nat {
        self@.len()
    }

    /// Every row has `width()` cells.
    pub open spec fn wf(&self) -> bool {
        rectangular(self@, self.width())
    }

    /// Two matrices with the same shape and the same cells.
    pub open spec fn same_as(&self, other: &Matrix<T>) -> bool {
        self@ == other@ && self.width() == other.width()
    }

    /// The matrix without rows and without columns.
    pub fn empty() -> (out: Self)
        ensures
            out.wf(),
            out.height() == 0,
            out.width() == 0,
            out@ == Seq::<Seq<T>>::empty(),
    {
        let out = Matrix { cells: Vec::new(), cols: 0 };
        assert(out@ =~= Seq::<Seq<T>>::empty());
        out
    }

    /// Builds a matrix from its rows. The width is the length of the first row,
    /// zero when there is none; rows of differing lengths are refused.
    pub fn from_rows(rows: Vec<Vec<T>>) -> (out: Result<Self, PipelineError>)
        ensures
            out is Ok <==> rows@.len() == 0 || rectangular(rows_of(rows), rows@[0]@.len() as nat),
            out matches Err(e) ==> e == PipelineError::ShapeMismatch,
            out matches Ok(m) ==> {
                &&& m.wf()
                &&& m@ == rows_of(rows)
                &&& m.width() == (if rows@.len() == 0 { 0 } else { rows@[0]@.len() })
            },
    {
        let cols: usize = if rows.len() == 0 { 0 } else { rows[0].len() };
        Matrix::with_width(rows, cols)
    }

    /// Puts together rows that are known to have `cols` cells each.
    pub(crate) fn assemble(rows: Vec<Vec<T>>, cols: usize) -> (out: Self)
        requires
            rectangular(rows_of(rows), cols as nat),
        ensures
            out.wf(),
            out@ == rows_of(rows),
            out.width() == cols,
    {
        Matrix { cells: rows, cols }
    }

    /// Builds a matrix of `cols` columns from its rows. Unlike `from_rows` this
    /// fixes the width of a matrix without rows. A row that does not have
    /// `cols` cells is refused.
    pub fn with_width(rows: Vec<Vec<T>>, cols: usize) -> (out: Result<Self, PipelineError>)
        ensures
            out is Ok <==> rectangular(rows_of(rows), cols as nat),
            out matches Err(e) ==> e == PipelineError::ShapeMismatch,
            out matches Ok(m) ==> m.wf() && m@ == rows_of(rows) && m.width() == cols,
    {
        let mut r: usize = 0;
        while r < rows.len()
            invariant
                0 <= r <= rows.len(),
                forall|i: int| 0 <= i < r ==> (#[trigger] rows@[i])@.len() == cols,
            decreases rows.len() - r,
        {
            if rows[r].len() != cols {
                assert(rows_of(rows)[r as int].len() != cols);
                return Err(PipelineError::ShapeMismatch);
            }
            r += 1;
        }
        let ghost given = rows_of(rows);
        assert forall|i: int| 0 <= i < given.len() implies (#[trigger] given[i]).len() == cols by {
            assert(given[i] == rows@[i]@);
        }
        Ok(Matrix { cells: rows, cols })
    }

    /// Number of rows.
    pub fn nrows(&self) -> (n: usize)
        ensures
            n == self.height(),
    {
        self.cells.len()
    }

    /// Number of columns.
    pub fn ncols(&self) -> (n: usize)
        ensures
            n == self.width(),
    {
        self.cols
    }

    /// The rows, each a vector of cells.
    pub fn rows(&self) -> (rows: &Vec<Vec<T>>)
        ensures
            rows_of(*rows) == self@,
    {
        &self.cells
    }

    /// Hands the rows out, leaving the matrix behind.
    pub fn into_rows(self) -> (rows: Vec<Vec<T>>)
        ensures
            rows_of(rows) == self@,
    {
        self.cells
    }
}

impl<T: Copy> Matrix<T> {
    /// A matrix of `rows` by `cols` cells that all hold `value`.
    pub fn filled(rows: usize, cols: usize, value: T) -> (out: Self)
        ensures
            out.wf(),
            out.height() == rows,
            out.width() == cols,
            forall|r: int, c: int| 0 <= r < rows && 0 <= c < cols ==> (#[trigger] out@[r][c]) == value,
    {
        let mut cells: Vec<Vec<T>> = Vec::new();
        let mut r: usize = 0;
        while r < rows
            invariant
                0 <= r <= rows,
                cells@.len() == r,
                forall|i: int| 0 <= i < r ==> (#[trigger] cells@[i])@.len() == cols,
                forall|i: int, c: int| 0 <= i < r && 0 <= c < cols ==> (#[trigger] cells@[i]@[c]) == value,
            decreases rows - r,
        {
            let mut row: Vec<T> = Vec::new();
            let mut c: usize = 0;
            while c < cols
                invariant
                    0 <= c <= cols,
                    row@.len() == c,
                    forall|j: int| 0 <= j < c ==> (#[trigger] row@[j]) == value,
                decreases cols - c,
            {
                row.push(value);
                c += 1;
            }
            cells.push(row);
            r += 1;
        }
        let out = Matrix { cells, cols };
        assert forall|i: int| 0 <= i < out@.len() implies (#[trigger] out@[i]).len() == out.width() by {
            assert(out@[i] == out.cells@[i]@);
        }
        assert forall|i: int, c: int| 0 <= i < rows && 0 <= c < cols implies (#[trigger] out@[i][c])
            == value by {
            assert(out@[i] == out.cells@[i]@);
        }
        out
    }

    /// The cell in row `r` and column `c` of a matrix that has one there.
    pub(crate) fn cell(&self, r: usize, c: usize) -> (cell: T)
        requires
            self.wf(),
            r < self.height(),
            c < self.width(),
        ensures
            cell == self@[r as int][c as int],
    {
        assert(self@[r as int] == self.cells@[r as int]@);
        self.cells[r][c]
    }

    /// The cell in row `r` and column `c`, if the matrix has one there.
    pub fn get(&self, r: usize, c: usize) -> (cell: Option<T>)
        requires
            self.wf(),
        ensures
            cell == (if r < self.height() && c < self.width() {
                Some(self@[r as int][c as int])
            } else {
                None
            }),
    {
        if r < self.cells.len() && c < self.cols {
            Some(self.cell(r, c))
        } else {
            None
        }
    }

    /// Copies the rows `start..end` and of each the columns `left..right`, of a
    /// matrix that has them.
    pub(crate) fn block(&self, start: usize, end: usize, left: usize, right: usize) -> (out: Self)
        requires
            self.wf(),
            start <= end <= self.height(),
            left <= right <= self.width(),
        ensures
            out.wf(),
            out.width() == right - left,
            out@ == window_of(self@, start as int, end as int, left as int, right as int),
    {
        let mut cells: Vec<Vec<T>> = Vec::new();
        let mut r: usize = start;
        while r < end
            invariant
                self.wf(),
                start <= r <= end <= self.cells@.len(),
                left <= right <= self.cols,
                cells@.len() == r - start,
                forall|i: int|
                    0 <= i < r - start ==> (#[trigger] cells@[i])@ == self@[start + i].subrange(
                        left as int,
                        right as int,
                    ),
            decreases end - r,
        {
            let source = &self.cells[r];
            assert(source@ == self@[r as int]);
            let mut row: Vec<T> = Vec::new();
            let mut c: usize = left;
            while c < right
                invariant
                    left <= c <= right <= source@.len(),
                    row@ == source@.subrange(left as int, c as int),
                decreases right - c,
            {
                row.push(source[c]);
                assert(row@ =~= source@.subrange(left as int, c + 1));
                c += 1;
            }
            cells.push(row);
            r += 1;
        }
        let out = Matrix { cells, cols: right - left };
        assert(out@ =~= window_of(self@, start as int, end as int, left as int, right as int)) by {
            assert forall|i: int| 0 <= i < out@.len() implies (#[trigger] out@[i]) == window_of(
                self@,
                start as int,
                end as int,
                left as int,
                right as int,
            )[i] by {
                assert(out@[i] == out.cells@[i]@);
            }
        }
        out
    }

    /// Copies the rows `start..end`, cut down to the columns `left..right`.
    /// A range that runs backwards or leaves the matrix is refused.
    pub fn window(&self, start: usize, end: usize, left: usize, right: usize) -> (out: Result<
        Self,
        PipelineError,
    >)
        requires
            self.wf(),
        ensures
            out is Ok <==> start <= end <= self.height() && left <= right <= self.width(),
            out matches Err(e) ==> e == PipelineError::ShapeMismatch,
            out matches Ok(m) ==> {
                &&& m.wf()
                &&& m.width() == right - left
                &&& m@ == window_of(self@, start as int, end as int, left as int, right as int)
            },
    {
        if start > end || end > self.cells.len() || left > right || right > self.cols {
            return Err(PipelineError::ShapeMismatch);
        }
        Ok(self.block(start, end, left, right))
    }

    /// Copies the rows `start..end` of a matrix that has them.
    pub(crate) fn rows_between(&self, start: usize, end: usize) -> (out: Self)
        requires
            self.wf(),
            start <= end <= self.height(),
        ensures
            out.wf(),
            out.width() == self.width(),
            out@ == self@.subrange(start as int, end as int),
    {
        let out = self.block(start, end, 0, self.cols);
        assert(out@ =~= self@.subrange(start as int, end as int)) by {
            assert forall|i: int| 0 <= i < out@.len() implies (#[trigger] out@[i]) == self@[start + i] by {
                assert(self@[start + i].subrange(0, self.cols as int) =~= self@[start + i]);
            }
        }
        out
    }

    /// Copies the rows `start..end` with all their columns. A range that runs
    /// backwards or leaves the matrix is refused.
    pub fn slice_rows(&self, start: usize, end: usize) -> (out: Result<Self, PipelineError>)
        requires
            self.wf(),
        ensures
            out is Ok <==> start <= end <= self.height(),
            out matches Err(e) ==> e == PipelineError::ShapeMismatch,
            out matches Ok(m) ==> {
                &&& m.wf()
                &&& m.width() == self.width()
                &&& m@ == self@.subrange(start as int, end as int)
            },
    {
        if start > end || end > self.cells.len() {
            return Err(PipelineError::ShapeMismatch);
        }
        Ok(self.rows_between(start, end))
    }

    /// Copies column `c` of a matrix that has it, from top to bottom.
    pub(crate) fn column_cells(&self, c: usize) -> (out: Vec<T>)
        requires
            self.wf(),
            c < self.width(),
        ensures
            out@ == column_of(self@, c as int),
    {
        let mut out: Vec<T> = Vec::new();
        let mut r: usize = 0;
        while r < self.cells.len()
            invariant
                self.wf(),
                c < self.cols,
                0 <= r <= self.cells@.len(),
                out@.len() == r,
                forall|i: int| 0 <= i < r ==> (#[trigger] out@[i]) == self@[i][c as int],
            decreases self.cells@.len() - r,
        {
            out.push(self.cell(r, c));
            r += 1;
        }
        assert(out@ =~= column_of(self@, c as int));
        out
    }

    /// Copies column `c` from top to bottom, if the matrix has it.
    pub fn column(&self, c: usize) -> (out: Option<Vec<T>>)
        requires
            self.wf(),
        ensures
            out is Some <==> c < self.width(),
            out matches Some(v) ==> v@ == column_of(self@, c as int),
    {
        if c < self.cols {
            Some(self.column_cells(c))
        } else {
            None
        }
    }
}

} // verus!
