//! Column-wise source tables and the projection of named columns into a matrix.

use vstd::prelude::*;
use crate::error::PipelineError;
use crate::matrix::Matrix;

verus! {

/// The names held by a vector of strings, as character sequences.
pub open spec fn names_of(names: Vec<String>) -> Seq<Seq<char>> {
    Seq::new(names@.len(), |i: int| names@[i]@)
}

/// The names of a list of string slices, as character sequences.
pub open spec fn names_in(list: Seq<&str>) -> Seq<Seq<char>> {
    Seq::new(list.len(), |i: int| list[i]@)
}

/// Makes owned column names of a list of string slices, keeping the order.
pub fn owned_names(list: &[&str]) -> (out: Vec<String>)
    ensures
        names_of(out) == names_in(list@),
{
    let mut out: Vec<String> = Vec::new();
    let mut i: usize = 0;
    while i < list.len()
        invariant
            0 <= i <= list@.len(),
            out@.len() == i,
            forall|k: int| 0 <= k < i ==> (#[trigger] out@[k])@ == list@[k]@,
        decreases list@.len() - i,
    {
        out.push(list[i].to_owned());
        i += 1;
    }
    assert(names_of(out) =~= names_in(list@));
    out
}

/// The columns held by a vector of vectors, as sequences.
pub open spec fn columns_of<T>(columns: Vec<Vec<Option<T>>>) -> Seq<Seq<Option<T>>> {
    Seq::new(columns@.len(), |i: int| columns@[i]@)
}

/// `i` is the first position at which `names` holds `name`.
pub open spec fn is_first_index(names: Seq<Seq<char>>, name: Seq<char>, i: int) -> bool {
    &&& 0 <= i < names.len()
    &&& names[i] == name
    &&& forall|k: int| 0 <= k < i ==> names[k] != name
}

/// The first position at which `names` holds `name`. Meaningful only where the
/// name occurs.
pub open spec fn index_of_name(names: Seq<Seq<char>>, name: Seq<char>) -> int {
    choose|i: int| is_first_index(names, name, i)
}

/// Every name of `wanted` is a name of `names`.
pub open spec fn all_present(names: Seq<Seq<char>>, wanted: Seq<Seq<char>>) -> bool {
    forall|j: int| 0 <= j < wanted.len() ==> names.contains(#[trigger] wanted[j])
}

/// Every cell of column `c` holds a number.
pub open spec fn column_is_numeric<T>(column: Seq<Option<T>>) -> bool {
    forall|r: int| 0 <= r < column.len() ==> (#[trigger] column[r]) is Some
}

/// Every cell of every column named in `wanted` holds a number.
pub open spec fn all_numeric<T>(
    names: Seq<Seq<char>>,
    columns: Seq<Seq<Option<T>>>,
    wanted: Seq<Seq<char>>,
) -> bool {
    forall|j: int|
        0 <= j < wanted.len() ==> column_is_numeric(
            columns[index_of_name(names, #[trigger] wanted[j])],
        )
}

/// The matrix rows that the columns named in `wanted` make, in the order of
/// `wanted`: cell `j` of row `r` is cell `r` of the column named `wanted[j]`.
pub open spec fn projected_rows<T>(
    names: Seq<Seq<char>>,
    columns: Seq<Seq<Option<T>>>,
    height: nat,
    wanted: Seq<Seq<char>>,
) -> Seq<Seq<T>> {
    Seq::new(
        height,
        |r: int|
            Seq::new(wanted.len(), |j: int| columns[index_of_name(names, wanted[j])][r]->Some_0),
    )
}

/// A position that satisfies `is_first_index` is the one that `index_of_name` means.
pub proof fn first_index_is_unique(names: Seq<Seq<char>>, name: Seq<char>, i: int)
    requires
        is_first_index(names, name, i),
    ensures
        index_of_name(names, name) == i,
{
    let j = index_of_name(names, name);
    assert(is_first_index(names, name, j));
    if i < j {
        assert(names[i] != name);
    } else if j < i {
        assert(names[j] != name);
    }
}

/// A table of named columns of equal length. A cell is either a number or
/// empty, the latter standing for a null or for a value that is not a number.
#[derive(Debug)]
pub struct Table<T> {
    names: Vec<String>,
    columns: Vec<Vec<Option<T>>>,
    rows: usize,
}

impl<T> Table<T> {
    /// The column names in source order.
    pub closed spec fn names(&self) -> Seq<Seq<char>> {
        names_of(self.names)
    }

    /// The columns in source order.
    pub closed spec fn columns(&self) -> Seq<Seq<Option<T>>> {
        columns_of(self.columns)
    }

    /// Number of rows, also defined for a table without columns.
    pub closed spec fn height(&self) -> nat {
        self.rows as nat
    }

    /// There is one name per column, and every column has `height()` cells.
    pub open spec fn wf(&self) -> bool {
        &&& self.names().len() == self.columns().len()
        &&& forall|c: int| 0 <= c < self.columns().len() ==> (#[trigger] self.columns()[c]).len() == self.height()
    }

    /// Builds a table from column names and columns. The height is the length
    /// of the first column, zero when there is none. Refused with a shape
    /// mismatch: a number of names other than the number of columns, and
    /// columns of differing lengths.
    pub fn new(names: Vec<String>, columns: Vec<Vec<Option<T>>>) -> (out: Result<Self, PipelineError>)
        ensures
            out is Ok <==> {
                &&& names@.len() == columns@.len()
                &&& forall|c: int|
                    0 <= c < columns@.len() ==> (#[trigger] columns@[c])@.len() == columns@[0]@.len()
            },
            out matches Err(e) ==> e == PipelineError::ShapeMismatch,
            out matches Ok(t) ==> {
                &&& t.wf()
                &&& t.names() == names_of(names)
                &&& t.columns() == columns_of(columns)
                &&& t.height() == (if columns@.len() == 0 { 0 } else { columns@[0]@.len() })
            },
    {
        if names.len() != columns.len() {
            return Err(PipelineError::ShapeMismatch);
        }
        let rows: usize = if columns.len() == 0 { 0 } else { columns[0].len() };
        let mut c: usize = 0;
        while c < columns.len()
            invariant
                0 <= c <= columns@.len(),
                columns@.len() > 0 ==> rows == columns@[0]@.len(),
                forall|i: int| 0 <= i < c ==> (#[trigger] columns@[i])@.len() == rows,
            decreases columns@.len() - c,
        {
            if columns[c].len() != rows {
                return Err(PipelineError::ShapeMismatch);
            }
            c += 1;
        }
        let out = Table { names, columns, rows };
        assert forall|i: int| 0 <= i < out.columns().len() implies (#[trigger] out.columns()[i]).len()
            == out.height() by {
            assert(out.columns()[i] == out.columns@[i]@);
        }
        Ok(out)
    }

    /// Number of rows.
    pub fn nrows(&self) -> (n: usize)
        ensures
            n == self.height(),
    {
        self.rows
    }

    /// Number of columns.
    pub fn ncols(&self) -> (n: usize)
        requires
            self.wf(),
        ensures
            n == self.names().len(),
    {
        self.names.len()
    }

    /// Finds the first column called `name`.
    pub fn position(&self, name: &String) -> (out: Option<usize>)
        requires
            self.wf(),
        ensures
            out is Some <==> self.names().contains(name@),
            out matches Some(i) ==> is_first_index(self.names(), name@, i as int) && i
                == index_of_name(self.names(), name@),
    {
        let mut i: usize = 0;
        while i < self.names.len()
            invariant
                0 <= i <= self.names@.len(),
                forall|k: int| 0 <= k < i ==> self.names()[k] != name@,
            decreases self.names@.len() - i,
        {
            assert(self.names()[i as int] == self.names@[i as int]@);
            if self.names[i] == *name {
                proof {
                    first_index_is_unique(self.names(), name@, i as int);
                }
                return Some(i);
            }
            i += 1;
        }
        None
    }

    /// Tells whether every name of `wanted` is the name of a column.
    pub fn has_columns(&self, wanted: &Vec<String>) -> (b: bool)
        requires
            self.wf(),
        ensures
            b == all_present(self.names(), names_of(*wanted)),
    {
        let mut j: usize = 0;
        while j < wanted.len()
            invariant
                self.wf(),
                0 <= j <= wanted@.len(),
                forall|k: int| 0 <= k < j ==> self.names().contains(#[trigger] names_of(*wanted)[k]),
            decreases wanted@.len() - j,
        {
            assert(names_of(*wanted)[j as int] == wanted@[j as int]@);
            if self.position(&wanted[j]).is_none() {
                return false;
            }
            j += 1;
        }
        true
    }
}

/// The error with which `Table::project` answers, if it refuses `wanted`.
pub open spec fn projection_refusal<T>(table: &Table<T>, wanted: Seq<Seq<char>>) -> Option<
    PipelineError,
> {
    if !all_present(table.names(), wanted) {
        Some(PipelineError::SchemaMismatch)
    } else if !all_numeric(table.names(), table.columns(), wanted) {
        Some(PipelineError::NonNumericCell)
    } else {
        None
    }
}

impl<T: Copy> Table<T> {
    /// Copies the columns named in `wanted` into a matrix, in the order of
    /// `wanted`, whatever their order in the table.
    ///
    /// A name that no column bears is a schema mismatch, judged before any
    /// cell is read. An empty cell in a named column is refused too.
    pub fn project(&self, wanted: &Vec<String>) -> (out: Result<Matrix<T>, PipelineError>)
        requires
            self.wf(),
        ensures
            match out {
                Ok(m) => {
                    &&& projection_refusal(self, names_of(*wanted)) is None
                    &&& m.wf()
                    &&& m.height() == self.height()
                    &&& m.width() == wanted@.len()
                    &&& m@ == projected_rows(
                        self.names(),
                        self.columns(),
                        self.height(),
                        names_of(*wanted),
                    )
                },
                Err(e) => projection_refusal(self, names_of(*wanted)) == Some(e),
            },
    {
        let ghost names = self.names();
        let ghost columns = self.columns();
        let ghost asked = names_of(*wanted);
        let mut places: Vec<usize> = Vec::new();
        let mut j: usize = 0;
        while j < wanted.len()
            invariant
                self.wf(),
                names == self.names(),
                asked == names_of(*wanted),
                0 <= j <= wanted@.len(),
                places@.len() == j,
                forall|k: int| 0 <= k < j ==> names.contains(#[trigger] asked[k]),
                forall|k: int|
                    0 <= k < j ==> (#[trigger] places@[k]) == index_of_name(names, asked[k])
                        && places@[k] < names.len(),
            decreases wanted@.len() - j,
        {
            assert(asked[j as int] == wanted@[j as int]@);
            match self.position(&wanted[j]) {
                Some(i) => {
                    places.push(i);
                },
                None => {
                    return Err(PipelineError::SchemaMismatch);
                },
            }
            j += 1;
        }
        assert(all_present(names, asked));
        let width = wanted.len();
        let mut rows: Vec<Vec<T>> = Vec::new();
        let mut r: usize = 0;
        while r < self.rows
            invariant
                self.wf(),
                names == self.names(),
                columns == self.columns(),
                asked == names_of(*wanted),
                width == asked.len(),
                all_present(names, asked),
                places@.len() == width,
                forall|k: int|
                    0 <= k < width ==> (#[trigger] places@[k]) == index_of_name(names, asked[k])
                        && places@[k] < names.len(),
                0 <= r <= self.rows,
                rows@.len() == r,
                forall|a: int, k: int|
                    0 <= a < r && 0 <= k < width ==> (#[trigger] columns[index_of_name(
                        names,
                        asked[k],
                    )][a]) is Some,
                forall|a: int|
                    0 <= a < r ==> (#[trigger] rows@[a])@ == projected_rows(
                        names,
                        columns,
                        self.height(),
                        asked,
                    )[a],
            decreases self.rows - r,
        {
            let mut row: Vec<T> = Vec::new();
            let mut k: usize = 0;
            while k < width
                invariant
                    self.wf(),
                    names == self.names(),
                    columns == self.columns(),
                    width == asked.len(),
                    asked == names_of(*wanted),
                    all_present(names, asked),
                    places@.len() == width,
                    forall|b: int|
                        0 <= b < width ==> (#[trigger] places@[b]) == index_of_name(names, asked[b])
                            && places@[b] < names.len(),
                    r < self.rows,
                    0 <= k <= width,
                    row@.len() == k,
                    forall|b: int|
                        0 <= b < k ==> (#[trigger] columns[index_of_name(names, asked[b])][r as int])
                            is Some,
                    forall|b: int|
                        0 <= b < k ==> (#[trigger] row@[b]) == columns[index_of_name(
                            names,
                            asked[b],
                        )][r as int]->Some_0,
                decreases width - k,
            {
                let place = places[k];
                assert(columns[place as int] == self.columns@[place as int]@);
                assert(columns[place as int].len() == self.height());
                match self.columns[place][r] {
                    Some(cell) => {
                        row.push(cell);
                    },
                    None => {
                        proof {
                            let column = columns[index_of_name(names, asked[k as int])];
                            assert(column == columns[place as int]);
                            assert(column[r as int] is None);
                            assert(!column_is_numeric(column));
                            assert(!all_numeric(names, columns, asked));
                        }
                        return Err(PipelineError::NonNumericCell);
                    },
                }
                k += 1;
            }
            assert(row@ =~= projected_rows(names, columns, self.height(), asked)[r as int]);
            rows.push(row);
            r += 1;
        }
        assert(all_numeric(names, columns, asked)) by {
            assert forall|k: int| 0 <= k < asked.len() implies column_is_numeric(
                columns[index_of_name(names, #[trigger] asked[k])],
            ) by {
                let column = columns[index_of_name(names, asked[k])];
                assert(places@[k] == index_of_name(names, asked[k]));
                assert(column.len() == self.height());
                assert forall|a: int| 0 <= a < column.len() implies (#[trigger] column[a]) is Some by {
                    assert(columns[index_of_name(names, asked[k])][a] is Some);
                }
            }
        }
        assert(crate::matrix::rows_of(rows) =~= projected_rows(names, columns, self.height(), asked));
        Ok(Matrix::assemble(rows, width))
    }
}

} // verus!
