//! Encoders that are fitted on a matrix and can be undone afterwards.
//!
//! One-hot encoding is done here in full, on whole-number category codes.
//! Scaling needs arithmetic on cells, which this crate does not perform: a
//! `Scaler` keeps the fitted state of a scaling that the caller carries out and
//! holds the caller to the shape rules.

use vstd::prelude::*;
use crate::error::PipelineError;
use crate::matrix::{column_of, Matrix};

verus! {

/// Each element is smaller than every later one.
pub open spec fn strictly_increasing(s: Seq<i64>) -> bool {
    forall|i: int, j: int| 0 <= i < j < s.len() ==> s[i] < s[j]
}

/// `cats` lists the distinct values of `labels` in ascending order.
pub open spec fn is_category_list(cats: Seq<i64>, labels: Seq<i64>) -> bool {
    &&& strictly_increasing(cats)
    &&& forall|a: int| 0 <= a < cats.len() ==> labels.contains(#[trigger] cats[a])
    &&& forall|j: int| 0 <= j < labels.len() ==> cats.contains(#[trigger] labels[j])
}

/// The indicator rows of `labels` over `cats`: row `r` holds a one in the
/// column whose category is `labels[r]` and zeros elsewhere.
pub open spec fn one_hot_rows(cats: Seq<i64>, labels: Seq<i64>) -> Seq<Seq<u8>> {
    Seq::new(
        labels.len(),
        |r: int| Seq::new(cats.len(), |c: int| if cats[c] == labels[r] { 1u8 } else { 0u8 }),
    )
}

/// The sum of the cells of a row.
pub open spec fn row_sum(row: Seq<u8>) -> int
    decreases row.len(),
{
    if row.len() == 0 {
        0
    } else {
        row_sum(row.drop_last()) + row.last()
    }
}

/// The first column that holds the largest cell of `row`; zero for an empty row.
pub open spec fn first_max(row: Seq<u8>) -> int
    decreases row.len(),
{
    if row.len() <= 1 {
        0
    } else {
        let best = first_max(row.drop_last());
        if row.last() > row[best] {
            row.len() - 1
        } else {
            best
        }
    }
}

/// Column `c` holds the largest cell of `row`, and no earlier column does.
pub open spec fn is_first_max(row: Seq<u8>, c: int) -> bool {
    &&& 0 <= c < row.len()
    &&& forall|j: int| 0 <= j < row.len() ==> row[j] <= row[c]
    &&& forall|j: int| 0 <= j < c ==> row[j] < row[c]
}

/// The categories that the arg-max columns of `rows` stand for, one row each.
pub open spec fn decoded_rows(cats: Seq<i64>, rows: Seq<Seq<u8>>) -> Seq<Seq<i64>> {
    Seq::new(rows.len(), |r: int| seq![cats[first_max(rows[r])]])
}

/// `first_max` names the first column with the largest cell.
pub proof fn first_max_is_first_max(row: Seq<u8>)
    requires
        row.len() > 0,
    ensures
        is_first_max(row, first_max(row)),
    decreases row.len(),
{
    if row.len() > 1 {
        first_max_is_first_max(row.drop_last());
        assert(forall|j: int| 0 <= j < row.len() - 1 ==> row[j] == row.drop_last()[j]);
    }
}

proof fn zero_row_sums_to_zero(row: Seq<u8>)
    requires
        forall|j: int| 0 <= j < row.len() ==> row[j] == 0,
    ensures
        row_sum(row) == 0,
    decreases row.len(),
{
    if row.len() > 0 {
        zero_row_sums_to_zero(row.drop_last());
    }
}

/// A row with a single one and zeros elsewhere sums to one, and its arg-max
/// is the column of the one.
pub proof fn unit_row_properties(row: Seq<u8>, hot: int)
    requires
        0 <= hot < row.len(),
        row[hot] == 1,
        forall|j: int| 0 <= j < row.len() && j != hot ==> row[j] == 0,
    ensures
        row_sum(row) == 1,
        first_max(row) == hot,
    decreases row.len(),
{
    let front = row.drop_last();
    if hot == row.len() - 1 {
        zero_row_sums_to_zero(front);
        if row.len() > 1 {
            first_max_is_first_max(front);
        }
    } else {
        unit_row_properties(front, hot);
    }
}

/// Two ascending lists with the same elements are the same list.
pub proof fn ascending_lists_with_same_elements_are_equal(a: Seq<i64>, b: Seq<i64>)
    requires
        strictly_increasing(a),
        strictly_increasing(b),
        forall|i: int| 0 <= i < a.len() ==> b.contains(#[trigger] a[i]),
        forall|i: int| 0 <= i < b.len() ==> a.contains(#[trigger] b[i]),
    ensures
        a == b,
    decreases a.len(),
{
    if a.len() == 0 {
        if b.len() > 0 {
            assert(a.contains(b[0]));
        }
        assert(a =~= b);
    } else {
        assert(b.contains(a[0]));
        let la = a.last();
        let lb = b.last();
        assert(b.contains(a[a.len() - 1]));
        assert(a.contains(b[b.len() - 1]));
        assert(la <= lb);
        assert(lb <= la);
        let fa = a.drop_last();
        let fb = b.drop_last();
        assert forall|i: int| 0 <= i < fa.len() implies fb.contains(#[trigger] fa[i]) by {
            assert(b.contains(a[i]));
            let k = choose|k: int| 0 <= k < b.len() && b[k] == a[i];
            assert(a[i] < la);
            assert(k < b.len() - 1);
            assert(fb[k] == fa[i]);
        }
        assert forall|i: int| 0 <= i < fb.len() implies fa.contains(#[trigger] fb[i]) by {
            assert(a.contains(b[i]));
            let k = choose|k: int| 0 <= k < a.len() && a[k] == b[i];
            assert(b[i] < lb);
            assert(k < a.len() - 1);
            assert(fa[k] == fb[i]);
        }
        ascending_lists_with_same_elements_are_equal(fa, fb);
        assert(a =~= fa.push(la));
        assert(b =~= fb.push(lb));
    }
}

/// Puts `value` into the ascending list `cats` unless it is there already.
fn insert_category(cats: &mut Vec<i64>, value: i64)
    requires
        strictly_increasing(old(cats)@),
    ensures
        strictly_increasing(final(cats)@),
        final(cats)@.contains(value),
        forall|i: int| 0 <= i < old(cats)@.len() ==> final(cats)@.contains(#[trigger] old(cats)@[i]),
        forall|i: int|
            0 <= i < final(cats)@.len() ==> (#[trigger] final(cats)@[i]) == value || old(
                cats,
            )@.contains(final(cats)@[i]),
{
    let mut p: usize = 0;
    while p < cats.len() && cats[p] < value
        invariant
            0 <= p <= cats@.len(),
            cats@ == old(cats)@,
            forall|j: int| 0 <= j < p ==> cats@[j] < value,
        decreases cats@.len() - p,
    {
        p += 1;
    }
    if p < cats.len() && cats[p] == value {
        assert(cats@[p as int] == value);
        return ;
    }
    let ghost before = cats@;
    cats.insert(p, value);
    proof {
        let after = cats@;
        assert(after.len() == before.len() + 1);
        assert(after[p as int] == value);
        assert forall|i: int, j: int| 0 <= i < j < after.len() implies after[i] < after[j] by {
            if j < p {
                assert(after[i] == before[i] && after[j] == before[j]);
            } else if j == p {
                assert(after[i] == before[i]);
            } else if i < p {
                assert(after[i] == before[i] && after[j] == before[j - 1]);
                assert(before[i] < value);
                if j - 1 > p {
                    assert(before[p as int] < before[j - 1]);
                }
            } else if i == p {
                assert(after[j] == before[j - 1]);
                if j - 1 > p {
                    assert(before[p as int] < before[j - 1]);
                }
            } else {
                assert(after[i] == before[i - 1] && after[j] == before[j - 1]);
            }
        }
        assert forall|i: int| 0 <= i < before.len() implies after.contains(#[trigger] before[i]) by {
            if i < p {
                assert(after[i] == before[i]);
            } else {
                assert(after[i + 1] == before[i]);
            }
        }
        assert forall|i: int| 0 <= i < after.len() implies (#[trigger] after[i]) == value
            || before.contains(after[i]) by {
            if i < p {
                assert(before[i] == after[i]);
            } else if i > p {
                assert(before[i - 1] == after[i]);
            }
        }
    }
}

/// A one-hot encoder over whole-number category codes.
///
/// Fitting records the distinct codes of a single-column matrix in ascending
/// order; column `c` of the encoding stands for the `c`-th of them.
#[derive(Debug)]
pub struct OneHot {
    categories: Vec<i64>,
    fitted: bool,
}

impl OneHot {
    /// The categories recorded by the last fit, in column order.
    pub closed spec fn categories(&self) -> Seq<i64> {
        self.categories@
    }

    /// Whether the encoder has been fitted.
    pub closed spec fn is_fitted(&self) -> bool {
        self.fitted
    }

    /// The recorded categories ascend, and an unfitted encoder has none.
    pub open spec fn wf(&self) -> bool {
        &&& strictly_increasing(self.categories())
        &&& !self.is_fitted() ==> self.categories().len() == 0
    }

    /// An encoder that has not seen any data.
    pub fn new() -> (out: Self)
        ensures
            out.wf(),
            !out.is_fitted(),
            out.categories() == Seq::<i64>::empty(),
    {
        OneHot { categories: Vec::new(), fitted: false }
    }

    /// Tells whether the encoder has been fitted.
    pub fn fitted(&self) -> (b: bool)
        ensures
            b == self.is_fitted(),
    {
        self.fitted
    }

    /// Number of categories, which is the number of columns of an encoding.
    pub fn num_classes(&self) -> (k: usize)
        ensures
            k == self.categories().len(),
    {
        self.categories.len()
    }

    /// The category that column `column` stands for.
    pub fn category(&self, column: usize) -> (out: Option<i64>)
        ensures
            out == (if column < self.categories().len() {
                Some(self.categories()[column as int])
            } else {
                None
            }),
    {
        if column < self.categories.len() {
            Some(self.categories[column])
        } else {
            None
        }
    }

    /// Fits the encoder on the single column of `labels` and encodes it.
    ///
    /// The encoding has one row per label and one column per distinct label.
    /// A matrix that does not have exactly one column is refused, and the
    /// encoder is then left as it was.
    pub fn fit_transform(&mut self, labels: &Matrix<i64>) -> (out: Result<Matrix<u8>, PipelineError>)
        requires
            old(self).wf(),
            labels.wf(),
        ensures
            final(self).wf(),
            out is Ok <==> labels.width() == 1,
            out matches Err(e) ==> e == PipelineError::ShapeMismatch && *final(self) == *old(self),
            out matches Ok(m) ==> {
                &&& final(self).is_fitted()
                &&& is_category_list(final(self).categories(), column_of(labels@, 0))
                &&& m.wf()
                &&& m.height() == labels.height()
                &&& m.width() == final(self).categories().len()
                &&& m.width() == column_of(labels@, 0).to_set().len()
                &&& m@ == one_hot_rows(final(self).categories(), column_of(labels@, 0))
                &&& forall|r: int| 0 <= r < m.height() ==> row_sum(#[trigger] m@[r]) == 1
            },
    {
        if labels.ncols() != 1 {
            return Err(PipelineError::ShapeMismatch);
        }
        let column = labels.column_cells(0);
        let mut cats: Vec<i64> = Vec::new();
        let mut i: usize = 0;
        while i < column.len()
            invariant
                0 <= i <= column@.len(),
                strictly_increasing(cats@),
                forall|a: int| 0 <= a < cats@.len() ==> column@.take(i as int).contains(#[trigger] cats@[a]),
                forall|j: int| 0 <= j < i ==> cats@.contains(#[trigger] column@[j]),
            decreases column@.len() - i,
        {
            let ghost before = cats@;
            insert_category(&mut cats, column[i]);
            proof {
                let seen = column@.take(i as int);
                let now = column@.take(i + 1);
                assert forall|a: int| 0 <= a < cats@.len() implies now.contains(#[trigger] cats@[a]) by {
                    if cats@[a] == column@[i as int] {
                        assert(now[i as int] == column@[i as int]);
                    } else {
                        assert(before.contains(cats@[a]));
                        let b = choose|b: int| 0 <= b < before.len() && before[b] == cats@[a];
                        assert(seen.contains(before[b]));
                        let j = choose|j: int| 0 <= j < seen.len() && seen[j] == before[b];
                        assert(now[j] == cats@[a]);
                    }
                }
                assert forall|j: int| 0 <= j < i + 1 implies cats@.contains(#[trigger] column@[j]) by {
                    if j < i {
                        assert(before.contains(column@[j]));
                        let b = choose|b: int| 0 <= b < before.len() && before[b] == column@[j];
                        assert(cats@.contains(before[b]));
                    }
                }
            }
            i += 1;
        }
        assert(column@.take(column@.len() as int) =~= column@);
        let k = cats.len();
        let mut rows: Vec<Vec<u8>> = Vec::new();
        let mut r: usize = 0;
        while r < column.len()
            invariant
                0 <= r <= column@.len(),
                k == cats@.len(),
                rows@.len() == r,
                forall|a: int| 0 <= a < r ==> (#[trigger] rows@[a])@ == one_hot_rows(cats@, column@)[a],
            decreases column@.len() - r,
        {
            let label = column[r];
            let mut row: Vec<u8> = Vec::new();
            let mut c: usize = 0;
            while c < k
                invariant
                    0 <= c <= k,
                    k == cats@.len(),
                    row@.len() == c,
                    forall|b: int|
                        0 <= b < c ==> (#[trigger] row@[b]) == (if cats@[b] == label {
                            1u8
                        } else {
                            0u8
                        }),
                decreases k - c,
            {
                row.push(if cats[c] == label { 1u8 } else { 0u8 });
                c += 1;
            }
            assert(row@ =~= one_hot_rows(cats@, column@)[r as int]);
            rows.push(row);
            r += 1;
        }
        assert(crate::matrix::rows_of(rows) =~= one_hot_rows(cats@, column@));
        proof {
            if column@.len() == 0 {
                if cats@.len() > 0 {
                    assert(column@.contains(cats@[0]));
                }
            } else {
                assert(rows@[0]@ == one_hot_rows(cats@, column@)[0]);
            }
        }
        let encoded = Matrix::assemble(rows, k);
        proof {
            one_column_per_distinct_label(cats@, column@);
            assert forall|r: int| 0 <= r < encoded.height() implies row_sum(#[trigger] encoded@[r]) == 1 by {
                encoded_row_is_unit(cats@, column@, r);
            }
        }
        self.categories = cats;
        self.fitted = true;
        Ok(encoded)
    }

    /// Maps each row of an encoding, or of any scores over the same columns,
    /// back to the category of its first largest cell.
    ///
    /// Refused with a shape mismatch: an encoder that was never fitted, a
    /// matrix whose column count is not the number of categories, and rows
    /// without any column to choose from.
    pub fn inverse_transform(&self, encoded: &Matrix<u8>) -> (out: Result<Matrix<i64>, PipelineError>)
        requires
            self.wf(),
            encoded.wf(),
        ensures
            out is Ok <==> {
                &&& self.is_fitted()
                &&& encoded.width() == self.categories().len()
                &&& (encoded.height() > 0 ==> encoded.width() > 0)
            },
            out matches Err(e) ==> e == PipelineError::ShapeMismatch,
            out matches Ok(m) ==> {
                &&& m.wf()
                &&& m.width() == 1
                &&& m@ == decoded_rows(self.categories(), encoded@)
            },
    {
        let k = self.categories.len();
        let n = encoded.nrows();
        if !self.fitted || encoded.ncols() != k || (n > 0 && k == 0) {
            return Err(PipelineError::ShapeMismatch);
        }
        let mut rows: Vec<Vec<i64>> = Vec::new();
        let mut r: usize = 0;
        while r < n
            invariant
                self.wf(),
                encoded.wf(),
                0 <= r <= n,
                n == encoded.height(),
                k == self.categories@.len(),
                k == encoded.width(),
                n > 0 ==> k > 0,
                rows@.len() == r,
                forall|a: int|
                    0 <= a < r ==> (#[trigger] rows@[a])@ == decoded_rows(self.categories@, encoded@)[a],
            decreases n - r,
        {
            let ghost scores = encoded@[r as int];
            let mut best: usize = 0;
            let mut high: u8 = encoded.cell(r, 0);
            let mut c: usize = 1;
            assert(scores.take(1).drop_last() =~= scores.take(0));
            while c < k
                invariant
                    encoded.wf(),
                    r < encoded.height(),
                    k == encoded.width(),
                    scores == encoded@[r as int],
                    scores.len() == k,
                    1 <= c <= k,
                    0 <= best < c,
                    best == first_max(scores.take(c as int)),
                    high == scores[best as int],
                decreases k - c,
            {
                let cell = encoded.cell(r, c);
                assert(scores.take(c + 1).drop_last() =~= scores.take(c as int));
                assert(scores.take(c + 1).last() == scores[c as int]);
                assert(scores.take(c + 1)[best as int] == scores[best as int]);
                if cell > high {
                    best = c;
                    high = cell;
                }
                c += 1;
            }
            assert(scores.take(k as int) =~= scores);
            let mut row: Vec<i64> = Vec::new();
            row.push(self.categories[best]);
            assert(row@ =~= seq![self.categories@[first_max(scores)]]);
            rows.push(row);
            r += 1;
        }
        assert(crate::matrix::rows_of(rows) =~= decoded_rows(self.categories@, encoded@));
        Ok(Matrix::assemble(rows, 1))
    }
}

/// An encoding has exactly one column for each distinct label.
pub proof fn one_column_per_distinct_label(cats: Seq<i64>, labels: Seq<i64>)
    requires
        is_category_list(cats, labels),
    ensures
        cats.len() == labels.to_set().len(),
{
    assert(cats.no_duplicates()) by {
        assert forall|i: int, j: int| 0 <= i < cats.len() && 0 <= j < cats.len() && i != j implies cats[i]
            != cats[j] by {
            if i < j {
                assert(cats[i] < cats[j]);
            } else {
                assert(cats[j] < cats[i]);
            }
        }
    }
    cats.unique_seq_to_set();
    assert(cats.to_set() =~= labels.to_set()) by {
        assert forall|v: i64| cats.to_set().contains(v) <==> labels.to_set().contains(v) by {
            if cats.contains(v) {
                let a = choose|a: int| 0 <= a < cats.len() && cats[a] == v;
                assert(labels.contains(cats[a]));
            }
            if labels.contains(v) {
                let j = choose|j: int| 0 <= j < labels.len() && labels[j] == v;
                assert(cats.contains(labels[j]));
            }
        }
    }
}

/// Every row of an encoding sums to one, and decoding it gives the label back.
pub proof fn encoded_row_is_unit(cats: Seq<i64>, labels: Seq<i64>, r: int)
    requires
        is_category_list(cats, labels),
        0 <= r < labels.len(),
    ensures
        row_sum(one_hot_rows(cats, labels)[r]) == 1,
        cats[first_max(one_hot_rows(cats, labels)[r])] == labels[r],
{
    let row = one_hot_rows(cats, labels)[r];
    assert(cats.contains(labels[r]));
    let hot = choose|a: int| 0 <= a < cats.len() && cats[a] == labels[r];
    assert forall|j: int| 0 <= j < row.len() && j != hot implies row[j] == 0 by {
        if j < hot {
            assert(cats[j] < cats[hot]);
        } else {
            assert(cats[hot] < cats[j]);
        }
    }
    unit_row_properties(row, hot);
}

/// Decoding undoes encoding: the arg-max categories of an encoding are the
/// labels it was made from.
pub proof fn decoding_undoes_encoding(cats: Seq<i64>, labels: Seq<i64>)
    requires
        is_category_list(cats, labels),
    ensures
        decoded_rows(cats, one_hot_rows(cats, labels)) == Seq::new(
            labels.len(),
            |r: int| seq![labels[r]],
        ),
{
    let decoded = decoded_rows(cats, one_hot_rows(cats, labels));
    let wanted = Seq::new(labels.len(), |r: int| seq![labels[r]]);
    assert forall|r: int| 0 <= r < labels.len() implies decoded[r] == wanted[r] by {
        encoded_row_is_unit(cats, labels, r);
    }
    assert(decoded =~= wanted);
}

/// A second fit keeps the column order of the first: whenever two label
/// columns hold the same distinct values, in whatever order and number, their
/// category lists are the same list.
pub proof fn refit_keeps_column_order(first: Seq<i64>, second: Seq<i64>, a: Seq<i64>, b: Seq<i64>)
    requires
        is_category_list(first, a),
        is_category_list(second, b),
        a.to_set() == b.to_set(),
    ensures
        first == second,
{
    assert forall|i: int| 0 <= i < first.len() implies second.contains(#[trigger] first[i]) by {
        assert(a.contains(first[i]));
        assert(a.to_set().contains(first[i]));
        assert(b.to_set().contains(first[i]));
        assert(b.contains(first[i]));
        let j = choose|j: int| 0 <= j < b.len() && b[j] == first[i];
        assert(second.contains(b[j]));
    }
    assert forall|i: int| 0 <= i < second.len() implies first.contains(#[trigger] second[i]) by {
        assert(b.contains(second[i]));
        assert(b.to_set().contains(second[i]));
        assert(a.to_set().contains(second[i]));
        assert(a.contains(second[i]));
        let j = choose|j: int| 0 <= j < a.len() && a[j] == second[i];
        assert(first.contains(a[j]));
    }
    ascending_lists_with_same_elements_are_equal(first, second);
}

/// The cells that stand for an encoding in another cell type: `on` where the
/// encoding holds a one, `off` where it holds a zero.
pub open spec fn indicator_rows<T>(rows: Seq<Seq<u8>>, off: T, on: T) -> Seq<Seq<T>> {
    Seq::new(
        rows.len(),
        |r: int| Seq::new(rows[r].len(), |c: int| if rows[r][c] == 0 { off } else { on }),
    )
}

/// Writes an encoding in another cell type, `on` for one and `off` for zero.
pub fn indicator_cells<T: Copy>(encoded: &Matrix<u8>, off: T, on: T) -> (out: Matrix<T>)
    requires
        encoded.wf(),
    ensures
        out.wf(),
        out.width() == encoded.width(),
        out@ == indicator_rows(encoded@, off, on),
{
    let n = encoded.nrows();
    let k = encoded.ncols();
    let mut rows: Vec<Vec<T>> = Vec::new();
    let mut r: usize = 0;
    while r < n
        invariant
            encoded.wf(),
            n == encoded.height(),
            k == encoded.width(),
            0 <= r <= n,
            rows@.len() == r,
            forall|a: int| 0 <= a < r ==> (#[trigger] rows@[a])@ == indicator_rows(encoded@, off, on)[a],
        decreases n - r,
    {
        let mut row: Vec<T> = Vec::new();
        let mut c: usize = 0;
        while c < k
            invariant
                encoded.wf(),
                r < encoded.height(),
                k == encoded.width(),
                0 <= c <= k,
                row@.len() == c,
                forall|b: int|
                    0 <= b < c ==> (#[trigger] row@[b]) == (if encoded@[r as int][b] == 0 {
                        off
                    } else {
                        on
                    }),
            decreases k - c,
        {
            row.push(if encoded.cell(r, c) == 0 { off } else { on });
            c += 1;
        }
        assert(row@ =~= indicator_rows(encoded@, off, on)[r as int]);
        rows.push(row);
        r += 1;
    }
    assert(crate::matrix::rows_of(rows) =~= indicator_rows(encoded@, off, on));
    Matrix::assemble(rows, k)
}

/// The arithmetic of a scaling encoder.
#[derive(Clone, Copy, Debug, PartialEq, Eq, Structural)]
pub enum ScalerKind {
    /// Each column is mapped onto the unit interval by its smallest and
    /// largest cell; a column whose cells are all equal maps to zero.
    MinMax,
    /// Each column is centred on its mean and divided by its standard
    /// deviation; a column without spread maps to zero.
    StandardScore,
}

/// The fitted state of a scaling encoder.
///
/// The statistics and the arithmetic are the caller's. The scaler records how
/// many columns the fit saw and refuses what does not agree with it.
#[derive(Clone, Copy, Debug)]
pub struct Scaler {
    kind: ScalerKind,
    columns: Option<usize>,
}

impl Scaler {
    /// The arithmetic that the scaler stands for.
    pub closed spec fn kind_of(&self) -> ScalerKind {
        self.kind
    }

    /// The number of columns seen by the last fit, if there was one.
    pub closed spec fn fitted_width(&self) -> Option<nat> {
        match self.columns {
            Some(c) => Some(c as nat),
            None => None,
        }
    }

    /// A scaler that has not been fitted.
    pub fn new(kind: ScalerKind) -> (out: Self)
        ensures
            out.kind_of() == kind,
            out.fitted_width() is None,
    {
        Scaler { kind, columns: None }
    }

    /// The arithmetic that the scaler stands for.
    pub fn kind(&self) -> (k: ScalerKind)
        ensures
            k == self.kind_of(),
    {
        self.kind
    }

    /// Tells whether the scaler has been fitted.
    pub fn fitted(&self) -> (b: bool)
        ensures
            b == self.fitted_width().is_some(),
    {
        self.columns.is_some()
    }

    /// Records a fit on `raw` whose outcome is `scaled`. Scaling keeps the
    /// shape, so an outcome of another shape is refused and the scaler is
    /// left as it was.
    pub fn accept_fit<T>(&mut self, raw: &Matrix<T>, scaled: &Matrix<T>) -> (out: Result<
        (),
        PipelineError,
    >)
        ensures
            out is Ok <==> scaled.height() == raw.height() && scaled.width() == raw.width(),
            out matches Err(e) ==> e == PipelineError::ShapeMismatch && *final(self) == *old(self),
            out is Ok ==> final(self).fitted_width() == Some(raw.width()) && final(self).kind_of()
                == old(self).kind_of(),
    {
        if scaled.nrows() != raw.nrows() || scaled.ncols() != raw.ncols() {
            return Err(PipelineError::ShapeMismatch);
        }
        self.columns = Some(raw.ncols());
        Ok(())
    }

    /// Decides whether `scaled` may be mapped back. That takes a fit, and as
    /// many columns as the fit saw.
    pub fn admit_inverse<T>(&self, scaled: &Matrix<T>) -> (out: Result<(), PipelineError>)
        ensures
            out is Ok <==> self.fitted_width() == Some(scaled.width()),
            out matches Err(e) ==> e == PipelineError::ShapeMismatch,
    {
        match self.columns {
            Some(c) => {
                if c == scaled.ncols() {
                    Ok(())
                } else {
                    Err(PipelineError::ShapeMismatch)
                }
            },
            None => Err(PipelineError::ShapeMismatch),
        }
    }
}

} // verus!
