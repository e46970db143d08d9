//! Cutting aligned feature and target matrices into a training and a testing part.
//!
//! The cut is contiguous: the leading rows train, the trailing rows test. Rows
//! are never reordered, so a caller whose source is sorted by time or by label
//! has to reorder it before loading if that matters.

use vstd::prelude::*;
use crate::error::PipelineError;
use crate::matrix::Matrix;
use crate::ratio::Ratio;

verus! {

/// Feature rows together with the target rows of the same samples.
#[derive(Debug)]
pub struct Partition<T> {
    pub features: Matrix<T>,
    pub targets: Matrix<T>,
}

/// The two parts of a data set, in source order.
#[derive(Debug)]
pub struct Split<T> {
    pub training: Partition<T>,
    pub testing: Partition<T>,
}

impl<T> Partition<T> {
    /// Both matrices are rectangular and have one row per sample.
    pub open spec fn wf(&self) -> bool {
        &&& self.features.wf()
        &&& self.targets.wf()
        &&& self.features.height() == self.targets.height()
    }

    /// Number of samples.
    pub open spec fn height(&self) -> nat {
        self.features.height()
    }

    /// The partition holds the rows `start..end` of `x` and of `y`.
    pub open spec fn is_rows_of(&self, x: &Matrix<T>, y: &Matrix<T>, start: int, end: int) -> bool {
        &&& self.features@ == x@.subrange(start, end)
        &&& self.targets@ == y@.subrange(start, end)
        &&& self.features.width() == x.width()
        &&& self.targets.width() == y.width()
    }

    /// A partition without samples and without columns.
    pub fn empty() -> (out: Self)
        ensures
            out.wf(),
            out.height() == 0,
            out.features.width() == 0,
            out.targets.width() == 0,
    {
        Partition { features: Matrix::empty(), targets: Matrix::empty() }
    }
}

impl<T> Split<T> {
    /// Both parts are well formed.
    pub open spec fn wf(&self) -> bool {
        self.training.wf() && self.testing.wf()
    }

    /// The split is the cut of `x` and `y` after `fraction` of their rows, rounded down.
    pub open spec fn is_cut_of(&self, x: &Matrix<T>, y: &Matrix<T>, fraction: Ratio) -> bool {
        let n = x.height() as int;
        let k = fraction.floor_of(x.height()) as int;
        &&& self.training.is_rows_of(x, y, 0, k)
        &&& self.testing.is_rows_of(x, y, k, n)
    }
}

/// The error with which `split` answers, if it refuses `x`, `y` and `fraction`.
pub open spec fn split_refusal<T>(x: &Matrix<T>, y: &Matrix<T>, fraction: Ratio) -> Option<
    PipelineError,
> {
    if !fraction.is_proper() {
        Some(PipelineError::InvalidConfiguration)
    } else if x.height() != y.height() {
        Some(PipelineError::ShapeMismatch)
    } else {
        None
    }
}

/// Cuts `x` and `y` after the first `floor(fraction * rows)` rows.
///
/// A fraction that is not strictly between zero and one is an invalid
/// configuration; matrices with different row counts are a shape mismatch. The
/// fraction is judged first.
pub fn split<T: Copy>(x: &Matrix<T>, y: &Matrix<T>, fraction: Ratio) -> (out: Result<
    Split<T>,
    PipelineError,
>)
    requires
        x.wf(),
        y.wf(),
    ensures
        match out {
            Ok(s) => {
                &&& split_refusal(x, y, fraction) is None
                &&& s.wf()
                &&& s.is_cut_of(x, y, fraction)
                &&& s.training.height() == fraction.floor_of(x.height())
                &&& s.training.height() + s.testing.height() == x.height()
            },
            Err(e) => split_refusal(x, y, fraction) == Some(e),
        },
{
    if !fraction.proper() {
        return Err(PipelineError::InvalidConfiguration);
    }
    let n = x.nrows();
    if n != y.nrows() {
        return Err(PipelineError::ShapeMismatch);
    }
    let k = fraction.floor_scaled(n);
    Ok(
        Split {
            training: Partition { features: x.rows_between(0, k), targets: y.rows_between(0, k) },
            testing: Partition { features: x.rows_between(k, n), targets: y.rows_between(k, n) },
        },
    )
}

/// Cutting loses no row and invents none: the training rows followed by the
/// testing rows are the rows that were cut, and the training part has
/// `floor(fraction * rows)` of them.
pub proof fn split_covers_every_row<T>(x: &Matrix<T>, y: &Matrix<T>, fraction: Ratio, s: &Split<T>)
    requires
        x.wf(),
        y.wf(),
        x.height() == y.height(),
        fraction.is_proper(),
        s.is_cut_of(x, y, fraction),
    ensures
        s.training.features@ + s.testing.features@ == x@,
        s.training.targets@ + s.testing.targets@ == y@,
        s.training.height() + s.testing.height() == x.height(),
        s.training.height() == fraction.floor_of(x.height()),
        x.height() > 0 ==> s.testing.height() > 0,
{
    crate::ratio::floor_of_proper_is_bounded(fraction, x.height());
    assert(s.training.features@ + s.testing.features@ =~= x@);
    assert(s.training.targets@ + s.testing.targets@ =~= y@);
}

/// Cutting is a function of its inputs: two cuts of the same matrices at the
/// same fraction hold the same rows in the same order.
pub proof fn split_is_deterministic<T>(
    x: &Matrix<T>,
    y: &Matrix<T>,
    fraction: Ratio,
    a: &Split<T>,
    b: &Split<T>,
)
    requires
        a.is_cut_of(x, y, fraction),
        b.is_cut_of(x, y, fraction),
    ensures
        a.training.features.same_as(&b.training.features),
        a.training.targets.same_as(&b.training.targets),
        a.testing.features.same_as(&b.testing.features),
        a.testing.targets.same_as(&b.testing.targets),
{
}

} // verus!
