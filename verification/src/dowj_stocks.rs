//! Daily closing prices of a stock index, fitted by a linear regressor.

use vstd::prelude::*;
use crate::encoder::ScalerKind;
use crate::error::{PipelineError, Stage};
use crate::matrix::Matrix;
use crate::model::{ModelKind, Schedule, TrainingJob, UpdateRule};
use crate::pipeline::{inference_refusal, load_refusal, transform_refusal, Encoded, Failure, Pipeline, RowRange};
use crate::ratio::Ratio;
use crate::splitter::Partition;
use crate::table::{names_of, owned_names, projected_rows, Table};

verus! {

/// The feature columns, in the order of the columns of X.
pub open spec fn feature_names() -> Seq<Seq<char>> {
    seq![
        "Open"@,
        "High"@,
        "Low"@,
    ]
}

/// The target column.
pub open spec fn target_names() -> Seq<Seq<char>> {
    seq!["Close"@]
}

/// The learning rate of training: four fifths.
pub open spec fn learning_rate() -> Ratio {
    Ratio { numer: 4, denom: 5 }
}

/// The mini-batch settings of training.
pub open spec fn schedule() -> Schedule {
    Schedule { rounds: 20, batch_size: 10000, epochs_per_round: 100 }
}

/// The runs of testing rows that inference predicts on.
pub open spec fn windows() -> Seq<RowRange> {
    seq![RowRange { start: 0, end: 5 }]
}

/// The scaling that the features and target undergo in the transform step.
pub open spec fn scaler_kind() -> ScalerKind {
    ScalerKind::MinMax
}

/// The scaling that the features and target undergo in the transform step.
pub fn scaling() -> (out: ScalerKind)
    ensures
        out == scaler_kind(),
{
    ScalerKind::MinMax
}

/// The feature columns, in the order of the columns of X.
pub fn feature_columns() -> (out: Vec<String>)
    ensures
        names_of(out) == feature_names(),
{
    let list = [
        "Open",
        "High",
        "Low",
    ];
    let out = owned_names(&list);
    assert(names_of(out) =~= feature_names());
    out
}

/// The target column.
pub fn target_columns() -> (out: Vec<String>)
    ensures
        names_of(out) == target_names(),
{
    let list = ["Close"];
    let out = owned_names(&list);
    assert(names_of(out) =~= target_names());
    out
}

/// The runs of testing rows that inference predicts on.
pub fn inference_windows() -> (out: Vec<RowRange>)
    ensures
        out@ == windows(),
{
    let mut out: Vec<RowRange> = Vec::new();
    out.push(RowRange { start: 0, end: 5 });
    assert(out@ =~= windows());
    out
}

/// The pipeline of the stock index data.
///
/// Features and target are both min-max scaled and a linear regressor is
/// fitted on all rows by plain gradient descent. The rows are not cut, so the
/// model is tried on rows it was fitted on.
#[derive(Debug)]
pub struct DOWJModel<T> {
    pipeline: Pipeline<T>,
}

impl<T> DOWJModel<T> {
    /// The state of the pipeline.
    pub closed spec fn spec_pipeline(&self) -> &Pipeline<T> {
        &self.pipeline
    }

    /// The state of the pipeline.
    #[verifier::when_used_as_spec(spec_pipeline)]
    pub fn pipeline(&self) -> (out: &Pipeline<T>)
        ensures
            out == self.pipeline(),
    {
        &self.pipeline
    }

    /// The pipeline is well formed and carries the settings of this data set:
    /// once loaded, three feature columns and one target column; never a cut.
    pub open spec fn wf(&self) -> bool {
        let p = self.pipeline();
        &&& p.wf()
        &&& p.file_path()@ == "data/dowj_stocks.parquet"@
        &&& p.artifact_key()@ == "models/dowj_stocks"@
        &&& p.model().kind == ModelKind::LinearRegressor
        &&& p.stage().reached(Stage::Loaded) ==> p.x().width() == 3 && p.y().width() == 1
        &&& p.cut() is None
    }
}

impl<T: Copy> DOWJModel<T> {
    /// Registers the pipeline under `name`, with empty matrices and a
    /// placeholder regressor whose learning rate is one hundredth.
    pub fn register(name: &str) -> (out: Self)
        ensures
            out.wf(),
            out.pipeline().stage() == Stage::Registered,
            out.pipeline().name()@ == name@,
            out.pipeline().x().height() == 0,
            out.pipeline().y().height() == 0,
            out.pipeline().model().learning_rate == (Ratio { numer: 1, denom: 100 }),
    {
        DOWJModel {
            pipeline: Pipeline::register(
                name,
                "data/dowj_stocks.parquet",
                "models/dowj_stocks",
                ModelKind::LinearRegressor,
                Ratio::new(1, 100),
            ),
        }
    }

    /// Loads the three feature columns into X and the target column into Y.
    /// `source` is the table read from `file_path()`, or `None` where that
    /// could not be read.
    pub fn load(&mut self, source: Option<&Table<T>>) -> (out: Result<(), Failure>)
        requires
            old(self).wf(),
            source matches Some(table) ==> table.wf(),
        ensures
            final(self).wf(),
            final(self).pipeline().same_identity(old(self).pipeline()),
            match out {
                Ok(()) => {
                    let table = source->Some_0;
                    &&& load_refusal(old(self).pipeline().stage(), source, feature_names(), target_names()) is None
                    &&& final(self).pipeline().stage() == Stage::Loaded
                    &&& final(self).pipeline().x()@ == projected_rows(
                        table.names(),
                        table.columns(),
                        table.height(),
                        feature_names(),
                    )
                    &&& final(self).pipeline().y()@ == projected_rows(
                        table.names(),
                        table.columns(),
                        table.height(),
                        target_names(),
                    )
                },
                Err(f) => {
                    &&& load_refusal(old(self).pipeline().stage(), source, feature_names(), target_names())
                        == Some(f.error)
                    &&& f.names(old(self).pipeline().name()@, Stage::Loaded, f.error)
                    &&& *final(self) == *old(self)
                },
            },
    {
        let features = feature_columns();
        let targets = target_columns();
        self.pipeline.load(source, &features, &targets)
    }

    /// Rebinds X and Y to their min-max scaled forms. `x_scaled` and
    /// `y_scaled` are the scaled forms of `x()` and `y()`; scaling keeps the
    /// shape, so any other shape is refused.
    pub fn transform(&mut self, x_scaled: Matrix<T>, y_scaled: Matrix<T>) -> (out: Result<(), Failure>)
        requires
            old(self).wf(),
            x_scaled.wf(),
            y_scaled.wf(),
        ensures
            final(self).wf(),
            final(self).pipeline().same_identity(old(self).pipeline()),
            match out {
                Ok(()) => {
                    &&& transform_refusal(
                        old(self).pipeline(),
                        &Encoded::Scaled(x_scaled),
                        &Encoded::Scaled(y_scaled),
                        None,
                    ) is None
                    &&& final(self).pipeline().stage() == Stage::Transformed
                    &&& final(self).pipeline().x()@ == x_scaled@
                    &&& final(self).pipeline().y()@ == y_scaled@
                    &&& final(self).pipeline().training_data().features@ == x_scaled@
                    &&& final(self).pipeline().training_data().targets@ == y_scaled@
                    &&& final(self).pipeline().testing_data().features@ == x_scaled@
                    &&& final(self).pipeline().testing_data().targets@ == y_scaled@
                },
                Err(f) => {
                    &&& transform_refusal(
                        old(self).pipeline(),
                        &Encoded::Scaled(x_scaled),
                        &Encoded::Scaled(y_scaled),
                        None,
                    ) == Some(f.error)
                    &&& f.names(old(self).pipeline().name()@, Stage::Transformed, f.error)
                    &&& *final(self) == *old(self)
                },
            },
    {
        self.pipeline.transform(Encoded::Scaled(x_scaled), Encoded::Scaled(y_scaled), None)
    }

    /// Replaces the placeholder by a regressor over all rows and says what is
    /// to be fitted: plain gradient descent at a learning rate of four fifths,
    /// persisted under `artifact_key()`.
    pub fn train(&mut self) -> (out: Result<TrainingJob, Failure>)
        requires
            old(self).wf(),
        ensures
            final(self).wf(),
            final(self).pipeline().same_identity(old(self).pipeline()),
            match out {
                Ok(job) => {
                    &&& old(self).pipeline().stage() == Stage::Transformed
                    &&& final(self).pipeline().stage() == Stage::Trained
                    &&& final(self).pipeline().x() == old(self).pipeline().x()
                    &&& final(self).pipeline().y() == old(self).pipeline().y()
                    &&& final(self).pipeline().training_data() == old(self).pipeline().training_data()
                    &&& final(self).pipeline().testing_data() == old(self).pipeline().testing_data()
                    &&& job.kind == ModelKind::LinearRegressor
                    &&& job.learning_rate == learning_rate()
                    &&& job.rule == UpdateRule::GradientDescent
                    &&& job.schedule == schedule()
                    &&& job.artifact_key@ == "models/dowj_stocks"@
                    &&& job.samples == old(self).pipeline().training_data().height()
                    &&& job.inputs == 3
                    &&& job.outputs == 1
                },
                Err(f) => {
                    &&& old(self).pipeline().stage() != Stage::Transformed
                    &&& f.names(old(self).pipeline().name()@, Stage::Trained, PipelineError::StageOrder)
                    &&& *final(self) == *old(self)
                },
            },
    {
        self.pipeline.train(
            UpdateRule::GradientDescent,
            Ratio::new(4, 5),
            Schedule { rounds: 20, batch_size: 10000, epochs_per_round: 100 },
        )
    }

    /// Puts the model read back from storage in place of the trained one and
    /// hands out the rows `0..5` to predict on. `artifact_found` says whether
    /// storage held a model under `artifact_key()`.
    pub fn inference(&mut self, artifact_found: bool) -> (out: Result<Vec<Partition<T>>, Failure>)
        requires
            old(self).wf(),
        ensures
            final(self).wf(),
            final(self).pipeline().same_identity(old(self).pipeline()),
            match out {
                Ok(parts) => {
                    &&& inference_refusal(
                        old(self).pipeline().stage(),
                        artifact_found,
                        windows(),
                        old(self).pipeline().testing_data().height(),
                    ) is None
                    &&& final(self).pipeline().stage() == Stage::Inferred
                    &&& final(self).pipeline().x() == old(self).pipeline().x()
                    &&& final(self).pipeline().y() == old(self).pipeline().y()
                    &&& final(self).pipeline().testing_data() == old(self).pipeline().testing_data()
                    &&& parts@.len() == 1
                    &&& forall|i: int|
                        0 <= i < 1 ==> {
                            &&& (#[trigger] parts@[i]).wf()
                            &&& parts@[i].is_rows_of(
                                &old(self).pipeline().testing_data().features,
                                &old(self).pipeline().testing_data().targets,
                                windows()[i].start as int,
                                windows()[i].end as int,
                            )
                        }
                },
                Err(f) => {
                    &&& inference_refusal(
                        old(self).pipeline().stage(),
                        artifact_found,
                        windows(),
                        old(self).pipeline().testing_data().height(),
                    ) == Some(f.error)
                    &&& f.names(old(self).pipeline().name()@, Stage::Inferred, f.error)
                    &&& *final(self) == *old(self)
                },
            },
    {
        let windows = inference_windows();
        self.pipeline.inference(artifact_found, &windows)
    }
}

} // verus!
