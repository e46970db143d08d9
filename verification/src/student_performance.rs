//! A performance index of students, fitted by a linear regressor with an adaptive update rule.

use vstd::prelude::*;
use crate::encoder::{Scaler, ScalerKind};
use crate::error::{PipelineError, Stage};
use crate::matrix::Matrix;
use crate::model::{ModelKind, Schedule, TrainingJob, UpdateRule};
use crate::pipeline::{inference_refusal, load_refusal, transform_refusal, Encoded, Failure, Pipeline, RowRange};
use crate::ratio::Ratio;
use crate::splitter::Partition;
use crate::table::{names_of, owned_names, projected_rows, Table};

verus! {

/// The feature columns, in the order of the columns of X.
pub open spec fn feature_names() -> Seq<Seq<char>> {
    seq![
        "Hours Studied"@,
        "Previous Scores"@,
        "Sleep Hours"@,
        "Sample Question Papers Practiced"@,
    ]
}

/// The target column.
pub open spec fn target_names() -> Seq<Seq<char>> {
    seq!["Performance Index"@]
}

/// The share of the rows that trains: four fifths.
pub open spec fn train_fraction() -> Ratio {
    Ratio { numer: 4, denom: 5 }
}

/// The learning rate of training: one thousandth.
pub open spec fn learning_rate() -> Ratio {
    Ratio { numer: 1, denom: 1000 }
}

/// The mini-batch settings of training.
pub open spec fn schedule() -> Schedule {
    Schedule { rounds: 10, batch_size: 128, epochs_per_round: 1000 }
}

/// The runs of testing rows that inference predicts on.
pub open spec fn windows() -> Seq<RowRange> {
    seq![RowRange { start: 0, end: 5 }, RowRange { start: 5, end: 10 }, RowRange { start: 10, end: 15 }]
}

/// The feature columns, in the order of the columns of X.
pub fn feature_columns() -> (out: Vec<String>)
    ensures
        names_of(out) == feature_names(),
{
    let list = [
        "Hours Studied",
        "Previous Scores",
        "Sleep Hours",
        "Sample Question Papers Practiced",
    ];
    let out = owned_names(&list);
    assert(names_of(out) =~= feature_names());
    out
}

/// The target column.
pub fn target_columns() -> (out: Vec<String>)
    ensures
        names_of(out) == target_names(),
{
    let list = ["Performance Index"];
    let out = owned_names(&list);
    assert(names_of(out) =~= target_names());
    out
}

/// The runs of testing rows that inference predicts on.
pub fn inference_windows() -> (out: Vec<RowRange>)
    ensures
        out@ == windows(),
{
    let mut out: Vec<RowRange> = Vec::new();
    out.push(RowRange { start: 0, end: 5 });
    out.push(RowRange { start: 5, end: 10 });
    out.push(RowRange { start: 10, end: 15 });
    assert(out@ =~= windows());
    out
}

/// The pipeline of the student performance data.
///
/// Features and target are both scaled to standard scores, the rows are cut
/// at four fifths, and a linear regressor is fitted on the leading part with
/// the Adam update rule. The two scalers stay with the pipeline, so that
/// targets and predictions can be reported in the units of the source.
#[derive(Debug)]
pub struct StudentPerformance<T> {
    pipeline: Pipeline<T>,
    x_encode: Scaler,
    y_encode: Scaler,
}

impl<T> StudentPerformance<T> {
    /// The state of the pipeline.
    pub closed spec fn spec_pipeline(&self) -> &Pipeline<T> {
        &self.pipeline
    }

    /// The state of the pipeline.
    #[verifier::when_used_as_spec(spec_pipeline)]
    pub fn pipeline(&self) -> (out: &Pipeline<T>)
        ensures
            out == self.pipeline(),
    {
        &self.pipeline
    }

    /// The scaler of the features.
    pub closed spec fn spec_x_encode(&self) -> Scaler {
        self.x_encode
    }

    /// The scaler of the target.
    pub closed spec fn spec_y_encode(&self) -> Scaler {
        self.y_encode
    }

    /// The scaler of the features.
    #[verifier::when_used_as_spec(spec_x_encode)]
    pub fn x_encode(&self) -> (out: Scaler)
        ensures
            out == self.x_encode(),
    {
        self.x_encode
    }

    /// The scaler of the target.
    #[verifier::when_used_as_spec(spec_y_encode)]
    pub fn y_encode(&self) -> (out: Scaler)
        ensures
            out == self.y_encode(),
    {
        self.y_encode
    }

    /// The pipeline is well formed and carries the settings of this data set:
    /// once loaded, four feature columns and one target column; once
    /// transformed, a cut at four fifths and two scalers fitted on four columns
    /// and on one.
    pub open spec fn wf(&self) -> bool {
        let p = self.pipeline();
        &&& p.wf()
        &&& p.file_path()@ == "data/student_performance.parquet"@
        &&& p.artifact_key()@ == "models/student_performance"@
        &&& p.model().kind == ModelKind::LinearRegressor
        &&& p.stage().reached(Stage::Loaded) ==> p.x().width() == 4 && p.y().width() == 1
        &&& p.stage().reached(Stage::Transformed) ==> p.cut() == Some(train_fraction())
        &&& self.x_encode().kind_of() == ScalerKind::StandardScore
        &&& self.y_encode().kind_of() == ScalerKind::StandardScore
        &&& self.x_encode().fitted_width() == (if p.stage().reached(Stage::Transformed) {
            Some(4nat)
        } else {
            None
        })
        &&& self.y_encode().fitted_width() == (if p.stage().reached(Stage::Transformed) {
            Some(1nat)
        } else {
            None
        })
    }
}

impl<T: Copy> StudentPerformance<T> {
    /// Registers the pipeline under `name`, with empty matrices, two unfitted
    /// scalers and a placeholder regressor whose learning rate is one
    /// hundredth.
    pub fn register(name: &str) -> (out: Self)
        ensures
            out.wf(),
            out.pipeline().stage() == Stage::Registered,
            out.pipeline().name()@ == name@,
            out.pipeline().x().height() == 0,
            out.pipeline().y().height() == 0,
            out.pipeline().model().learning_rate == (Ratio { numer: 1, denom: 100 }),
    {
        StudentPerformance {
            pipeline: Pipeline::register(
                name,
                "data/student_performance.parquet",
                "models/student_performance",
                ModelKind::LinearRegressor,
                Ratio::new(1, 100),
            ),
            x_encode: Scaler::new(ScalerKind::StandardScore),
            y_encode: Scaler::new(ScalerKind::StandardScore),
        }
    }

    /// Loads the four feature columns into X and the target column into Y.
    /// `source` is the table read from `file_path()`, or `None` where that
    /// could not be read.
    pub fn load(&mut self, source: Option<&Table<T>>) -> (out: Result<(), Failure>)
        requires
            old(self).wf(),
            source matches Some(table) ==> table.wf(),
        ensures
            final(self).wf(),
            final(self).pipeline().same_identity(old(self).pipeline()),
            match out {
                Ok(()) => {
                    let table = source->Some_0;
                    &&& load_refusal(old(self).pipeline().stage(), source, feature_names(), target_names()) is None
                    &&& final(self).pipeline().stage() == Stage::Loaded
                    &&& final(self).pipeline().x()@ == projected_rows(
                        table.names(),
                        table.columns(),
                        table.height(),
                        feature_names(),
                    )
                    &&& final(self).pipeline().y()@ == projected_rows(
                        table.names(),
                        table.columns(),
                        table.height(),
                        target_names(),
                    )
                },
                Err(f) => {
                    &&& load_refusal(old(self).pipeline().stage(), source, feature_names(), target_names())
                        == Some(f.error)
                    &&& f.names(old(self).pipeline().name()@, Stage::Loaded, f.error)
                    &&& *final(self) == *old(self)
                },
            },
    {
        let features = feature_columns();
        let targets = target_columns();
        self.pipeline.load(source, &features, &targets)
    }

    /// Rebinds X and Y to their standard scores, records the fit in the two
    /// scalers and cuts the rows at four fifths. `x_scaled` and `y_scaled` are
    /// the scaled forms of `x()` and `y()`; scaling keeps the shape, so any
    /// other shape is refused.
    pub fn transform(&mut self, x_scaled: Matrix<T>, y_scaled: Matrix<T>) -> (out: Result<(), Failure>)
        requires
            old(self).wf(),
            x_scaled.wf(),
            y_scaled.wf(),
        ensures
            final(self).wf(),
            final(self).pipeline().same_identity(old(self).pipeline()),
            match out {
                Ok(()) => {
                    &&& transform_refusal(
                        old(self).pipeline(),
                        &Encoded::Scaled(x_scaled),
                        &Encoded::Scaled(y_scaled),
                        Some(train_fraction()),
                    ) is None
                    &&& final(self).pipeline().stage() == Stage::Transformed
                    &&& final(self).pipeline().x()@ == x_scaled@
                    &&& final(self).pipeline().y()@ == y_scaled@
                    &&& final(self).pipeline().training_data().is_rows_of(
                        &x_scaled,
                        &y_scaled,
                        0,
                        train_fraction().floor_of(x_scaled.height()) as int,
                    )
                    &&& final(self).pipeline().testing_data().is_rows_of(
                        &x_scaled,
                        &y_scaled,
                        train_fraction().floor_of(x_scaled.height()) as int,
                        x_scaled.height() as int,
                    )
                },
                Err(f) => {
                    &&& transform_refusal(
                        old(self).pipeline(),
                        &Encoded::Scaled(x_scaled),
                        &Encoded::Scaled(y_scaled),
                        Some(train_fraction()),
                    ) == Some(f.error)
                    &&& f.names(old(self).pipeline().name()@, Stage::Transformed, f.error)
                    &&& *final(self) == *old(self)
                },
            },
    {
        // The fits are tried on copies and kept only if the step is accepted.
        let mut x_encode = self.x_encode;
        let mut y_encode = self.y_encode;
        let x_fit = x_encode.accept_fit(self.pipeline.x(), &x_scaled);
        let y_fit = y_encode.accept_fit(self.pipeline.y(), &y_scaled);
        let out = self.pipeline.transform(
            Encoded::Scaled(x_scaled),
            Encoded::Scaled(y_scaled),
            Some(Ratio::new(4, 5)),
        );
        if out.is_ok() && x_fit.is_ok() && y_fit.is_ok() {
            self.x_encode = x_encode;
            self.y_encode = y_encode;
        }
        out
    }

    /// Replaces the placeholder by a regressor over the training rows and
    /// says what is to be fitted: the Adam update rule at a learning rate of
    /// one thousandth, persisted under `artifact_key()`.
    pub fn train(&mut self) -> (out: Result<TrainingJob, Failure>)
        requires
            old(self).wf(),
        ensures
            final(self).wf(),
            final(self).pipeline().same_identity(old(self).pipeline()),
            match out {
                Ok(job) => {
                    &&& old(self).pipeline().stage() == Stage::Transformed
                    &&& final(self).pipeline().stage() == Stage::Trained
                    &&& final(self).pipeline().x() == old(self).pipeline().x()
                    &&& final(self).pipeline().y() == old(self).pipeline().y()
                    &&& final(self).pipeline().training_data() == old(self).pipeline().training_data()
                    &&& final(self).pipeline().testing_data() == old(self).pipeline().testing_data()
                    &&& job.kind == ModelKind::LinearRegressor
                    &&& job.learning_rate == learning_rate()
                    &&& job.rule == UpdateRule::Adam
                    &&& job.schedule == schedule()
                    &&& job.artifact_key@ == "models/student_performance"@
                    &&& job.samples == old(self).pipeline().training_data().height()
                    &&& job.inputs == 4
                    &&& job.outputs == 1
                },
                Err(f) => {
                    &&& old(self).pipeline().stage() != Stage::Transformed
                    &&& f.names(old(self).pipeline().name()@, Stage::Trained, PipelineError::StageOrder)
                    &&& *final(self) == *old(self)
                },
            },
    {
        self.pipeline.train(
            UpdateRule::Adam,
            Ratio::new(1, 1000),
            Schedule { rounds: 10, batch_size: 128, epochs_per_round: 1000 },
        )
    }

    /// Puts the model read back from storage in place of the trained one and
    /// hands out the testing rows `0..5`, `5..10` and `10..15` to predict on.
    /// The target rows of each window, like the predictions made for it, have
    /// the one column that `y_encode()` was fitted on, so both can be mapped
    /// back. `artifact_found` says whether storage held a model under
    /// `artifact_key()`.
    pub fn inference(&mut self, artifact_found: bool) -> (out: Result<Vec<Partition<T>>, Failure>)
        requires
            old(self).wf(),
        ensures
            final(self).wf(),
            final(self).pipeline().same_identity(old(self).pipeline()),
            match out {
                Ok(parts) => {
                    &&& inference_refusal(
                        old(self).pipeline().stage(),
                        artifact_found,
                        windows(),
                        old(self).pipeline().testing_data().height(),
                    ) is None
                    &&& final(self).pipeline().stage() == Stage::Inferred
                    &&& final(self).pipeline().x() == old(self).pipeline().x()
                    &&& final(self).pipeline().y() == old(self).pipeline().y()
                    &&& final(self).pipeline().testing_data() == old(self).pipeline().testing_data()
                    &&& parts@.len() == 3
                    &&& forall|i: int|
                        0 <= i < 3 ==> {
                            &&& (#[trigger] parts@[i]).wf()
                            &&& parts@[i].is_rows_of(
                                &old(self).pipeline().testing_data().features,
                                &old(self).pipeline().testing_data().targets,
                                windows()[i].start as int,
                                windows()[i].end as int,
                            )
                            &&& final(self).y_encode().fitted_width() == Some(parts@[i].targets.width())
                        }
                },
                Err(f) => {
                    &&& inference_refusal(
                        old(self).pipeline().stage(),
                        artifact_found,
                        windows(),
                        old(self).pipeline().testing_data().height(),
                    ) == Some(f.error)
                    &&& f.names(old(self).pipeline().name()@, Stage::Inferred, f.error)
                    &&& *final(self) == *old(self)
                },
            },
    {
        let windows = inference_windows();
        self.pipeline.inference(artifact_found, &windows)
    }
}

} // verus!
