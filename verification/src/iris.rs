//! Species of iris flowers, fitted by a multi-class classifier on one-hot targets.

use vstd::prelude::*;
use crate::encoder::{indicator_cells, indicator_rows, is_category_list, one_hot_rows, OneHot};
use crate::error::{PipelineError, Stage};
use crate::matrix::{column_of, Matrix};
use crate::model::{ModelKind, Schedule, TrainingJob, UpdateRule};
use crate::pipeline::{inference_refusal, load_refusal, Encoded, Failure, Pipeline, RowRange};
use crate::ratio::Ratio;
use crate::table::{names_of, owned_names, projected_rows, Table};

verus! {

/// The feature columns, in the order of the columns of X.
pub open spec fn feature_names() -> Seq<Seq<char>> {
    seq![
        "sepal_length_cm"@,
        "sepal_width_cm"@,
        "petal_length_cm"@,
        "petal_width_cm"@,
    ]
}

/// The target column.
pub open spec fn target_names() -> Seq<Seq<char>> {
    seq!["species_code"@]
}

/// The learning rate of training: one thousandth.
pub open spec fn learning_rate() -> Ratio {
    Ratio { numer: 1, denom: 1000 }
}

/// The mini-batch settings of training.
pub open spec fn schedule() -> Schedule {
    Schedule { rounds: 3, batch_size: 10, epochs_per_round: 1000 }
}

/// The feature columns, in the order of the columns of X.
pub fn feature_columns() -> (out: Vec<String>)
    ensures
        names_of(out) == feature_names(),
{
    let list = [
        "sepal_length_cm",
        "sepal_width_cm",
        "petal_length_cm",
        "petal_width_cm",
    ];
    let out = owned_names(&list);
    assert(names_of(out) =~= feature_names());
    out
}

/// The target column.
pub fn target_columns() -> (out: Vec<String>)
    ensures
        names_of(out) == target_names(),
{
    let list = ["species_code"];
    let out = owned_names(&list);
    assert(names_of(out) =~= target_names());
    out
}

/// The flowers that inference predicts on, three of each species in the
/// order of the species codes. A row holds sepal length, sepal width, petal
/// length and petal width in millimetres.
pub open spec fn class_samples() -> Seq<Seq<Seq<i64>>> {
    seq![
        seq![seq![50i64, 35, 14, 2], seq![43i64, 30, 11, 1], seq![46i64, 34, 14, 3]],
        seq![seq![64i64, 29, 43, 13], seq![68i64, 28, 48, 14], seq![67i64, 30, 50, 17]],
        seq![seq![64i64, 27, 53, 19], seq![77i64, 38, 67, 22], seq![79i64, 38, 64, 20]],
    ]
}

/// Millimetres in the unit of the feature columns, which is the centimetre.
pub open spec fn sample_scale() -> int {
    10
}

/// Millimetres in the unit of the feature columns, which is the centimetre.
pub fn millimetres_per_unit() -> (out: i64)
    ensures
        out == sample_scale(),
{
    10
}

/// The error with which `IrisFlowersModel::transform` answers, if it refuses.
pub open spec fn encoding_refusal<T>(before: &Pipeline<T>, codes: &Matrix<i64>) -> Option<PipelineError> {
    if before.stage() != Stage::Loaded {
        Some(PipelineError::StageOrder)
    } else if codes.width() != 1 || codes.height() != before.y().height() {
        Some(PipelineError::ShapeMismatch)
    } else {
        None
    }
}

/// The measurements of three flowers as a matrix of three rows.
fn flowers(a: [i64; 4], b: [i64; 4], c: [i64; 4]) -> (out: Matrix<i64>)
    ensures
        out.wf(),
        out.width() == 4,
        out@ == seq![a@, b@, c@],
{
    let mut rows: Vec<Vec<i64>> = Vec::new();
    rows.push(measurements(a));
    rows.push(measurements(b));
    rows.push(measurements(c));
    assert(crate::matrix::rows_of(rows) =~= seq![a@, b@, c@]);
    Matrix::assemble(rows, 4)
}

/// The four measurements of a flower as a row.
fn measurements(flower: [i64; 4]) -> (out: Vec<i64>)
    ensures
        out@ == flower@,
{
    let mut out: Vec<i64> = Vec::new();
    out.push(flower[0]);
    out.push(flower[1]);
    out.push(flower[2]);
    out.push(flower[3]);
    assert(out@ =~= flower@);
    out
}

/// The pipeline of the iris data.
///
/// The features stay as they are, the species codes are one-hot encoded, and
/// a multi-class classifier is fitted on all rows by plain gradient descent.
/// Inference predicts on nine flowers that are written down here, three of
/// each species.
#[derive(Debug)]
pub struct IrisFlowersModel<T> {
    pipeline: Pipeline<T>,
    encoder: OneHot,
}

impl<T> IrisFlowersModel<T> {
    /// The state of the pipeline.
    pub closed spec fn spec_pipeline(&self) -> &Pipeline<T> {
        &self.pipeline
    }

    /// The state of the pipeline.
    #[verifier::when_used_as_spec(spec_pipeline)]
    pub fn pipeline(&self) -> (out: &Pipeline<T>)
        ensures
            out == self.pipeline(),
    {
        &self.pipeline
    }

    /// The encoder of the target.
    pub closed spec fn spec_encoder(&self) -> &OneHot {
        &self.encoder
    }

    /// The encoder of the target.
    #[verifier::when_used_as_spec(spec_encoder)]
    pub fn encoder(&self) -> (out: &OneHot)
        ensures
            out == self.encoder(),
    {
        &self.encoder
    }

    /// The pipeline is well formed and carries the settings of this data set:
    /// once loaded, four feature columns; a single target column until the
    /// transform, and from then on one target column per species that the
    /// encoder has seen; never a cut.
    pub open spec fn wf(&self) -> bool {
        let p = self.pipeline();
        &&& p.wf()
        &&& p.file_path()@ == "data/iris.parquet"@
        &&& p.artifact_key()@ == "iris_classification"@
        &&& p.model().kind == ModelKind::MultiClassClassifier
        &&& p.stage().reached(Stage::Loaded) ==> p.x().width() == 4
        &&& p.stage() == Stage::Loaded ==> p.y().width() == 1
        &&& self.encoder().wf()
        &&& self.encoder().is_fitted() <==> p.stage().reached(Stage::Transformed)
        &&& p.stage().reached(Stage::Transformed) ==> p.y().width() == self.encoder().categories().len()
        &&& p.cut() is None
    }
}

impl<T: Copy> IrisFlowersModel<T> {
    /// Registers the pipeline under `name`, with empty matrices, an unfitted
    /// encoder and a placeholder classifier whose learning rate is one
    /// hundredth.
    pub fn register(name: &str) -> (out: Self)
        ensures
            out.wf(),
            out.pipeline().stage() == Stage::Registered,
            out.pipeline().name()@ == name@,
            out.pipeline().x().height() == 0,
            out.pipeline().y().height() == 0,
            out.pipeline().model().learning_rate == (Ratio { numer: 1, denom: 100 }),
    {
        IrisFlowersModel {
            pipeline: Pipeline::register(
                name,
                "data/iris.parquet",
                "iris_classification",
                ModelKind::MultiClassClassifier,
                Ratio::new(1, 100),
            ),
            encoder: OneHot::new(),
        }
    }

    /// Loads the four feature columns into X and the target column into Y.
    /// `source` is the table read from `file_path()`, or `None` where that
    /// could not be read.
    pub fn load(&mut self, source: Option<&Table<T>>) -> (out: Result<(), Failure>)
        requires
            old(self).wf(),
            source matches Some(table) ==> table.wf(),
        ensures
            final(self).wf(),
            final(self).pipeline().same_identity(old(self).pipeline()),
            match out {
                Ok(()) => {
                    let table = source->Some_0;
                    &&& load_refusal(old(self).pipeline().stage(), source, feature_names(), target_names()) is None
                    &&& final(self).pipeline().stage() == Stage::Loaded
                    &&& final(self).pipeline().x()@ == projected_rows(
                        table.names(),
                        table.columns(),
                        table.height(),
                        feature_names(),
                    )
                    &&& final(self).pipeline().y()@ == projected_rows(
                        table.names(),
                        table.columns(),
                        table.height(),
                        target_names(),
                    )
                },
                Err(f) => {
                    &&& load_refusal(old(self).pipeline().stage(), source, feature_names(), target_names())
                        == Some(f.error)
                    &&& f.names(old(self).pipeline().name()@, Stage::Loaded, f.error)
                    &&& *final(self) == *old(self)
                },
            },
    {
        let features = feature_columns();
        let targets = target_columns();
        self.pipeline.load(source, &features, &targets)
    }

    /// Fits the encoder on the species codes and rebinds Y to their one-hot
    /// encoding; X stays as it is.
    ///
    /// `codes` holds the species code of each row of `y()` as a whole number,
    /// in one column. The encoding is written in the cell type of the
    /// pipeline, `on` for one and `off` for zero. Codes that are not one column
    /// of as many rows as Y are a shape mismatch. On a refusal nothing changes.
    pub fn transform(&mut self, codes: &Matrix<i64>, off: T, on: T) -> (out: Result<(), Failure>)
        requires
            old(self).wf(),
            codes.wf(),
        ensures
            final(self).wf(),
            final(self).pipeline().same_identity(old(self).pipeline()),
            match out {
                Ok(()) => {
                    let labels = column_of(codes@, 0);
                    let species = final(self).encoder().categories();
                    &&& encoding_refusal(old(self).pipeline(), codes) is None
                    &&& final(self).pipeline().stage() == Stage::Transformed
                    &&& is_category_list(species, labels)
                    &&& final(self).pipeline().x()@ == old(self).pipeline().x()@
                    &&& final(self).pipeline().y()@ == indicator_rows(one_hot_rows(species, labels), off, on)
                    &&& final(self).pipeline().y().width() == species.len()
                    &&& final(self).pipeline().training_data().features@ == old(self).pipeline().x()@
                    &&& final(self).pipeline().training_data().targets@ == final(self).pipeline().y()@
                },
                Err(f) => {
                    &&& encoding_refusal(old(self).pipeline(), codes) == Some(f.error)
                    &&& f.names(old(self).pipeline().name()@, Stage::Transformed, f.error)
                    &&& *final(self) == *old(self)
                },
            },
    {
        if self.pipeline.stage() != Stage::Loaded {
            return Err(self.pipeline.failure(Stage::Transformed, PipelineError::StageOrder));
        }
        if codes.nrows() != self.pipeline.y().nrows() {
            return Err(self.pipeline.failure(Stage::Transformed, PipelineError::ShapeMismatch));
        }
        let encoded = match self.encoder.fit_transform(codes) {
            Ok(encoded) => encoded,
            Err(e) => {
                return Err(self.pipeline.failure(Stage::Transformed, e));
            },
        };
        let y = indicator_cells(&encoded, off, on);
        self.pipeline.transform(Encoded::Unchanged, Encoded::Expanded(y), None)
    }

    /// Replaces the placeholder by a classifier over all rows and says what
    /// is to be fitted: plain gradient descent at a learning rate of one
    /// thousandth, persisted under `artifact_key()`.
    pub fn train(&mut self) -> (out: Result<TrainingJob, Failure>)
        requires
            old(self).wf(),
        ensures
            final(self).wf(),
            final(self).pipeline().same_identity(old(self).pipeline()),
            match out {
                Ok(job) => {
                    &&& old(self).pipeline().stage() == Stage::Transformed
                    &&& final(self).pipeline().stage() == Stage::Trained
                    &&& final(self).pipeline().x() == old(self).pipeline().x()
                    &&& final(self).pipeline().y() == old(self).pipeline().y()
                    &&& final(self).pipeline().training_data() == old(self).pipeline().training_data()
                    &&& final(self).pipeline().testing_data() == old(self).pipeline().testing_data()
                    &&& job.kind == ModelKind::MultiClassClassifier
                    &&& job.learning_rate == learning_rate()
                    &&& job.rule == UpdateRule::GradientDescent
                    &&& job.schedule == schedule()
                    &&& job.artifact_key@ == "iris_classification"@
                    &&& job.samples == old(self).pipeline().training_data().height()
                    &&& job.inputs == 4
                    &&& job.outputs == old(self).encoder().categories().len()
                },
                Err(f) => {
                    &&& old(self).pipeline().stage() != Stage::Transformed
                    &&& f.names(old(self).pipeline().name()@, Stage::Trained, PipelineError::StageOrder)
                    &&& *final(self) == *old(self)
                },
            },
    {
        self.pipeline.train(
            UpdateRule::GradientDescent,
            Ratio::new(1, 1000),
            Schedule { rounds: 3, batch_size: 10, epochs_per_round: 1000 },
        )
    }

    /// Puts the model read back from storage in place of the trained one and
    /// hands out the flowers to predict on: three matrices of three flowers
    /// each, one matrix per species, measured in millimetres.
    /// `artifact_found` says whether storage held a model under
    /// `artifact_key()`.
    pub fn inference(&mut self, artifact_found: bool) -> (out: Result<Vec<Matrix<i64>>, Failure>)
        requires
            old(self).wf(),
        ensures
            final(self).wf(),
            final(self).pipeline().same_identity(old(self).pipeline()),
            match out {
                Ok(samples) => {
                    &&& inference_refusal(
                        old(self).pipeline().stage(),
                        artifact_found,
                        Seq::empty(),
                        old(self).pipeline().testing_data().height(),
                    ) is None
                    &&& final(self).pipeline().stage() == Stage::Inferred
                    &&& final(self).pipeline().x() == old(self).pipeline().x()
                    &&& final(self).pipeline().y() == old(self).pipeline().y()
                    &&& final(self).encoder() == old(self).encoder()
                    &&& samples@.len() == 3
                    &&& forall|i: int|
                        0 <= i < 3 ==> {
                            &&& (#[trigger] samples@[i]).wf()
                            &&& samples@[i].width() == 4
                            &&& samples@[i]@ == class_samples()[i]
                        }
                },
                Err(f) => {
                    &&& inference_refusal(
                        old(self).pipeline().stage(),
                        artifact_found,
                        Seq::empty(),
                        old(self).pipeline().testing_data().height(),
                    ) == Some(f.error)
                    &&& f.names(old(self).pipeline().name()@, Stage::Inferred, f.error)
                    &&& *final(self) == *old(self)
                },
            },
    {
        let windows: Vec<RowRange> = Vec::new();
        match self.pipeline.inference(artifact_found, &windows) {
            Ok(_) => {},
            Err(f) => {
                return Err(f);
            },
        }
        let mut samples: Vec<Matrix<i64>> = Vec::new();
        samples.push(flowers([50, 35, 14, 2], [43, 30, 11, 1], [46, 34, 14, 3]));
        samples.push(flowers([64, 29, 43, 13], [68, 28, 48, 14], [67, 30, 50, 17]));
        samples.push(flowers([64, 27, 53, 19], [77, 38, 67, 22], [79, 38, 64, 20]));
        proof {
            assert(samples@[0]@ =~= class_samples()[0]);
            assert(samples@[1]@ =~= class_samples()[1]);
            assert(samples@[2]@ =~= class_samples()[2]);
        }
        Ok(samples)
    }
}

} // verus!
