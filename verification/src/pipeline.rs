//! The four-stage lifecycle shared by every data set.
//!
//! A `Pipeline` owns the matrices of one data set, the split made of them and
//! the card of its model. Each step checks the stage it starts from, does its
//! work in full or not at all, and names the data set and the stage in the
//! failure it returns.

use vstd::prelude::*;
use crate::error::{PipelineError, Stage};
use crate::matrix::Matrix;
use crate::model::{check_settings, settings_refusal, ModelCard, ModelKind, ModelState, Schedule, TrainingJob, UpdateRule};
use crate::ratio::Ratio;
use crate::splitter::{split, Partition, Split};
use crate::table::{all_numeric, all_present, names_of, projected_rows, Table};

verus! {

/// A refused step: which data set, on the way to which stage, and why.
#[derive(Debug)]
pub struct Failure {
    /// Name of the data set whose pipeline failed.
    pub dataset: String,
    /// The stage that the step was to reach.
    pub stage: Stage,
    /// The reason.
    pub error: PipelineError,
}

impl Failure {
    /// The failure names `dataset`, `stage` and `error`.
    pub open spec fn names(&self, dataset: Seq<char>, stage: Stage, error: PipelineError) -> bool {
        self.dataset@ == dataset && self.stage == stage && self.error == error
    }
}

/// A run of rows, `start` included and `end` excluded.
#[derive(Clone, Copy, Debug, PartialEq, Eq, Structural)]
pub struct RowRange {
    pub start: usize,
    pub end: usize,
}

impl RowRange {
    /// The range runs forwards and ends within `rows` rows.
    pub open spec fn fits(self, rows: nat) -> bool {
        self.start <= self.end <= rows
    }
}

/// Every range of `windows` fits into `rows` rows.
pub open spec fn all_fit(windows: Seq<RowRange>, rows: nat) -> bool {
    forall|i: int| 0 <= i < windows.len() ==> (#[trigger] windows[i]).fits(rows)
}

/// The pipeline of one data set.
#[derive(Debug)]
pub struct Pipeline<T> {
    name: String,
    source: String,
    artifact_key: String,
    data: Partition<T>,
    cut: Option<Ratio>,
    split: Option<Split<T>>,
    model: ModelCard,
    stage: Stage,
}

/// The error with which `Pipeline::load` answers, if it refuses.
pub open spec fn load_refusal<T>(
    stage: Stage,
    source: Option<&Table<T>>,
    features: Seq<Seq<char>>,
    targets: Seq<Seq<char>>,
) -> Option<PipelineError> {
    if stage != Stage::Registered {
        Some(PipelineError::StageOrder)
    } else {
        match source {
            None => Some(PipelineError::SourceNotFound),
            Some(table) => {
                if !all_present(table.names(), features) || !all_present(table.names(), targets) {
                    Some(PipelineError::SchemaMismatch)
                } else if !all_numeric(table.names(), table.columns(), features) || !all_numeric(
                    table.names(),
                    table.columns(),
                    targets,
                ) {
                    Some(PipelineError::NonNumericCell)
                } else {
                    None
                }
            },
        }
    }
}

impl<T> Pipeline<T> {
    /// The name given at registration.
    pub closed spec fn spec_name(&self) -> &String {
        &self.name
    }

    /// The locator of the data source.
    pub closed spec fn spec_file_path(&self) -> &String {
        &self.source
    }

    /// The key under which the model is persisted and found again.
    pub closed spec fn spec_artifact_key(&self) -> &String {
        &self.artifact_key
    }

    /// The feature matrix X.
    pub closed spec fn spec_x(&self) -> &Matrix<T> {
        &self.data.features
    }

    /// The target matrix Y.
    pub closed spec fn spec_y(&self) -> &Matrix<T> {
        &self.data.targets
    }

    /// The fraction at which the data was cut, where it was cut.
    pub closed spec fn spec_cut(&self) -> Option<Ratio> {
        self.cut
    }

    /// Whether the pipeline holds the two parts of a cut.
    pub closed spec fn holds_parts(&self) -> bool {
        self.split is Some
    }

    /// The card of the model.
    pub closed spec fn spec_model(&self) -> ModelCard {
        self.model
    }

    /// The stage reached so far.
    pub closed spec fn spec_stage(&self) -> Stage {
        self.stage
    }

    /// The rows a model is fitted on: the leading part of a cut, or all rows
    /// where the data is not cut.
    pub closed spec fn spec_training_data(&self) -> &Partition<T> {
        match &self.split {
            Some(s) => &s.training,
            None => &self.data,
        }
    }

    /// The rows a model is tried on: the trailing part of a cut, or all rows
    /// where the data is not cut.
    pub closed spec fn spec_testing_data(&self) -> &Partition<T> {
        match &self.split {
            Some(s) => &s.testing,
            None => &self.data,
        }
    }

    /// The name given at registration.
    #[verifier::when_used_as_spec(spec_name)]
    pub fn name(&self) -> (out: &String)
        ensures
            out == self.name(),
    {
        &self.name
    }

    /// The locator of the data source.
    #[verifier::when_used_as_spec(spec_file_path)]
    pub fn file_path(&self) -> (out: &String)
        ensures
            out == self.file_path(),
    {
        &self.source
    }

    /// The key under which the model is persisted and found again.
    #[verifier::when_used_as_spec(spec_artifact_key)]
    pub fn artifact_key(&self) -> (out: &String)
        ensures
            out == self.artifact_key(),
    {
        &self.artifact_key
    }

    /// The feature matrix X.
    #[verifier::when_used_as_spec(spec_x)]
    pub fn x(&self) -> (out: &Matrix<T>)
        ensures
            out == self.x(),
    {
        &self.data.features
    }

    /// The target matrix Y.
    #[verifier::when_used_as_spec(spec_y)]
    pub fn y(&self) -> (out: &Matrix<T>)
        ensures
            out == self.y(),
    {
        &self.data.targets
    }

    /// The fraction at which the data was cut, where it was cut.
    #[verifier::when_used_as_spec(spec_cut)]
    pub fn cut(&self) -> (out: Option<Ratio>)
        ensures
            out == self.cut(),
    {
        self.cut
    }

    /// The card of the model.
    #[verifier::when_used_as_spec(spec_model)]
    pub fn model(&self) -> (out: ModelCard)
        ensures
            out == self.model(),
    {
        self.model
    }

    /// The stage reached so far.
    #[verifier::when_used_as_spec(spec_stage)]
    pub fn stage(&self) -> (out: Stage)
        ensures
            out == self.stage(),
    {
        self.stage
    }

    /// The rows a model is fitted on.
    #[verifier::when_used_as_spec(spec_training_data)]
    pub fn training_data(&self) -> (out: &Partition<T>)
        ensures
            out == self.training_data(),
    {
        match &self.split {
            Some(s) => &s.training,
            None => &self.data,
        }
    }

    /// The rows a model is tried on.
    #[verifier::when_used_as_spec(spec_testing_data)]
    pub fn testing_data(&self) -> (out: &Partition<T>)
        ensures
            out == self.testing_data(),
    {
        match &self.split {
            Some(s) => &s.testing,
            None => &self.data,
        }
    }

    /// The state of the model that goes with a stage.
    pub open spec fn model_state_at(stage: Stage) -> ModelState {
        match stage {
            Stage::Trained => ModelState::Trained,
            Stage::Inferred => ModelState::Reloaded,
            _ => ModelState::Placeholder,
        }
    }

    /// The parts that a cut of `x` and `y` must show: where there is a cut,
    /// the training rows are the leading `floor(fraction * rows)` rows and the
    /// testing rows the rest; where there is none, both are all rows.
    pub open spec fn parts_follow_cut(&self) -> bool {
        match self.cut() {
            Some(f) => {
                let n = self.x().height() as int;
                let k = f.floor_of(self.x().height()) as int;
                &&& f.is_proper()
                &&& self.training_data().is_rows_of(self.x(), self.y(), 0, k)
                &&& self.testing_data().is_rows_of(self.x(), self.y(), k, n)
            },
            None => {
                &&& *self.training_data() == (Partition { features: *self.x(), targets: *self.y() })
                &&& *self.testing_data() == (Partition { features: *self.x(), targets: *self.y() })
            },
        }
    }

    /// X and Y are rectangular and aligned row by row; a registered pipeline
    /// holds no data; data is cut only from the transform on, and the two
    /// parts are then the cut of the current matrices; the model card goes
    /// with the stage and, once trained, with the shape of the training rows.
    pub open spec fn wf(&self) -> bool {
        &&& self.x().wf()
        &&& self.y().wf()
        &&& self.x().height() == self.y().height()
        &&& self.stage() == Stage::Registered ==> {
            &&& self.x().height() == 0
            &&& self.x().width() == 0
            &&& self.y().width() == 0
        }
        &&& !self.stage().reached(Stage::Transformed) ==> self.cut() is None
        &&& self.cut() is Some <==> self.holds_parts()
        &&& self.training_data().wf()
        &&& self.testing_data().wf()
        &&& self.parts_follow_cut()
        &&& self.model().state == Self::model_state_at(self.stage())
        &&& self.stage().reached(Stage::Trained) ==> {
            &&& self.model().samples == self.training_data().height()
            &&& self.model().inputs == self.training_data().features.width()
            &&& self.model().outputs == self.training_data().targets.width()
        }
    }

    /// The same name, source and artifact key.
    pub open spec fn same_identity(&self, other: &Pipeline<T>) -> bool {
        &&& self.name()@ == other.name()@
        &&& self.file_path()@ == other.file_path()@
        &&& self.artifact_key()@ == other.artifact_key()@
    }

    /// The failure that a step of this pipeline on its way to `stage` reports for `error`.
    pub fn failure(&self, stage: Stage, error: PipelineError) -> (out: Failure)
        ensures
            out.names(self.name()@, stage, error),
    {
        Failure { dataset: self.name.clone(), stage, error }
    }
}

/// What an encoder made of a matrix.
#[derive(Debug)]
pub enum Encoded<T> {
    /// No encoder was applied; the matrix stays as it is.
    Unchanged,
    /// The outcome of a scaling, which keeps the shape.
    Scaled(Matrix<T>),
    /// The outcome of a one-hot encoding, which keeps the rows and sets the
    /// number of columns to the number of classes.
    Expanded(Matrix<T>),
}

impl<T> Encoded<T> {
    /// A carried matrix is rectangular.
    pub open spec fn wf(&self) -> bool {
        match self {
            Encoded::Unchanged => true,
            Encoded::Scaled(m) => m.wf(),
            Encoded::Expanded(m) => m.wf(),
        }
    }

    /// Whether the outcome keeps what its encoder must keep of `before`.
    pub open spec fn fits(&self, before: &Matrix<T>) -> bool {
        match self {
            Encoded::Unchanged => true,
            Encoded::Scaled(m) => m.height() == before.height() && m.width() == before.width(),
            Encoded::Expanded(m) => m.height() == before.height(),
        }
    }

    /// The rows that stand in place of `before` after encoding.
    pub open spec fn rows_after(&self, before: &Matrix<T>) -> Seq<Seq<T>> {
        match self {
            Encoded::Unchanged => before@,
            Encoded::Scaled(m) => m@,
            Encoded::Expanded(m) => m@,
        }
    }

    /// The number of columns that stand in place of those of `before` after encoding.
    pub open spec fn width_after(&self, before: &Matrix<T>) -> nat {
        match self {
            Encoded::Unchanged => before.width(),
            Encoded::Scaled(m) => m.width(),
            Encoded::Expanded(m) => m.width(),
        }
    }
}

/// The error with which `Pipeline::transform` answers, if it refuses.
pub open spec fn transform_refusal<T>(
    before: &Pipeline<T>,
    x: &Encoded<T>,
    y: &Encoded<T>,
    cut: Option<Ratio>,
) -> Option<PipelineError> {
    if before.stage() != Stage::Loaded {
        Some(PipelineError::StageOrder)
    } else if !x.fits(before.x()) || !y.fits(before.y()) {
        Some(PipelineError::ShapeMismatch)
    } else if cut matches Some(f) && !f.is_proper() {
        Some(PipelineError::InvalidConfiguration)
    } else {
        None
    }
}

/// The error with which `Pipeline::train` answers, if it refuses.
pub open spec fn train_refusal(stage: Stage, learning_rate: Ratio, schedule: Schedule) -> Option<
    PipelineError,
> {
    if stage != Stage::Transformed {
        Some(PipelineError::StageOrder)
    } else {
        settings_refusal(learning_rate, schedule)
    }
}

/// The error with which `Pipeline::inference` answers, if it refuses.
pub open spec fn inference_refusal(
    stage: Stage,
    artifact_found: bool,
    windows: Seq<RowRange>,
    held_out_rows: nat,
) -> Option<PipelineError> {
    if stage != Stage::Trained {
        Some(PipelineError::StageOrder)
    } else if !artifact_found {
        Some(PipelineError::ArtifactNotFound)
    } else if !all_fit(windows, held_out_rows) {
        Some(PipelineError::ShapeMismatch)
    } else {
        None
    }
}

/// What a load step leaves behind and answers.
///
/// Where nothing is refused the pipeline is loaded: X holds the feature
/// columns and Y the target columns of the source, in the order in which they
/// are listed, and all else is as before. Where something is refused, the
/// failure names the reason and the pipeline is as it was.
pub open spec fn load_outcome<T>(
    before: &Pipeline<T>,
    source: Option<&Table<T>>,
    features: Seq<Seq<char>>,
    targets: Seq<Seq<char>>,
    after: &Pipeline<T>,
    out: Result<(), Failure>,
) -> bool {
    match out {
        Ok(()) => {
            let table = source->Some_0;
            &&& load_refusal(before.stage(), source, features, targets) is None
            &&& after.same_identity(before)
            &&& after.stage() == Stage::Loaded
            &&& after.x()@ == projected_rows(table.names(), table.columns(), table.height(), features)
            &&& after.y()@ == projected_rows(table.names(), table.columns(), table.height(), targets)
            &&& after.x().width() == features.len()
            &&& after.y().width() == targets.len()
            &&& after.x().height() == table.height()
            &&& after.cut() is None
            &&& after.model() == before.model()
        },
        Err(f) => {
            &&& load_refusal(before.stage(), source, features, targets) == Some(f.error)
            &&& f.names(before.name()@, Stage::Loaded, f.error)
            &&& *after == *before
        },
    }
}

/// A load that asks for a column which the source lacks is a schema mismatch,
/// and fills no matrix, neither in part nor in whole: the registered
/// pipeline keeps its empty X and Y.
pub proof fn absent_column_loads_nothing<T>(
    before: &Pipeline<T>,
    table: &Table<T>,
    features: Seq<Seq<char>>,
    targets: Seq<Seq<char>>,
    after: &Pipeline<T>,
    out: Result<(), Failure>,
)
    requires
        before.wf(),
        before.stage() == Stage::Registered,
        !all_present(table.names(), features) || !all_present(table.names(), targets),
        load_outcome(before, Some(table), features, targets, after, out),
    ensures
        out matches Err(f) && f.error == PipelineError::SchemaMismatch,
        *after == *before,
        after.stage() == Stage::Registered,
        after.x().height() == 0 && after.x().width() == 0,
        after.y().height() == 0 && after.y().width() == 0,
{
}

/// Tells whether an encoder's outcome keeps what it must keep of `before`.
pub fn encoded_fits<T>(outcome: &Encoded<T>, before: &Matrix<T>) -> (b: bool)
    ensures
        b == outcome.fits(before),
{
    match outcome {
        Encoded::Unchanged => true,
        Encoded::Scaled(m) => m.nrows() == before.nrows() && m.ncols() == before.ncols(),
        Encoded::Expanded(m) => m.nrows() == before.nrows(),
    }
}

impl<T: Copy> Pipeline<T> {
    /// Registers a pipeline: no data yet, no split, and a placeholder model of
    /// the given variant and learning rate.
    pub fn register(name: &str, file_path: &str, artifact_key: &str, kind: ModelKind, learning_rate: Ratio) -> (out:
        Self)
        ensures
            out.wf(),
            out.stage() == Stage::Registered,
            out.name()@ == name@,
            out.file_path()@ == file_path@,
            out.artifact_key()@ == artifact_key@,
            out.x()@.len() == 0,
            out.y()@.len() == 0,
            out.cut() is None,
            out.model() == (ModelCard {
                kind,
                learning_rate,
                state: ModelState::Placeholder,
                samples: 0,
                inputs: 0,
                outputs: 0,
            }),
    {
        Pipeline {
            name: name.to_owned(),
            source: file_path.to_owned(),
            artifact_key: artifact_key.to_owned(),
            data: Partition::empty(),
            cut: None,
            split: None,
            model: ModelCard::placeholder(kind, learning_rate),
            stage: Stage::Registered,
        }
    }

    /// The load step: projects the feature columns and the target columns out
    /// of the source, in the order in which they are listed.
    ///
    /// `source` is what opening the source gave: `None` where it does not
    /// exist or cannot be read. A listed column that the source lacks is a
    /// schema mismatch, whatever else is wrong with the cells; an empty cell in
    /// a listed column is refused after that. On a refusal nothing changes.
    pub fn load(&mut self, source: Option<&Table<T>>, features: &Vec<String>, targets: &Vec<String>) -> (out:
        Result<(), Failure>)
        requires
            old(self).wf(),
            source matches Some(table) ==> table.wf(),
        ensures
            final(self).wf(),
            load_outcome(old(self), source, names_of(*features), names_of(*targets), final(self), out),
    {
        if self.stage != Stage::Registered {
            return Err(self.failure(Stage::Loaded, PipelineError::StageOrder));
        }
        let table = match source {
            Some(table) => table,
            None => {
                return Err(self.failure(Stage::Loaded, PipelineError::SourceNotFound));
            },
        };
        if !table.has_columns(features) || !table.has_columns(targets) {
            return Err(self.failure(Stage::Loaded, PipelineError::SchemaMismatch));
        }
        let x = match table.project(features) {
            Ok(x) => x,
            Err(e) => {
                return Err(self.failure(Stage::Loaded, e));
            },
        };
        let y = match table.project(targets) {
            Ok(y) => y,
            Err(e) => {
                return Err(self.failure(Stage::Loaded, e));
            },
        };
        self.data = Partition { features: x, targets: y };
        self.stage = Stage::Loaded;
        Ok(())
    }

    /// The transform step: rebinds X and Y to their encoded forms and cuts
    /// them where a cut is asked for.
    ///
    /// `x` and `y` are what the encoders made of the loaded matrices. A
    /// scaling keeps the shape and a one-hot encoding keeps the rows, so an
    /// outcome that does not is a shape mismatch. With `cut` the rows are
    /// split at that fraction; without it training and testing both see all
    /// rows. On a refusal nothing changes.
    pub fn transform(&mut self, x: Encoded<T>, y: Encoded<T>, cut: Option<Ratio>) -> (out: Result<(), Failure>)
        requires
            old(self).wf(),
            x.wf(),
            y.wf(),
        ensures
            final(self).wf(),
            final(self).same_identity(old(self)),
            out is Ok ==> old(self).stage().successor() == Some(final(self).stage()),
            match out {
                Ok(()) => {
                    &&& transform_refusal(old(self), &x, &y, cut) is None
                    &&& final(self).stage() == Stage::Transformed
                    &&& final(self).x()@ == x.rows_after(old(self).x())
                    &&& final(self).y()@ == y.rows_after(old(self).y())
                    &&& final(self).x().width() == x.width_after(old(self).x())
                    &&& final(self).y().width() == y.width_after(old(self).y())
                    &&& final(self).cut() == cut
                    &&& final(self).model() == old(self).model()
                },
                Err(f) => {
                    &&& transform_refusal(old(self), &x, &y, cut) == Some(f.error)
                    &&& f.names(old(self).name()@, Stage::Transformed, f.error)
                    &&& *final(self) == *old(self)
                },
            },
    {
        if self.stage != Stage::Loaded {
            return Err(self.failure(Stage::Transformed, PipelineError::StageOrder));
        }
        if !encoded_fits(&x, &self.data.features) || !encoded_fits(&y, &self.data.targets) {
            return Err(self.failure(Stage::Transformed, PipelineError::ShapeMismatch));
        }
        let parts = match cut {
            Some(fraction) => {
                let x_after = match &x {
                    Encoded::Unchanged => &self.data.features,
                    Encoded::Scaled(m) => m,
                    Encoded::Expanded(m) => m,
                };
                let y_after = match &y {
                    Encoded::Unchanged => &self.data.targets,
                    Encoded::Scaled(m) => m,
                    Encoded::Expanded(m) => m,
                };
                match split(x_after, y_after, fraction) {
                    Ok(parts) => Some(parts),
                    Err(e) => {
                        return Err(self.failure(Stage::Transformed, e));
                    },
                }
            },
            None => None,
        };
        match x {
            Encoded::Unchanged => {},
            Encoded::Scaled(m) => {
                self.data.features = m;
            },
            Encoded::Expanded(m) => {
                self.data.features = m;
            },
        }
        match y {
            Encoded::Unchanged => {},
            Encoded::Scaled(m) => {
                self.data.targets = m;
            },
            Encoded::Expanded(m) => {
                self.data.targets = m;
            },
        }
        self.split = parts;
        self.cut = cut;
        self.stage = Stage::Transformed;
        Ok(())
    }

    /// The train step: replaces the placeholder by a model built over the
    /// training rows and says what has to be fitted and persisted.
    ///
    /// The learning rate must lie between zero and one and a mini-batch must
    /// hold a row, else the configuration is invalid. On a refusal nothing
    /// changes.
    pub fn train(&mut self, rule: UpdateRule, learning_rate: Ratio, schedule: Schedule) -> (out: Result<
        TrainingJob,
        Failure,
    >)
        requires
            old(self).wf(),
        ensures
            final(self).wf(),
            final(self).same_identity(old(self)),
            out is Ok ==> old(self).stage().successor() == Some(final(self).stage()),
            match out {
                Ok(job) => {
                    &&& train_refusal(old(self).stage(), learning_rate, schedule) is None
                    &&& final(self).stage() == Stage::Trained
                    &&& final(self).x() == old(self).x()
                    &&& final(self).y() == old(self).y()
                    &&& final(self).cut() == old(self).cut()
                    &&& final(self).training_data() == old(self).training_data()
                    &&& final(self).testing_data() == old(self).testing_data()
                    &&& final(self).model() == (ModelCard {
                        kind: old(self).model().kind,
                        learning_rate,
                        state: ModelState::Trained,
                        samples: job.samples,
                        inputs: job.inputs,
                        outputs: job.outputs,
                    })
                    &&& job.kind == old(self).model().kind
                    &&& job.learning_rate == learning_rate
                    &&& job.rule == rule
                    &&& job.schedule == schedule
                    &&& job.artifact_key@ == old(self).artifact_key()@
                    &&& job.samples == old(self).training_data().height()
                    &&& job.inputs == old(self).training_data().features.width()
                    &&& job.outputs == old(self).training_data().targets.width()
                },
                Err(f) => {
                    &&& train_refusal(old(self).stage(), learning_rate, schedule) == Some(f.error)
                    &&& f.names(old(self).name()@, Stage::Trained, f.error)
                    &&& *final(self) == *old(self)
                },
            },
    {
        if self.stage != Stage::Transformed {
            return Err(self.failure(Stage::Trained, PipelineError::StageOrder));
        }
        match check_settings(learning_rate, schedule) {
            Ok(()) => {},
            Err(e) => {
                return Err(self.failure(Stage::Trained, e));
            },
        }
        let training = self.training_data();
        let samples = training.features.nrows();
        let inputs = training.features.ncols();
        let outputs = training.targets.ncols();
        let job = TrainingJob {
            kind: self.model.kind,
            learning_rate,
            rule,
            schedule,
            artifact_key: self.artifact_key.clone(),
            samples,
            inputs,
            outputs,
        };
        self.model = ModelCard {
            kind: self.model.kind,
            learning_rate,
            state: ModelState::Trained,
            samples,
            inputs,
            outputs,
        };
        self.stage = Stage::Trained;
        Ok(job)
    }

    /// The inference step: swaps the trained model for the one read back from
    /// storage and hands out the held-out rows to predict on.
    ///
    /// `artifact_found` says whether storage held a model under
    /// `artifact_key()`. Each window is a run of testing rows; the answer holds,
    /// window by window, the feature rows to predict from and the target rows to
    /// compare with. A window that leaves the testing rows is a shape mismatch.
    /// On a refusal nothing changes.
    pub fn inference(&mut self, artifact_found: bool, windows: &Vec<RowRange>) -> (out: Result<
        Vec<Partition<T>>,
        Failure,
    >)
        requires
            old(self).wf(),
        ensures
            final(self).wf(),
            final(self).same_identity(old(self)),
            out is Ok ==> old(self).stage().successor() == Some(final(self).stage()),
            match out {
                Ok(parts) => {
                    &&& inference_refusal(
                        old(self).stage(),
                        artifact_found,
                        windows@,
                        old(self).testing_data().height(),
                    ) is None
                    &&& final(self).stage() == Stage::Inferred
                    &&& final(self).x() == old(self).x()
                    &&& final(self).y() == old(self).y()
                    &&& final(self).cut() == old(self).cut()
                    &&& final(self).training_data() == old(self).training_data()
                    &&& final(self).testing_data() == old(self).testing_data()
                    &&& final(self).model() == (ModelCard {
                        state: ModelState::Reloaded,
                        ..old(self).model()
                    })
                    &&& parts@.len() == windows@.len()
                    &&& forall|i: int|
                        0 <= i < windows@.len() ==> {
                            &&& (#[trigger] parts@[i]).wf()
                            &&& parts@[i].is_rows_of(
                                &old(self).testing_data().features,
                                &old(self).testing_data().targets,
                                windows@[i].start as int,
                                windows@[i].end as int,
                            )
                        }
                },
                Err(f) => {
                    &&& inference_refusal(
                        old(self).stage(),
                        artifact_found,
                        windows@,
                        old(self).testing_data().height(),
                    ) == Some(f.error)
                    &&& f.names(old(self).name()@, Stage::Inferred, f.error)
                    &&& *final(self) == *old(self)
                },
            },
    {
        if self.stage != Stage::Trained {
            return Err(self.failure(Stage::Inferred, PipelineError::StageOrder));
        }
        if !artifact_found {
            return Err(self.failure(Stage::Inferred, PipelineError::ArtifactNotFound));
        }
        let mut parts: Vec<Partition<T>> = Vec::new();
        let mut i: usize = 0;
        while i < windows.len()
            invariant
                self.wf(),
                *self == *old(self),
                self.stage() == Stage::Trained,
                artifact_found,
                0 <= i <= windows@.len(),
                parts@.len() == i,
                forall|k: int| 0 <= k < i ==> (#[trigger] windows@[k]).fits(self.testing_data().height()),
                forall|k: int|
                    0 <= k < i ==> {
                        &&& (#[trigger] parts@[k]).wf()
                        &&& parts@[k].is_rows_of(
                            &self.testing_data().features,
                            &self.testing_data().targets,
                            windows@[k].start as int,
                            windows@[k].end as int,
                        )
                    },
            decreases windows@.len() - i,
        {
            let window = windows[i];
            let held_out = self.testing_data();
            let features = held_out.features.slice_rows(window.start, window.end);
            let targets = held_out.targets.slice_rows(window.start, window.end);
            match (features, targets) {
                (Ok(features), Ok(targets)) => {
                    parts.push(Partition { features, targets });
                },
                _ => {
                    assert(!windows@[i as int].fits(self.testing_data().height()));
                    return Err(self.failure(Stage::Inferred, PipelineError::ShapeMismatch));
                },
            }
            i += 1;
        }
        self.model = ModelCard {
            kind: self.model.kind,
            learning_rate: self.model.learning_rate,
            state: ModelState::Reloaded,
            samples: self.model.samples,
            inputs: self.model.inputs,
            outputs: self.model.outputs,
        };
        self.stage = Stage::Inferred;
        Ok(parts)
    }
}

} // verus!
