//! What a pipeline knows of its model: its variant, its settings and where it
//! stands between registration, training and reloading.
//!
//! The parameters themselves and the optimisation that finds them live with
//! the caller. A pipeline hands out a `TrainingJob` that says what to fit and
//! under which key to persist it, and later asks for the artifact under that
//! same key.

use vstd::prelude::*;
use crate::error::PipelineError;
use crate::ratio::Ratio;

verus! {

/// The variants of a trainable model.
#[derive(Clone, Copy, Debug, PartialEq, Eq, Structural)]
pub enum ModelKind {
    /// A weight vector and a bias, fitted on the mean squared error.
    LinearRegressor,
    /// A binary classifier with one output, fitted on the cross entropy.
    BinaryClassifier,
    /// A classifier with one weight column per class, fitted on one-hot targets.
    MultiClassClassifier,
}

/// How a gradient becomes a change of the parameters.
#[derive(Clone, Copy, Debug, PartialEq, Eq, Structural)]
pub enum UpdateRule {
    /// The parameters move against the gradient by the learning rate.
    GradientDescent,
    /// The step is shaped by running estimates of the first and second moment
    /// of the gradient.
    Adam,
}

/// Where a model stands in its life.
#[derive(Clone, Copy, Debug, PartialEq, Eq, Structural)]
pub enum ModelState {
    /// Zero-initialised stand-in made at registration; never usable.
    Placeholder,
    /// Fitted in memory and written to storage.
    Trained,
    /// A fresh instance read back from storage.
    Reloaded,
}

/// The settings of mini-batch training.
///
/// Training runs in rounds. A round makes `epochs_per_round` passes over the
/// training rows, each pass dealing the rows into mini-batches of
/// `batch_size`, and ends with a progress report. The number of passes
/// between two reports is therefore `epochs_per_round`, and the number of
/// passes in all is `rounds * epochs_per_round`.
#[derive(Clone, Copy, Debug, PartialEq, Eq, Structural)]
pub struct Schedule {
    /// Rounds of training, each ending with a progress report.
    pub rounds: usize,
    /// Rows per mini-batch.
    pub batch_size: usize,
    /// Passes over the training rows in one round.
    pub epochs_per_round: usize,
}

impl Schedule {
    /// A mini-batch holds at least one row.
    pub open spec fn is_valid(self) -> bool {
        self.batch_size > 0
    }
}

/// A learning rate is usable when it lies between zero and one, both included.
pub open spec fn is_learning_rate(rate: Ratio) -> bool {
    0 < rate.denom && rate.numer <= rate.denom
}

/// Tells whether `rate` is usable as a learning rate.
pub fn learning_rate_is_valid(rate: Ratio) -> (b: bool)
    ensures
        b == is_learning_rate(rate),
{
    0 < rate.denom && rate.numer <= rate.denom
}

/// The description of a model as a pipeline holds it.
#[derive(Clone, Copy, Debug, PartialEq, Eq, Structural)]
pub struct ModelCard {
    /// The variant.
    pub kind: ModelKind,
    /// The step size of the update rule.
    pub learning_rate: Ratio,
    /// Where the model stands in its life.
    pub state: ModelState,
    /// Rows of the last training input.
    pub samples: usize,
    /// Columns of the last training input.
    pub inputs: usize,
    /// Columns of the last training target.
    pub outputs: usize,
}

impl ModelCard {
    /// The stand-in that a pipeline holds from registration until training:
    /// built over matrices without rows or columns.
    pub fn placeholder(kind: ModelKind, learning_rate: Ratio) -> (out: Self)
        ensures
            out == (ModelCard {
                kind,
                learning_rate,
                state: ModelState::Placeholder,
                samples: 0,
                inputs: 0,
                outputs: 0,
            }),
    {
        ModelCard { kind, learning_rate, state: ModelState::Placeholder, samples: 0, inputs: 0, outputs: 0 }
    }
}

/// What a training step is asked to do.
#[derive(Debug)]
pub struct TrainingJob {
    /// The variant to build.
    pub kind: ModelKind,
    /// The step size of the update rule.
    pub learning_rate: Ratio,
    /// How gradients are applied.
    pub rule: UpdateRule,
    /// The mini-batch settings.
    pub schedule: Schedule,
    /// The key under which the fitted model must be persisted.
    pub artifact_key: String,
    /// Rows of the training partition.
    pub samples: usize,
    /// Feature columns of the training partition.
    pub inputs: usize,
    /// Target columns of the training partition.
    pub outputs: usize,
}

/// The error with which a training step answers, if it refuses its settings.
pub open spec fn settings_refusal(learning_rate: Ratio, schedule: Schedule) -> Option<PipelineError> {
    if !is_learning_rate(learning_rate) || !schedule.is_valid() {
        Some(PipelineError::InvalidConfiguration)
    } else {
        None
    }
}

/// Judges the settings of a training step: the learning rate must lie between
/// zero and one, and a mini-batch must hold at least one row.
pub fn check_settings(learning_rate: Ratio, schedule: Schedule) -> (out: Result<(), PipelineError>)
    ensures
        match out {
            Ok(()) => settings_refusal(learning_rate, schedule) is None,
            Err(e) => settings_refusal(learning_rate, schedule) == Some(e),
        },
{
    if !learning_rate_is_valid(learning_rate) || schedule.batch_size == 0 {
        Err(PipelineError::InvalidConfiguration)
    } else {
        Ok(())
    }
}

} // verus!
