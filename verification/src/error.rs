//! The stages of a pipeline and the reasons for which a step is refused.

use vstd::prelude::*;

verus! {

/// The lifecycle position of a pipeline. Stages are passed strictly in this order.
#[derive(Clone, Copy, Debug, PartialEq, Eq, Structural)]
pub enum Stage {
    /// Created, holding empty matrices and a placeholder model.
    Registered,
    /// Feature and target matrices were read from the source.
    Loaded,
    /// Encoders were applied and, where configured, the data was partitioned.
    Transformed,
    /// A model was fitted on the training partition and persisted.
    Trained,
    /// The persisted model was reloaded and used on held-out rows.
    Inferred,
}

/// Why a pipeline step was refused.
#[derive(Clone, Copy, Debug, PartialEq, Eq, Structural)]
pub enum PipelineError {
    /// The data source does not exist or cannot be read.
    SourceNotFound,
    /// A requested column is absent from the source.
    SchemaMismatch,
    /// A selected column holds a null or non-numeric cell.
    NonNumericCell,
    /// Row counts or column counts that must agree do not.
    ShapeMismatch,
    /// No persisted model is stored under the pipeline's key.
    ArtifactNotFound,
    /// A setting is outside its admissible range.
    InvalidConfiguration,
    /// A stage was invoked before its predecessor completed, or a second time.
    StageOrder,
}

impl Stage {
    /// Position of the stage in the lifecycle, counted from zero.
    pub open spec fn rank(self) -> nat {
        match self {
            Stage::Registered => 0,
            Stage::Loaded => 1,
            Stage::Transformed => 2,
            Stage::Trained => 3,
            Stage::Inferred => 4,
        }
    }

    /// Whether a pipeline at this stage has passed through `other`.
    pub open spec fn reached(self, other: Stage) -> bool {
        self.rank() >= other.rank()
    }

    /// The stage that follows this one; the last stage has no successor.
    pub open spec fn successor(self) -> Option<Stage> {
        match self {
            Stage::Registered => Some(Stage::Loaded),
            Stage::Loaded => Some(Stage::Transformed),
            Stage::Transformed => Some(Stage::Trained),
            Stage::Trained => Some(Stage::Inferred),
            Stage::Inferred => None,
        }
    }
}

} // verus!
