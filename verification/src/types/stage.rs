//! Lifecycle stages of a conversion task.

use vstd::prelude::*;

verus! {

/// Where a task stands in its lifecycle.
///
/// A task is created `Waiting`, becomes `Processing` when a worker picks it
/// up, and ends either `Completed` or `Errored`.
#[derive(Clone, Copy, Debug, PartialEq, Eq, Structural)]
pub enum ProcessingStage {
    Completed,
    Waiting,
    Errored,
    Processing,
}

impl ProcessingStage {
    /// Position of the stage along the lifecycle: `Waiting` is 0,
    /// `Processing` is 1, both terminal stages are 2.
    pub open spec fn rank(self) -> nat {
        match self {
            ProcessingStage::Waiting => 0,
            ProcessingStage::Processing => 1,
            ProcessingStage::Completed => 2,
            ProcessingStage::Errored => 2,
        }
    }

    /// The stage is terminal.
    pub open spec fn spec_is_finished(&self) -> bool {
        *self == ProcessingStage::Completed || *self == ProcessingStage::Errored
    }

    /// The task ended with a conversion result.
    pub open spec fn spec_is_successful(&self) -> bool {
        *self == ProcessingStage::Completed
    }

    /// A task never moves backward: `later` is the same stage as `self`, or
    /// one further along the lifecycle. A terminal stage is followed only by
    /// itself.
    pub open spec fn may_become(self, later: ProcessingStage) -> bool {
        self == later || self.rank() < later.rank()
    }

    /// The task ended with a conversion result.
    #[verifier::when_used_as_spec(spec_is_successful)]
    pub fn is_successful(&self) -> (b: bool)
        ensures
            b == self.spec_is_successful(),
    {
        *self == ProcessingStage::Completed
    }

    /// The task reached a terminal stage.
    #[verifier::when_used_as_spec(spec_is_finished)]
    pub fn is_finished(&self) -> (b: bool)
        ensures
            b == self.spec_is_finished(),
    {
        *self == ProcessingStage::Completed || *self == ProcessingStage::Errored
    }
}

/// Strategy by which a document is turned into markdown.
///
/// The pipeline only carries the selector; the strategies themselves live
/// outside this crate.
#[derive(Clone, Copy, Debug, PartialEq, Eq, Structural)]
pub enum MarkdownConversionMethod {
    Simple,
    Marker,
    OlmOcr,
}

impl Default for MarkdownConversionMethod {
    fn default() -> (method: Self)
        ensures
            method == MarkdownConversionMethod::Simple,
    {
        MarkdownConversionMethod::Simple
    }
}

/// The method a request asks for, or `Simple` when it names none.
pub fn method_or_default(requested: Option<MarkdownConversionMethod>) -> (method:
    MarkdownConversionMethod)
    ensures
        method == match requested {
            Some(m) => m,
            None => MarkdownConversionMethod::Simple,
        },
{
    match requested {
        Some(m) => m,
        None => MarkdownConversionMethod::Simple,
    }
}

} // verus!
