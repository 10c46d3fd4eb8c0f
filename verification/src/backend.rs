//! The backend that feeds a pipeline.

use vstd::prelude::*;

verus! {

/// The backend that a pipeline is built on.
#[derive(Debug, Clone, Copy, PartialEq, Eq, Structural)]
pub enum PipelineBackend {
    /// PipeWire, which allows preview and recording at the same time.
    PipeWire,
}

} // verus!
