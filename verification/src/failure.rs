//! The failures of a render session and how each is handled: all end the
//! process but a stale swap chain, which is rebuilt before the next frame.

use crate::mesh::MeshError;
use crate::swap_chain::AcquireError;
use vstd::prelude::*;

verus! {

/// What can go wrong.
#[derive(Clone, Copy, Debug, PartialEq, Eq, Structural)]
pub enum Failure {
    /// No adapter matches the preference.
    AdapterSelection,
    /// A shader did not compile.
    ShaderCompilation,
    /// The model file could not be loaded.
    MeshLoad,
    /// A buffer could not be created.
    BufferAllocation,
    /// The model holds an index that reaches beyond its arrays.
    IndexOutOfRange,
    /// The surface changed since the swap chain was built.
    StaleSwapChain,
    /// The swap chain could not be built or built anew.
    SwapChainConfiguration,
    /// A recorded frame could not be submitted.
    FrameSubmission,
}

/// How a failure is handled.
#[derive(Clone, Copy, Debug, PartialEq, Eq, Structural)]
pub enum Handling {
    /// The process ends with a diagnostic; nothing is retried or partly
    /// drawn.
    Fatal,
    /// The swap chain is built anew before the next frame; the user sees
    /// nothing of it.
    Recoverable,
}

/// The handling of each failure.
pub open spec fn handling_of(failure: Failure) -> Handling {
    if failure is StaleSwapChain {
        Handling::Recoverable
    } else {
        Handling::Fatal
    }
}

/// The failure behind a refused acquisition: a stale chain is reported as
/// such, a chain that was never built is a failure of configuration.
pub open spec fn failure_of(error: AcquireError) -> Failure {
    match error {
        AcquireError::Stale => Failure::StaleSwapChain,
        AcquireError::Unconfigured => Failure::SwapChainConfiguration,
    }
}

/// The failure behind a model that cannot become a mesh: an index that
/// names nothing, in the model or in the flattened records, or an index list
/// too long for one buffer.
pub open spec fn failure_of_mesh(error: MeshError) -> Failure {
    match error {
        MeshError::OutOfRange(_) => Failure::IndexOutOfRange,
        MeshError::IndexBeyondVertices { .. } => Failure::IndexOutOfRange,
        MeshError::TooManyIndices => Failure::BufferAllocation,
    }
}

impl Failure {
    /// How the failure is handled: only a stale swap chain is recovered
    /// from.
    pub fn handling(&self) -> (h: Handling)
        ensures
            h == handling_of(*self),
            h is Recoverable <==> *self is StaleSwapChain,
    {
        match self {
            Failure::StaleSwapChain => Handling::Recoverable,
            _ => Handling::Fatal,
        }
    }

    /// The failure behind a model that cannot become a mesh.
    pub fn of_mesh(error: MeshError) -> (f: Failure)
        ensures
            f == failure_of_mesh(error),
            handling_of(f) is Fatal,
    {
        match error {
            MeshError::OutOfRange(_) => Failure::IndexOutOfRange,
            MeshError::IndexBeyondVertices { .. } => Failure::IndexOutOfRange,
            MeshError::TooManyIndices => Failure::BufferAllocation,
        }
    }

    /// The failure behind a refused acquisition.
    pub fn of_acquire(error: AcquireError) -> (f: Failure)
        ensures
            f == failure_of(error),
    {
        match error {
            AcquireError::Stale => Failure::StaleSwapChain,
            AcquireError::Unconfigured => Failure::SwapChainConfiguration,
        }
    }
}

} // verus!
