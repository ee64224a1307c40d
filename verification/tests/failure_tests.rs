use mesh_viewer::failure::{Failure, Handling};
use mesh_viewer::mesh::{MeshError, OutOfRangeError};
use mesh_viewer::swap_chain::{AcquireError, SwapChainDescriptor, SwapChainState};

#[test]
fn failed_adapter_selection_is_fatal() {
    assert_eq!(Failure::AdapterSelection.handling(), Handling::Fatal);
}

#[test]
fn only_a_stale_swap_chain_is_recovered_from() {
    let all = [
        Failure::AdapterSelection,
        Failure::ShaderCompilation,
        Failure::MeshLoad,
        Failure::BufferAllocation,
        Failure::IndexOutOfRange,
        Failure::StaleSwapChain,
        Failure::SwapChainConfiguration,
        Failure::FrameSubmission,
    ];
    for f in all {
        let want =
            if f == Failure::StaleSwapChain { Handling::Recoverable } else { Handling::Fatal };
        assert_eq!(f.handling(), want);
    }
}

#[test]
fn refused_acquisition_after_resize_is_recoverable() {
    let s = SwapChainState::new().configure(SwapChainDescriptor::new(8, 8)).resize(9, 9);
    let e = s.acquire().unwrap_err();
    assert_eq!(Failure::of_acquire(e), Failure::StaleSwapChain);
    assert_eq!(Failure::of_acquire(e).handling(), Handling::Recoverable);
}

#[test]
fn acquisition_without_a_chain_is_fatal() {
    assert_eq!(Failure::of_acquire(AcquireError::Unconfigured), Failure::SwapChainConfiguration);
    assert_eq!(Failure::SwapChainConfiguration.handling(), Handling::Fatal);
}

#[test]
fn mesh_errors_are_fatal() {
    let out = MeshError::OutOfRange(OutOfRangeError { at: 2, index: 9 });
    assert_eq!(Failure::of_mesh(out), Failure::IndexOutOfRange);
    let beyond = MeshError::IndexBeyondVertices { at: 0, index: 7 };
    assert_eq!(Failure::of_mesh(beyond), Failure::IndexOutOfRange);
    assert_eq!(Failure::of_mesh(MeshError::TooManyIndices), Failure::BufferAllocation);
    assert_eq!(Failure::of_mesh(out).handling(), Handling::Fatal);
    assert_eq!(Failure::of_mesh(MeshError::TooManyIndices).handling(), Handling::Fatal);
}
