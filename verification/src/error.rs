//! The ways one image generation can fail.

use vstd::prelude::*;

verus! {

/// Why an image generation stopped without an image.
#[derive(Clone, Copy, Debug, PartialEq, Eq, Structural)]
pub enum GenerationError {
    /// The device image or the staging buffer could not be allocated.
    AllocationError,
    /// The compute kernel did not compile or load.
    KernelCompileError,
    /// The compute pipeline could not be built from the kernel.
    PipelineLinkError,
    /// The image does not fit the binding slot that the kernel declares.
    LayoutMismatchError,
    /// The command sequence could not be recorded.
    RecordingError,
    /// The wait for completion ran out of time; the work is still in flight.
    TimeoutError,
    /// The device was lost, or refused the submitted work.
    DeviceLostError,
    /// The staging buffer does not hold exactly one image of the given
    /// dimensions.
    SizeMismatchError,
}

impl GenerationError {
    /// Only a timeout leaves the generation in a state from which waiting
    /// again can still succeed.
    pub open spec fn spec_is_retryable(&self) -> bool {
        *self == GenerationError::TimeoutError
    }

    /// Whether the caller may reasonably try again without rebuilding
    /// everything.
    #[verifier::when_used_as_spec(spec_is_retryable)]
    pub fn is_retryable(&self) -> (r: bool)
        ensures
            r == self.spec_is_retryable(),
    {
        match self {
            GenerationError::TimeoutError => true,
            _ => false,
        }
    }
}

} // verus!
