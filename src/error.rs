use vstd::prelude::*;

verus! {

/// The step of pipeline construction whose allocation was refused.
#[derive(Clone, Copy, Debug, PartialEq, Eq, Structural)]
pub enum BuildStage {
    /// The buffer that the compute program reads and writes (binding slot 0).
    StorageBuffer,
    /// The host-readable buffer that results are copied into.
    StagingBuffer,
    /// The small uniform buffer (binding slot 1).
    AuxBuffer,
    /// Compiling the program or deriving its pipeline.
    Program,
}

/// Every failure of the GPU context, the pipeline builder and the dispatcher.
/// A failed presentation is a frame-loop event instead: it ends the loop.
#[derive(Clone, Copy, Debug, PartialEq, Eq, Structural)]
pub enum GpuError {
    /// No adapter was found, or it could not open a device.
    AdapterUnavailable,
    /// The adapter is a known software-only renderer and is rejected.
    UnsupportedAdapter { vendor: u64 },
    /// An allocation or compilation was refused; `size` is the byte size asked for.
    PipelineBuildFailure { stage: BuildStage, size: u64 },
    /// A byte length is not a whole multiple of `unit` (an element size or a copy alignment).
    LayoutMismatch { bytes: u64, unit: u64 },
    /// A dispatch names another element count than its resources were built for.
    CountMismatch { built_for: u64, given: u64 },
    /// A dispatch asks for more work groups than the device allows along one axis.
    DispatchTooLarge { groups: u64, limit: u32 },
    /// The staging buffer could not be mapped for reading.
    BufferMapFailure,
}

} // verus!
