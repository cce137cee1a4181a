use vstd::prelude::*;

verus! {

/// Every way in which one invocation of the engine can fail. Each aborts the
/// whole invocation; none yields a partial result.
#[derive(Clone, Copy, Debug, PartialEq, Eq, Structural)]
pub enum EngineError {
    /// No adapter satisfying the default requirements was found.
    DeviceUnavailable,
    /// An adapter was found but the logical device could not be created.
    DeviceRequestFailed,
    /// `m * n * 4` does not fit the 32-bit buffer-size arithmetic.
    BufferSizeOverflow,
    /// The similarity kernel did not compile on the device.
    KernelCompilationFailed,
    /// The mapping of the staging buffer failed or was never observed.
    ComputeReadbackFailed,
}

} // verus!
