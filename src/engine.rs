use vstd::prelude::*;

use crate::error::EngineError;

verus! {

/// The stages of one engine invocation, in the order they run. Every
/// invocation walks them from the first, with no state kept between calls.
#[derive(Clone, Copy, Debug, PartialEq, Eq, Structural)]
pub enum Phase {
    /// Check that the result size is representable, before any allocation.
    CheckSize,
    /// Find an adapter among the available backends.
    AcquireAdapter,
    /// Create the logical device and its queue.
    RequestDevice,
    /// Allocate and fill the input, output, parameter and staging buffers.
    StageBuffers,
    /// Compile the kernel and wire the binding layout.
    BuildPipeline,
    /// Record the compute pass and the copy to staging, then submit.
    Dispatch,
    /// Arm the one-shot completion signal.
    ArmSignal,
    /// Ask for a host-readable mapping of the staging buffer.
    RequestMap,
    /// Drive the device until outstanding work completes.
    PumpDevice,
    /// Wait for the completion signal and copy the mapped bytes out.
    AwaitSignal,
    /// The result is with the caller.
    Done,
}

pub open spec fn spec_rank(p: Phase) -> nat {
    match p {
        Phase::CheckSize => 0,
        Phase::AcquireAdapter => 1,
        Phase::RequestDevice => 2,
        Phase::StageBuffers => 3,
        Phase::BuildPipeline => 4,
        Phase::Dispatch => 5,
        Phase::ArmSignal => 6,
        Phase::RequestMap => 7,
        Phase::PumpDevice => 8,
        Phase::AwaitSignal => 9,
        Phase::Done => 10,
    }
}

/// The phase that follows `p`.
pub open spec fn spec_next(p: Phase) -> Phase {
    match p {
        Phase::CheckSize => Phase::AcquireAdapter,
        Phase::AcquireAdapter => Phase::RequestDevice,
        Phase::RequestDevice => Phase::StageBuffers,
        Phase::StageBuffers => Phase::BuildPipeline,
        Phase::BuildPipeline => Phase::Dispatch,
        Phase::Dispatch => Phase::ArmSignal,
        Phase::ArmSignal => Phase::RequestMap,
        Phase::RequestMap => Phase::PumpDevice,
        Phase::PumpDevice => Phase::AwaitSignal,
        Phase::AwaitSignal => Phase::Done,
        Phase::Done => Phase::Done,
    }
}

/// The error that ends the invocation when phase `p` reports failure; `None`
/// for the phases that cannot fail.
pub open spec fn spec_failure(p: Phase) -> Option<EngineError> {
    match p {
        Phase::CheckSize => Some(EngineError::BufferSizeOverflow),
        Phase::AcquireAdapter => Some(EngineError::DeviceUnavailable),
        Phase::RequestDevice => Some(EngineError::DeviceRequestFailed),
        Phase::BuildPipeline => Some(EngineError::KernelCompilationFailed),
        Phase::AwaitSignal => Some(EngineError::ComputeReadbackFailed),
        _ => None,
    }
}

impl Phase {
    /// The first phase of every invocation.
    pub fn start() -> (r: Phase)
        ensures
            spec_rank(r) == 0,
    {
        Phase::CheckSize
    }

    /// Whether this phase can report failure.
    pub fn can_fail(self) -> (r: bool)
        ensures
            r == spec_failure(self) is Some,
    {
        match self {
            Phase::CheckSize | Phase::AcquireAdapter | Phase::RequestDevice
            | Phase::BuildPipeline | Phase::AwaitSignal => true,
            _ => false,
        }
    }

    /// Moves on after this phase has run: to the next phase when it
    /// succeeded, or to the invocation's error when it failed.
    pub fn advance(self, succeeded: bool) -> (r: Result<Phase, EngineError>)
        requires
            self != Phase::Done,
            succeeded || spec_failure(self) is Some,
        ensures
            succeeded ==> r == Ok::<Phase, EngineError>(spec_next(self)),
            !succeeded ==> r == Err::<Phase, EngineError>(spec_failure(self)->0),
            r matches Ok(p) ==> spec_rank(p) == spec_rank(self) + 1,
    {
        if !succeeded {
            return match self {
                Phase::CheckSize => Err(EngineError::BufferSizeOverflow),
                Phase::AcquireAdapter => Err(EngineError::DeviceUnavailable),
                Phase::RequestDevice => Err(EngineError::DeviceRequestFailed),
                Phase::BuildPipeline => Err(EngineError::KernelCompilationFailed),
                _ => Err(EngineError::ComputeReadbackFailed),
            };
        }
        Ok(
            match self {
                Phase::CheckSize => Phase::AcquireAdapter,
                Phase::AcquireAdapter => Phase::RequestDevice,
                Phase::RequestDevice => Phase::StageBuffers,
                Phase::StageBuffers => Phase::BuildPipeline,
                Phase::BuildPipeline => Phase::Dispatch,
                Phase::Dispatch => Phase::ArmSignal,
                Phase::ArmSignal => Phase::RequestMap,
                Phase::RequestMap => Phase::PumpDevice,
                Phase::PumpDevice => Phase::AwaitSignal,
                _ => Phase::Done,
            },
        )
    }
}

/// The completion handshake runs in a fixed order: the signal is armed before
/// the mapping is requested, and the device is pumped after the request and
/// before the signal is awaited. The size check comes before every phase that
/// touches the device.
pub proof fn lemma_handshake_order()
    ensures
        spec_next(Phase::ArmSignal) == Phase::RequestMap,
        spec_next(Phase::RequestMap) == Phase::PumpDevice,
        spec_next(Phase::PumpDevice) == Phase::AwaitSignal,
        spec_rank(Phase::ArmSignal) < spec_rank(Phase::RequestMap),
        spec_rank(Phase::RequestMap) < spec_rank(Phase::PumpDevice),
        spec_rank(Phase::PumpDevice) < spec_rank(Phase::AwaitSignal),
        forall|p: Phase| p != Phase::CheckSize ==> spec_rank(Phase::CheckSize) < #[trigger] spec_rank(p),
        forall|p: Phase| p != Phase::Done ==> #[trigger] spec_rank(spec_next(p)) == spec_rank(p) + 1,
{
}

} // verus!
