use gpu_cosine::bindings::{layout, Access, Binding};
use gpu_cosine::engine::Phase;
use gpu_cosine::error::EngineError;
use gpu_cosine::readback::{decode_readback, param_bytes, MapStatus};
use gpu_cosine::shape::Dimensions;
use gpu_cosine::text::truncate_text;

fn bytes_of(values: &[f32]) -> Vec<u8> {
    let mut out = Vec::new();
    for v in values {
        out.extend_from_slice(&v.to_ne_bytes());
    }
    out
}

#[test]
fn bindings_keep_their_slots() {
    assert_eq!(Binding::InputA.slot(), 0);
    assert_eq!(Binding::InputB.slot(), 1);
    assert_eq!(Binding::Output.slot(), 2);
    assert_eq!(Binding::Params.slot(), 3);
    for s in 0..4u32 {
        assert_eq!(Binding::from_slot(s).unwrap().slot(), s);
    }
    assert_eq!(Binding::from_slot(4), None);
    assert_eq!(layout(), vec![Binding::InputA, Binding::InputB, Binding::Output, Binding::Params]);
}

#[test]
fn bindings_have_fixed_access() {
    assert_eq!(Binding::InputA.access(), Access::ReadOnlyStorage);
    assert_eq!(Binding::InputB.access(), Access::ReadOnlyStorage);
    assert_eq!(Binding::Output.access(), Access::ReadWriteStorage);
    assert_eq!(Binding::Params.access(), Access::Uniform);
}

#[test]
fn phases_run_in_order() {
    let mut p = Phase::start();
    let mut order = vec![p];
    while p != Phase::Done {
        p = p.advance(true).unwrap();
        order.push(p);
    }
    assert_eq!(
        order,
        vec![
            Phase::CheckSize,
            Phase::AcquireAdapter,
            Phase::RequestDevice,
            Phase::StageBuffers,
            Phase::BuildPipeline,
            Phase::Dispatch,
            Phase::ArmSignal,
            Phase::RequestMap,
            Phase::PumpDevice,
            Phase::AwaitSignal,
            Phase::Done,
        ]
    );
}

#[test]
fn each_failure_has_its_error() {
    assert_eq!(Phase::CheckSize.advance(false), Err(EngineError::BufferSizeOverflow));
    assert_eq!(Phase::AcquireAdapter.advance(false), Err(EngineError::DeviceUnavailable));
    assert_eq!(Phase::RequestDevice.advance(false), Err(EngineError::DeviceRequestFailed));
    assert_eq!(Phase::BuildPipeline.advance(false), Err(EngineError::KernelCompilationFailed));
    assert_eq!(Phase::AwaitSignal.advance(false), Err(EngineError::ComputeReadbackFailed));
    assert!(!Phase::Dispatch.can_fail());
    assert!(Phase::AwaitSignal.can_fail());
}

#[test]
fn readback_of_example_result() {
    // Two queries against two documents, width four: only the first query
    // matches the first document.
    let d = Dimensions::new(2, 2, 4).unwrap();
    let bytes = bytes_of(&[1.0, 0.0, 0.0, 0.0]);
    let words = decode_readback(&d, MapStatus::Mapped, &bytes).unwrap();
    let values: Vec<f32> = words.iter().map(|w| f32::from_bits(*w)).collect();
    assert_eq!(values, vec![1.0, 0.0, 0.0, 0.0]);
    assert_eq!(values[d.entry_index(0, 0)], 1.0);
    assert_eq!(values[d.entry_index(0, 1)], 0.0);
    assert_eq!(values[d.entry_index(1, 0)], 0.0);
    assert_eq!(values[d.entry_index(1, 1)], 0.0);
}

#[test]
fn readback_keeps_non_finite_entries() {
    let d = Dimensions::new(1, 2, 3).unwrap();
    let bytes = bytes_of(&[f32::NAN, f32::INFINITY]);
    let words = decode_readback(&d, MapStatus::Mapped, &bytes).unwrap();
    assert!(f32::from_bits(words[0]).is_nan());
    assert_eq!(f32::from_bits(words[1]), f32::INFINITY);
}

#[test]
fn readback_fails_on_failed_signal() {
    let d = Dimensions::new(2, 2, 4).unwrap();
    let bytes = bytes_of(&[1.0, 0.0, 0.0, 0.0]);
    assert_eq!(decode_readback(&d, MapStatus::Failed, &bytes), Err(EngineError::ComputeReadbackFailed));
    assert_eq!(decode_readback(&d, MapStatus::Dropped, &bytes), Err(EngineError::ComputeReadbackFailed));
}

#[test]
fn readback_fails_on_wrong_size() {
    let d = Dimensions::new(2, 2, 4).unwrap();
    let bytes = bytes_of(&[1.0, 0.0, 0.0]);
    assert_eq!(decode_readback(&d, MapStatus::Mapped, &bytes), Err(EngineError::ComputeReadbackFailed));
    assert_eq!(decode_readback(&d, MapStatus::Mapped, &[0u8; 15]), Err(EngineError::ComputeReadbackFailed));
}

#[test]
fn params_are_three_words_in_order() {
    let d = Dimensions::new(7, 9, 384).unwrap();
    let bytes = param_bytes(&d);
    assert_eq!(bytes.len(), 12);
    assert_eq!(&bytes[0..4], &7u32.to_ne_bytes());
    assert_eq!(&bytes[4..8], &9u32.to_ne_bytes());
    assert_eq!(&bytes[8..12], &384u32.to_ne_bytes());
}

#[test]
fn truncate_keeps_short_text() {
    assert_eq!(truncate_text("short", 30), "short");
    assert_eq!(truncate_text("exactly ten", 11), "exactly ten");
    assert_eq!(truncate_text("", 0), "");
}

#[test]
fn truncate_shortens_long_text() {
    let q = "What are some ways to reduce stress?";
    assert_eq!(truncate_text(q, 30), "What are some ways to reduc...");
    assert_eq!(truncate_text(q, 30).len(), 30);
    assert_eq!(truncate_text("abcd", 3), "...");
}

#[test]
fn readback_accepts_unaligned_bytes() {
    let d = Dimensions::new(2, 2, 4).unwrap();
    let mut shifted = vec![0u8];
    shifted.extend_from_slice(&bytes_of(&[0.5, -1.0, 0.25, 1.0]));
    let words = decode_readback(&d, MapStatus::Mapped, &shifted[1..]).unwrap();
    let values: Vec<f32> = words.iter().map(|w| f32::from_bits(*w)).collect();
    assert_eq!(values, vec![0.5, -1.0, 0.25, 1.0]);
}
