use sitk_sys::engine::{
    check_output, copy_buffer, holds_shape, prepare_register, prepare_resample, Interpolation,
};
use sitk_sys::error::TransformError;
use sitk_sys::pixel::{PixelKind, PixelType};

#[test]
fn register_rejects_different_shapes() {
    let a = vec![0u8; 6];
    let b = vec![0u8; 6];
    let r = prepare_register(PixelKind::U8, &a, [2, 3], &b, [3, 2], true);
    assert_eq!(r.err(), Some(TransformError::ShapeMismatch));
}

#[test]
fn register_rejects_buffer_that_does_not_hold_its_shape() {
    let a = vec![0u16; 6];
    let b = vec![0u16; 5];
    let r = prepare_register(PixelKind::U8, &a, [2, 3], &b, [2, 3], false);
    assert_eq!(r.err(), Some(TransformError::ShapeMismatch));
}

#[test]
fn register_rejects_extents_beyond_32_bits() {
    let n: usize = (u32::MAX as usize) + 1;
    if usize::BITS == 64 {
        let a: Vec<u8> = Vec::new();
        let b: Vec<u8> = Vec::new();
        let r = prepare_register(PixelKind::U8, &a, [0, n], &b, [0, n], true);
        assert_eq!(r.err(), Some(TransformError::EngineFailure));
    }
}

#[test]
fn register_job_copies_both_rasters() {
    let fixed: Vec<i32> = (0..12).collect();
    let moving: Vec<i32> = (100..112).collect();
    let job = prepare_register(<i32 as PixelType>::kind(), &fixed, [3, 4], &moving, [3, 4], true).unwrap();
    assert_eq!(job.call.kind, PixelKind::I32);
    assert_eq!(job.call.width, 4);
    assert_eq!(job.call.height, 3);
    assert!(job.call.flag);
    assert_eq!(job.fixed, fixed);
    assert_eq!(job.moving, moving);
    assert_eq!(job.shape, [3, 4]);
    let translation = prepare_register(<i32 as PixelType>::kind(), &fixed, [3, 4], &moving, [3, 4], false).unwrap();
    assert!(!translation.call.flag);
}

#[test]
fn resample_job_leaves_source_untouched() {
    let image: Vec<u64> = vec![5, 6, 7, 8, 9, 10];
    let before = image.clone();
    let mut job = prepare_resample(<u64 as PixelType>::kind(), &image, [2, 3], Interpolation::BSpline).unwrap();
    for v in job.buffer.iter_mut() {
        *v = 0;
    }
    assert_eq!(image, before);
    assert_eq!(job.call.kind, PixelKind::U64);
    assert_eq!(job.call.width, 3);
    assert_eq!(job.call.height, 2);
    assert!(job.call.flag);
    let nn = prepare_resample(PixelKind::U64, &image, [2, 3], Interpolation::NearestNeighbor).unwrap();
    assert!(!nn.call.flag);
    assert_eq!(nn.buffer, before);
}

#[test]
fn resample_rejects_buffer_that_does_not_hold_its_shape() {
    let image = vec![1i8; 7];
    let r = prepare_resample(PixelKind::I8, &image, [2, 3], Interpolation::NearestNeighbor);
    assert_eq!(r.err(), Some(TransformError::ShapeMismatch));
}

#[test]
fn output_of_wrong_length_is_an_engine_failure() {
    assert_eq!(check_output(6, [2, 3]), Ok(()));
    assert_eq!(check_output(5, [2, 3]), Err(TransformError::EngineFailure));
    assert!(holds_shape(0, [0, 5]));
    assert!(!holds_shape(1, [usize::MAX, 2]));
}

#[test]
fn copy_keeps_every_element() {
    let src = [3i16, -4, 5];
    assert_eq!(copy_buffer(&src), vec![3i16, -4, 5]);
    let empty: [u8; 0] = [];
    assert!(copy_buffer(&empty).is_empty());
}

#[test]
fn error_kinds_tell_input_from_engine() {
    assert!(TransformError::ShapeMismatch.is_invalid_input());
    assert!(TransformError::NonInvertible.is_invalid_input());
    assert!(!TransformError::EngineFailure.is_invalid_input());
    assert!(!TransformError::SerializationFailure.is_invalid_input());
}
