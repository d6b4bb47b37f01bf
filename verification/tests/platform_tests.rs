use picasso_example::heads::{
    pulse_distance_millis, retained_frame_plan, seed_plan, Quadrant, Spin,
};
use picasso_example::resources::{SharedByteRange, SharedResourceId};
use picasso_example::ring::{
    maintenance_outcome, u64_to_usize, CacheMaintenance, CacheOp, CubismError, VVideoRing,
    VVideoRingError,
};
use picasso_example::upload::{check_written, write_offset, UploadError};
use picasso_example::video::{
    quad_index_bytes, quad_indices, quad_mesh_plan, submission, video_size, Demo, DemoError,
    DrawRange,
};

#[test]
fn ring_layout_multiplies_slots() {
    let ring = VVideoRing::layout(SharedResourceId(9), 1, 128).unwrap();
    assert_eq!(ring.total_bytes, 128);
    assert_eq!(ring.visibility().resource, SharedResourceId(9));
    assert_eq!(VVideoRing::layout(SharedResourceId(9), 0, usize::MAX).unwrap().total_bytes, 0);
    assert_eq!(
        VVideoRing::layout(SharedResourceId(9), usize::MAX, 2),
        Err(VVideoRingError::Cubism(CubismError::SizeOverflow))
    );
}

#[test]
fn visibility_is_resource_relative() {
    let vis = VVideoRing::layout(SharedResourceId(9), 2, 128).unwrap().visibility();
    let range = SharedByteRange { resource: SharedResourceId(9), offset: 64, byte_length: 4 };
    assert_eq!(
        vis.cpu_make_gpu_visible(range),
        Ok(CacheMaintenance { op: CacheOp::Flush, offset: 64, bytes: 4 })
    );
    assert_eq!(
        vis.cpu_publish_slot(range),
        Ok(CacheMaintenance { op: CacheOp::Flush, offset: 64, bytes: 4 })
    );
    assert_eq!(
        vis.gpu_make_cpu_visible(range),
        Ok(CacheMaintenance { op: CacheOp::Invalidate, offset: 64, bytes: 4 })
    );
    let foreign = SharedByteRange { resource: SharedResourceId(10), offset: 64, byte_length: 4 };
    assert_eq!(vis.cpu_make_gpu_visible(foreign), Err(CubismError::VisibilityFailed));
    assert_eq!(maintenance_outcome(Ok(())), Ok(()));
    assert_eq!(maintenance_outcome(Err(-5)), Err(CubismError::VisibilityFailed));
    assert_eq!(u64_to_usize(7), Some(7));
}

#[test]
fn uploads_must_be_exact() {
    assert_eq!(write_offset(0), Ok(0));
    assert_eq!(write_offset(4096), Ok(4096));
    assert_eq!(check_written(Ok(24), 24), Ok(()));
    assert_eq!(check_written(Ok(23), 24), Err(UploadError::ShortWrite));
    assert_eq!(check_written(Err(-2), 24), Err(UploadError::Device(-2)));
}

#[test]
fn head_behaviours() {
    assert_eq!(seed_plan(0).spin, Spin::Clockwise);
    assert_eq!(seed_plan(0).quadrant, Quadrant::TopLeft);
    assert_eq!(seed_plan(1).spin, Spin::CounterClockwise);
    assert_eq!(seed_plan(1).quadrant, Quadrant::TopRight);
    assert_eq!(seed_plan(2).spin, Spin::Still);
    assert!(seed_plan(2).pulses);
    assert_eq!(seed_plan(2).quadrant, Quadrant::BottomLeft);
    assert_eq!(seed_plan(3).spin, Spin::Still);
    assert!(!seed_plan(3).pulses);
    assert_eq!(seed_plan(3).quadrant, Quadrant::BottomRight);
    for slot in 0..4u32 {
        assert_eq!(seed_plan(slot).flags, slot << 16);
    }
    let plan = retained_frame_plan();
    assert_eq!(plan.clear_rgba8_srgb, u32::from_le_bytes([15, 20, 38, 255]));
    assert_eq!(plan.seed_count, 4);
    assert_eq!(plan.static_draw_count, 3);
}

#[test]
fn pulse_collapses_at_half_second() {
    assert_eq!(pulse_distance_millis(0), 500);
    assert_eq!(pulse_distance_millis(250), 250);
    assert_eq!(pulse_distance_millis(500), 0);
    assert_eq!(pulse_distance_millis(750), 250);
    assert_eq!(pulse_distance_millis(999), 499);
    assert_eq!(pulse_distance_millis(1000), 500);
    assert_eq!(pulse_distance_millis(12_345), pulse_distance_millis(345));
}

#[test]
fn four_quads_share_three_streams_without_pbr_or_static_passes() {
    let s = submission([11, 22, 33]);
    assert_eq!(s.textures, [11, 22, 33, 11]);
    assert_eq!(s.seed_count, 4);
    assert_eq!(s.static_draw_count, 0);
    for r in s.ranges {
        assert_eq!(r.first_index, 0);
        assert_eq!(r.index_count, 6);
    }
    assert_eq!(s.ranges[0], DrawRange { first_index: 0, index_count: 6 });
    assert_eq!(s.clear_rgba8_srgb, u32::from_le_bytes([12, 14, 18, 255]));
}

#[test]
fn quad_mesh_streams() {
    assert_eq!(quad_indices(), [0, 1, 2, 0, 2, 3]);
    let bytes = quad_index_bytes();
    assert_eq!(bytes.len(), 24);
    assert_eq!(&bytes[8..12], &[2, 0, 0, 0]);
    let plan = quad_mesh_plan();
    assert_eq!(plan.vertex_count, 4);
    assert_eq!(plan.index_count, 6);
    assert!(plan.double_sided);
    assert_eq!([video_size(0), video_size(1), video_size(2)], [48, 128, 256]);
}

#[test]
fn video_view_accepts_only_expected_extents() {
    let mut demo = Demo::open();
    assert!(!demo.running());
    assert!(!demo.ready());
    demo.start();
    assert!(demo.running());
    assert_eq!(demo.accept_frame(0, 48, 48, 100), Ok(()));
    assert_eq!(demo.accept_frame(1, 128, 64, 200), Err(DemoError::UnexpectedExtent));
    assert!(!demo.ready());
    assert_eq!(demo.accept_frame(1, 128, 128, 200), Ok(()));
    assert_eq!(demo.accept_frame(2, 256, 256, 300), Ok(()));
    assert!(demo.ready());
    assert_eq!(demo.texture_ids(), [100, 200, 300]);
    // A newer frame replaces the held one.
    assert_eq!(demo.accept_frame(0, 48, 48, 101), Ok(()));
    let s = demo.render();
    assert_eq!(s.textures, [101, 200, 300, 101]);
    demo.stop();
    assert!(!demo.running());
    assert!(!demo.ready());
    assert_eq!(demo.frames, [None, None, None]);
}
