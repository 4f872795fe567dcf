use bevy::math::Vec3;
use bevy_polyline::bind_group::PolylineBindGroup;
use bevy_polyline::draw::{
    instance_count, DrawCall, DrawPolyline, RenderCommandResult, SetBindGroup,
    SetPolylineBindGroup,
};
use bevy_polyline::key::PolylinePipelineKey;
use bevy_polyline::pipeline::{BlendState, PolylinePipeline};
use bevy_polyline::polyline::{GpuPolyline, Polyline};

#[test]
fn instance_count_is_one_less_than_the_points() {
    assert_eq!(instance_count(0), 0);
    assert_eq!(instance_count(1), 0);
    assert_eq!(instance_count(2), 1);
    assert_eq!(instance_count(5), 4);
    assert_eq!(instance_count(u32::MAX), u32::MAX - 1);
}

#[test]
fn instance_count_is_max_n_one_minus_one() {
    for n in 0u32..50 {
        assert_eq!(instance_count(n), n.max(1) - 1);
    }
}

#[test]
fn draw_of_a_prepared_polyline() {
    let gpu = GpuPolyline { vertex_buffer: 9u8, vertex_count: 5 };
    assert_eq!(
        DrawPolyline::render(Some(&gpu)),
        (
            RenderCommandResult::Success,
            Some(DrawCall {
                vertex_buffer_slot: 0,
                vertex_buffer: &9u8,
                first_vertex: 0,
                end_vertex: 6,
                first_instance: 0,
                end_instance: 4,
            })
        )
    );
}

#[test]
fn draw_of_a_single_point_has_no_instance() {
    let points: [u32; 2] = [0, 1];
    for n in points {
        let gpu = GpuPolyline { vertex_buffer: 0u8, vertex_count: n };
        let (result, call) = DrawPolyline::render(Some(&gpu));
        assert_eq!(result, RenderCommandResult::Success);
        let call = call.unwrap();
        assert_eq!(call.first_instance, 0);
        assert_eq!(call.end_instance, 0);
        assert_eq!(call.end_vertex, 6);
    }
}

#[test]
fn draw_without_a_prepared_polyline_fails() {
    assert_eq!(DrawPolyline::render::<u8>(None), (RenderCommandResult::Failure, None));
}

#[test]
fn set_bind_group_uses_the_index_and_the_dynamic_offset() {
    let group = PolylineBindGroup { value: 31u8 };
    assert_eq!(
        SetPolylineBindGroup::<1>::render(Some(&group), 256),
        (
            RenderCommandResult::Success,
            Some(SetBindGroup { index: 1, bind_group: &31u8, dynamic_offset: 256 })
        )
    );
    assert_eq!(
        SetPolylineBindGroup::<0>::render(Some(&group), 0),
        (
            RenderCommandResult::Success,
            Some(SetBindGroup { index: 0, bind_group: &31u8, dynamic_offset: 0 })
        )
    );
}

#[test]
fn set_bind_group_fails_without_a_bind_group() {
    assert_eq!(
        SetPolylineBindGroup::<1>::render::<u8>(None, 256),
        (RenderCommandResult::Failure, None)
    );
}

#[test]
fn every_instance_reads_inside_the_buffer() {
    for n in 0u64..20 {
        let instances = instance_count(n as u32) as u64;
        for i in 0..instances {
            assert!(12 * i + 12 + 12 <= 12 * n);
        }
    }
}

#[test]
fn three_points_opaque_end_to_end() {
    let polyline = Polyline {
        vertices: vec![Vec3::new(0.0, 0.0, 0.0), Vec3::new(1.0, 0.0, 0.0), Vec3::new(2.0, 0.0, 0.0)],
    };
    let key = PolylinePipelineKey::from_msaa_samples(1).union(PolylinePipelineKey::from_hdr(false));
    assert!(!key.contains(PolylinePipelineKey::TRANSPARENT_MAIN_PASS));
    assert!(!key.contains(PolylinePipelineKey::PERSPECTIVE));
    let pipeline = PolylinePipeline { view_layout: 0u8, polyline_layout: 1u8 };
    let descriptor = pipeline.specialize(key);
    assert_eq!(descriptor.label, Some("opaque_polyline_pipeline"));
    assert_eq!(
        descriptor.fragment.as_ref().unwrap().targets[0].unwrap().blend,
        Some(BlendState::Replace)
    );
    assert!(descriptor.depth_stencil.unwrap().depth_write_enabled);

    let bytes: Vec<u8> = polyline.vertex_buffer_data().to_vec();
    assert_eq!(bytes.len(), 36);
    let gpu = Polyline::prepare_asset(polyline, Some(bytes)).unwrap();
    assert_eq!(gpu.vertex_count, 3);
    let (result, call) = DrawPolyline::render(Some(&gpu));
    assert_eq!(result, RenderCommandResult::Success);
    let call = call.unwrap();
    assert_eq!(call.end_instance - call.first_instance, 2);
    assert_eq!(call.end_vertex - call.first_vertex, 6);
    assert_eq!(call.vertex_buffer_slot, 0);
    assert_eq!(call.vertex_buffer.len(), 36);
}
