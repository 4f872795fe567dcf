//! The render commands of a polyline: binding the polyline bind group with the
//! entity's dynamic offset, and the instanced draw.
//!
//! A command decides what the render pass is to do. The host does it.

use crate::bind_group::PolylineBindGroup;
use crate::pipeline::{POINT_STRIDE, VERTICES_PER_INSTANCE};
use crate::polyline::GpuPolyline;
use vstd::prelude::*;

verus! {

/// How a render command ended.
#[derive(Clone, Copy, Debug, PartialEq, Eq)]
pub enum RenderCommandResult {
    Success,
    /// The item is not drawn in this frame. The frame goes on.
    Failure,
}

/// Binds the polyline bind group at index `I`.
pub struct SetPolylineBindGroup<const I: usize>;

/// Draws a polyline.
pub struct DrawPolyline;

/// What the pass is to do for `SetPolylineBindGroup`.
#[derive(Debug, PartialEq, Eq)]
pub struct SetBindGroup<'a, G> {
    /// The bind-group index.
    pub index: usize,
    pub bind_group: &'a G,
    /// The one dynamic offset: it selects the entity's uniform in the shared buffer.
    pub dynamic_offset: u32,
}

/// What the pass is to do for `DrawPolyline`: bind `vertex_buffer` at
/// `vertex_buffer_slot` and draw the vertices from `first_vertex` up to
/// `end_vertex` for the instances from `first_instance` up to `end_instance`.
#[derive(Debug, PartialEq, Eq)]
pub struct DrawCall<'a, B> {
    pub vertex_buffer_slot: u32,
    pub vertex_buffer: &'a B,
    pub first_vertex: u32,
    pub end_vertex: u32,
    pub first_instance: u32,
    pub end_instance: u32,
}

/// The number of instances for a polyline of `vertex_count` points: one for
/// each segment, so one less than the points, and none without points.
pub open spec fn instance_count_of(vertex_count: u32) -> u32 {
    if vertex_count <= 1 {
        0
    } else {
        (vertex_count - 1) as u32
    }
}

/// `call` is the draw of `prepared`: its buffer at slot 0, six vertices, one
/// instance for each segment.
pub open spec fn is_draw_of<B>(call: DrawCall<'_, B>, prepared: GpuPolyline<B>) -> bool {
    &&& call.vertex_buffer_slot == 0
    &&& *call.vertex_buffer == prepared.vertex_buffer
    &&& call.first_vertex == 0
    &&& call.end_vertex == VERTICES_PER_INSTANCE
    &&& call.first_instance == 0
    &&& call.end_instance == instance_count_of(prepared.vertex_count)
}

/// The number of instances for a polyline of `vertex_count` points.
pub fn instance_count(vertex_count: u32) -> (instances: u32)
    ensures
        instances == instance_count_of(vertex_count),
        instances == (if vertex_count >= 1 {
            vertex_count
        } else {
            1
        }) - 1,
{
    let at_least_one: u32 = if vertex_count >= 1 {
        vertex_count
    } else {
        1
    };
    at_least_one - 1
}

impl<const I: usize> SetPolylineBindGroup<I> {
    /// Binds the frame's polyline bind group at index `I`, with the entity's
    /// index into the uniform buffer as the dynamic offset. Where the frame
    /// has no polyline bind group the command fails, and with it the draw that
    /// follows: nothing is drawn with the bind group of another frame.
    pub fn render<'a, G>(
        bind_group: Option<&'a PolylineBindGroup<G>>,
        dynamic_uniform_index: u32,
    ) -> (outcome: (RenderCommandResult, Option<SetBindGroup<'a, G>>))
        ensures
            match bind_group {
                Some(group) => outcome.0 == RenderCommandResult::Success && outcome.1 is Some
                    && outcome.1.unwrap().index == I && *outcome.1.unwrap().bind_group
                    == group.value && outcome.1.unwrap().dynamic_offset == dynamic_uniform_index,
                None => outcome.0 == RenderCommandResult::Failure && outcome.1 is None,
            },
    {
        match bind_group {
            Some(group) => (
                RenderCommandResult::Success,
                Some(
                    SetBindGroup {
                        index: I,
                        bind_group: &group.value,
                        dynamic_offset: dynamic_uniform_index,
                    },
                ),
            ),
            None => (RenderCommandResult::Failure, None),
        }
    }
}

impl DrawPolyline {
    /// Draws the prepared polyline, if there is one: six vertices for each
    /// segment. Without one, the asset is not prepared yet or is gone, and the
    /// command fails for this item alone.
    pub fn render<'a, B>(gpu_polyline: Option<&'a GpuPolyline<B>>) -> (outcome: (
        RenderCommandResult,
        Option<DrawCall<'a, B>>,
    ))
        ensures
            match gpu_polyline {
                Some(prepared) => outcome.0 == RenderCommandResult::Success && outcome.1 is Some
                    && is_draw_of(outcome.1.unwrap(), *prepared),
                None => outcome.0 == RenderCommandResult::Failure && outcome.1 is None,
            },
    {
        match gpu_polyline {
            Some(prepared) => {
                let num_instances = instance_count(prepared.vertex_count);
                (
                    RenderCommandResult::Success,
                    Some(
                        DrawCall {
                            vertex_buffer_slot: 0,
                            vertex_buffer: &prepared.vertex_buffer,
                            first_vertex: 0,
                            end_vertex: VERTICES_PER_INSTANCE,
                            first_instance: 0,
                            end_instance: num_instances,
                        },
                    ),
                )
            },
            None => (RenderCommandResult::Failure, None),
        }
    }
}

/// Every instance of the draw reads its two points inside the vertex buffer:
/// instance `i` reads point `i` and point `i + 1` of a buffer of
/// `vertex_count` points.
pub proof fn lemma_instances_read_inside_buffer(vertex_count: u32, instance: int)
    requires
        0 <= instance < instance_count_of(vertex_count),
    ensures
        POINT_STRIDE * instance + POINT_STRIDE + POINT_STRIDE <= POINT_STRIDE * vertex_count,
{
}

} // verus!
